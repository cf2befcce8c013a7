//! Case-insensitive token matching.
//!
//! Unit aliases are lowercase ASCII tokens; a symbol matches an alias when
//! its ASCII-lowercased form equals the alias exactly (no trimming).

use vstd::prelude::*;

verus! {

/// ASCII lowercasing of a single character: uppercase ASCII letters map to
/// their lowercase form, every other character is unchanged.
pub open spec fn lower_char(c: char) -> char {
    if 'A' <= c && c <= 'Z' {
        ((c as u8) + 32) as char
    } else {
        c
    }
}

/// ASCII lowercasing of a character sequence, character by character.
pub open spec fn lower_seq(s: Seq<char>) -> Seq<char> {
    s.map_values(|c: char| lower_char(c))
}

/// Lowercasing a sequence is idempotent: a token already in lowercase form
/// is its own lowercase form.
pub proof fn lemma_lower_seq_idempotent(s: Seq<char>)
    ensures
        lower_seq(lower_seq(s)) == lower_seq(s),
{
    assert(lower_seq(lower_seq(s)) =~= lower_seq(s));
}

/// ASCII-lowercase one character.
pub fn lower_char_ascii(c: char) -> (r: char)
    ensures
        r == lower_char(c),
{
    if c >= 'A' && c <= 'Z' {
        (((c as u8) + 32) as char)
    } else {
        c
    }
}

/// Does the symbol `s`, lowercased, equal the (lowercase) alias `alias`?
pub fn matches_alias(s: &str, alias: &str) -> (r: bool)
    ensures
        r == (lower_seq(s@) == alias@),
{
    let n = s.unicode_len();
    let m = alias.unicode_len();
    if n != m {
        assert(lower_seq(s@).len() != alias@.len());
        return false;
    }
    for i in 0..n
        invariant
            n == s@.len(),
            n == alias@.len(),
            forall|j: int| 0 <= j < i ==> lower_seq(s@)[j] == alias@[j],
    {
        let c = s.get_char(i);
        let d = alias.get_char(i);
        if lower_char_ascii(c) != d {
            assert(lower_seq(s@)[i as int] != alias@[i as int]);
            return false;
        }
    }
    assert(lower_seq(s@) =~= alias@);
    true
}

} // verus!
