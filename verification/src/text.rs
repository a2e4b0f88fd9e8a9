//! Text primitives shared by the other modules.

use vstd::prelude::*;

verus! {

/// `String::push` appends the given character to the end of the string.
pub assume_specification[ String::push ](s: &mut String, c: char)
    ensures
        final(s)@ == old(s)@.push(c),
;

/// `str`'s `==` holds exactly of two slices with the same characters.
pub assume_specification[ <str as PartialEq>::eq ](a: &str, b: &str) -> (r: bool)
    ensures
        r == (a@ == b@),
;

/// The uppercase mapping of a character: the characters that
/// `char::to_uppercase` yields for it, in order.
pub uninterp spec fn uppercase_of(c: char) -> Seq<char>;

/// Calls `char::to_uppercase` and collects what it yields. The contract names
/// the result after the character alone and claims that it holds at least
/// one character, as the documentation of `to_uppercase` promises.
#[verifier::external_body]
pub(crate) fn uppercase(c: char) -> (r: String)
    ensures
        r@ == uppercase_of(c),
        r@.len() >= 1,
{
    c.to_uppercase().collect()
}

/// The lowercase form of an ASCII capital letter; every other character is itself.
pub open spec fn ascii_lower_char(c: char) -> char {
    if 'A' <= c && c <= 'Z' {
        ((c as u8) + 32) as char
    } else {
        c
    }
}

/// A text with each ASCII capital letter replaced by its lowercase form.
pub open spec fn spec_ascii_lowercase(s: Seq<char>) -> Seq<char> {
    s.map_values(|c: char| ascii_lower_char(c))
}

/// Whether no character of `s` is an underscore.
pub open spec fn underscore_free(s: Seq<char>) -> bool {
    forall|i: int| 0 <= i < s.len() ==> s[i] != '_'
}

/// Lowercases the ASCII capital letters of `s` and keeps every other character.
pub fn ascii_lowercase(s: &str) -> (r: String)
    ensures
        r@ == spec_ascii_lowercase(s@),
{
    let mut out = String::new();
    for c in it: s.chars()
        invariant
            it.seq() == s@,
            out@ == spec_ascii_lowercase(s@.take(it.index() as int)),
    {
        let lowered = if 'A' <= c && c <= 'Z' {
            ((c as u8) + 32) as char
        } else {
            c
        };
        out.push(lowered);
    }
    out
}

/// Two texts joined by an underscore whose second parts hold no underscore are
/// equal only if both parts are.
pub proof fn lemma_underscore_join_injective(
    a1: Seq<char>,
    b1: Seq<char>,
    a2: Seq<char>,
    b2: Seq<char>,
)
    requires
        underscore_free(b1),
        underscore_free(b2),
        a1 + seq!['_'] + b1 == a2 + seq!['_'] + b2,
    ensures
        a1 == a2,
        b1 == b2,
{
    let l = a1 + seq!['_'] + b1;
    let r = a2 + seq!['_'] + b2;
    assert(l.len() == a1.len() + 1 + b1.len());
    assert(r.len() == a2.len() + 1 + b2.len());
    if a1.len() < a2.len() {
        // the underscore that follows `a2` would lie inside `b1`
        let k = a2.len() as int;
        assert(r[k] == '_');
        assert(l[k] == b1[k - a1.len() - 1]);
        assert(false);
    }
    if a2.len() < a1.len() {
        // the underscore that follows `a1` would lie inside `b2`
        let k = a1.len() as int;
        assert(l[k] == '_');
        assert(r[k] == b2[k - a2.len() - 1]);
        assert(false);
    }
    assert(a1 =~= a2) by {
        assert forall|i: int| 0 <= i < a1.len() implies a1[i] == a2[i] by {
            assert(l[i] == a1[i]);
            assert(r[i] == a2[i]);
        }
    }
    assert(b1 =~= b2) by {
        assert forall|i: int| 0 <= i < b1.len() implies b1[i] == b2[i] by {
            assert(l[a1.len() + 1 + i] == b1[i]);
            assert(r[a2.len() + 1 + i] == b2[i]);
        }
    }
}

} // verus!
