//! Text helpers: the contracts of the `String` operations the board relies on,
//! and the derivation of a column identifier from its display name.

use vstd::prelude::*;

verus! {

/// `String::push` appends one character and leaves the rest of the text alone.
pub assume_specification[ String::push ](s: &mut String, c: char)
    ensures
        final(s)@ == old(s)@.push(c),
;

/// `String::pop` removes and returns the last character, or returns `None`
/// and changes nothing when the text is empty.
pub assume_specification[ String::pop ](s: &mut String) -> (r: Option<char>)
    ensures
        old(s)@.len() == 0 ==> r is None && final(s)@ == old(s)@,
        old(s)@.len() > 0 ==> r == Some(old(s)@.last()) && final(s)@ == old(s)@.drop_last(),
;

/// Equality of two string slices is equality of their characters.
pub assume_specification[ <str as PartialEq>::eq ](a: &str, b: &str) -> (r: bool)
    ensures
        r == (a@ == b@),
;

/// The lower-case form of a text under the Unicode case mapping, as
/// `str::to_lowercase` computes it. The mapping is table-driven and is not
/// reproduced here; contracts refer to it by this name.
pub uninterp spec fn lowercase(s: Seq<char>) -> Seq<char>;

/// `str::to_lowercase` returns the Unicode lower-case form of its argument.
pub assume_specification[ str::to_lowercase ](s: &str) -> (r: String)
    ensures
        r@ == lowercase(s@),
;

/// A space becomes an underscore; every other character stays.
pub open spec fn unspace(c: char) -> char {
    if c == ' ' {
        '_'
    } else {
        c
    }
}

/// `s` with every space replaced by an underscore.
pub open spec fn underscored(s: Seq<char>) -> Seq<char> {
    s.map_values(|c: char| unspace(c))
}

/// The identifier derived from a column name: lower-cased, spaces replaced
/// by underscores.
pub open spec fn slug(name: Seq<char>) -> Seq<char> {
    underscored(lowercase(name))
}

/// Replaces every space in `s` by an underscore.
pub fn underscore_spaces(s: &str) -> (r: String)
    ensures
        r@ == underscored(s@),
{
    let mut out = String::new();
    for c in it: s.chars()
        invariant
            it.seq() == s@,
            out@ == underscored(s@.take(it.index() as int)),
    {
        proof {
            assert(underscored(s@.take(it.index() + 1)) =~= underscored(
                s@.take(it.index() as int),
            ).push(unspace(c)));
        }
        if c == ' ' {
            out.push('_');
        } else {
            out.push(c);
        }
    }
    proof {
        assert(s@.take(s@.len() as int) =~= s@);
    }
    out
}

/// Derives a column identifier from a display name.
pub fn slugify(name: &str) -> (r: String)
    ensures
        r@ == slug(name@),
{
    let lowered = name.to_lowercase();
    underscore_spaces(lowered.as_str())
}

/// Whether two texts hold the same characters.
pub fn same_text(a: &str, b: &str) -> (r: bool)
    ensures
        r == (a@ == b@),
{
    a.eq(b)
}

} // verus!
