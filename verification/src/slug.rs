//! Random name suffixes.
//!
//! A slug is a short run of random letters and digits that is appended to a
//! container's base name, so that repeated runs do not collide on the name.
//! Each of its characters is drawn independently from 62, so two slugs of
//! length `n` coincide with probability `62^-n`: enough for short-lived test
//! containers, not for names that must be unique.

use rand::Rng;
use vstd::prelude::*;

verus! {

/// An ASCII letter or digit.
pub open spec fn is_alphanumeric(c: char) -> bool {
    ||| 'A' <= c <= 'Z'
    ||| 'a' <= c <= 'z'
    ||| '0' <= c <= '9'
}

/// `text` consists of exactly `length` letters and digits.
pub open spec fn is_slug(text: Seq<char>, length: nat) -> bool {
    &&& text.len() == length
    &&& forall|i: int| 0 <= i < text.len() ==> is_alphanumeric(#[trigger] text[i])
}

/// `base`, an underscore, then `slug`.
pub open spec fn joined(base: Seq<char>, slug: Seq<char>) -> Seq<char> {
    base + seq!['_'] + slug
}

/// `name` is `base` followed by an underscore and a slug of `length` characters.
pub open spec fn is_slugged(name: Seq<char>, base: Seq<char>, length: nat) -> bool {
    &&& name.len() == base.len() + 1 + length
    &&& name.subrange(0, base.len() as int) == base
    &&& name[base.len() as int] == '_'
    &&& is_slug(name.subrange(base.len() as int + 1, name.len() as int), length)
}

/// `rand::Rng::sample` of `Alphanumeric` on the thread's generator: one letter
/// or digit, whichever it is.
#[verifier::external_body]
fn random_alphanumeric() -> (c: char)
    ensures
        is_alphanumeric(c),
{
    rand::thread_rng().sample(rand::distributions::Alphanumeric)
}

/// `String::push`: appends one character.
#[verifier::external_body]
fn push_char(text: &mut String, c: char)
    ensures
        final(text)@ == old(text)@.push(c),
{
    text.push(c);
}

/// Draws a slug of `length` characters.
pub fn random_slug(length: usize) -> (slug: String)
    ensures
        is_slug(slug@, length as nat),
{
    let mut slug = String::new();
    let mut drawn: usize = 0;
    while drawn < length
        invariant
            drawn <= length,
            is_slug(slug@, drawn as nat),
        decreases length - drawn,
    {
        let c = random_alphanumeric();
        push_char(&mut slug, c);
        drawn += 1;
    }
    slug
}

/// Appends an underscore and `slug` to `base`.
pub fn with_slug(base: &str, slug: &str) -> (name: String)
    ensures
        name@ == joined(base@, slug@),
{
    proof {
        reveal_strlit("_");
    }
    let name = base.to_owned().concat("_").concat(slug);
    assert(name@ =~= joined(base@, slug@));
    name
}

/// A base name joined with a slug of `length` characters is slugged with
/// that length.
pub proof fn joined_is_slugged(base: Seq<char>, slug: Seq<char>, length: nat)
    requires
        is_slug(slug, length),
    ensures
        is_slugged(joined(base, slug), base, length),
{
    let name = joined(base, slug);
    assert(name.subrange(0, base.len() as int) =~= base);
    assert(name.subrange(base.len() as int + 1, name.len() as int) =~= slug);
}

} // verus!
