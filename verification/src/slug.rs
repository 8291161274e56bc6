//! Slugs that the library makes up itself.

use vstd::prelude::*;

verus! {

/// How many characters a generated slug has.
pub const SLUG_LEN: usize = 10;

/// The characters a generated slug is drawn from: `_`, `-`, digits and
/// ASCII letters, sixty-four in all.
pub open spec fn is_url_safe(c: char) -> bool {
    ||| c == '_'
    ||| c == '-'
    ||| ('0' <= c && c <= '9')
    ||| ('a' <= c && c <= 'z')
    ||| ('A' <= c && c <= 'Z')
}

/// What every generated slug looks like.
pub open spec fn is_generated(s: Seq<char>) -> bool {
    &&& s.len() == SLUG_LEN
    &&& forall|i: int| 0 <= i < s.len() ==> is_url_safe(#[trigger] s[i])
}

/// Slugs of the generated form exist: one made of underscores is such a slug.
pub proof fn generated_exists() -> (s: Seq<char>)
    ensures
        is_generated(s),
{
    Seq::new(SLUG_LEN as nat, |i: int| '_')
}

/// `nanoid::format` with nanoid's default random source and its `SAFE`
/// alphabet. The identifier has `size` characters, each one of that
/// alphabet; which ones is left to chance. `format` never returns for a
/// size of zero, so that size is excluded.
#[verifier::external_body]
fn random_id(size: usize) -> (id: String)
    requires
        size > 0,
    ensures
        id@.len() == size,
        forall|i: int| 0 <= i < id@.len() ==> is_url_safe(#[trigger] id@[i]),
{
    nanoid::format(nanoid::rngs::default, &nanoid::alphabet::SAFE, size)
}

/// A new random slug.
pub fn gen_slug() -> (slug: String)
    ensures
        is_generated(slug@),
{
    random_id(SLUG_LEN)
}

} // verus!
