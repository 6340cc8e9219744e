use vstd::prelude::*;

use crate::session::pick_nickname;

verus! {

/// Relies on names::Generator::next under Name::Numbered: it formats a
/// random "adjective-noun-number" name, so it always returns a non-empty
/// name.
#[verifier::external_body]
fn generated_name() -> (r: Option<String>)
    ensures
        r.is_some(),
        r.unwrap()@.len() > 0,
{
    let mut generator = names::Generator::with_naming(names::Name::Numbered);
    generator.next()
}

/// A fresh display name for this process: a generated one, or "Guest" if
/// the generator gives none. Never empty.
pub fn generate_nickname() -> (r: String)
    ensures
        r@.len() > 0,
{
    pick_nickname(generated_name())
}

} // verus!
