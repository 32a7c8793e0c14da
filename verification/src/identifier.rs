use vstd::prelude::*;

use crate::numfmt::{i64_to_string, int_dec_digits};

verus! {

/// A resource identifier: either a numeric ID or an opaque URN string, used
/// interchangeably to address resources.
#[derive(Debug)]
pub enum SoundcloudIdentifier {
    Id(i64),
    Urn(String),
}

/// The textual form of an identifier, as it appears in a resource path: the
/// decimal digits of a numeric ID, or the URN itself.
pub open spec fn identifier_text(id: SoundcloudIdentifier) -> Seq<char> {
    match id {
        SoundcloudIdentifier::Id(n) => int_dec_digits(n as int),
        SoundcloudIdentifier::Urn(urn) => urn@,
    }
}

impl SoundcloudIdentifier {
    /// The identifier's textual form.
    pub fn to_text(&self) -> (s: String)
        ensures
            s@ == identifier_text(*self),
    {
        match self {
            SoundcloudIdentifier::Id(n) => i64_to_string(*n),
            SoundcloudIdentifier::Urn(urn) => urn.clone(),
        }
    }
}

} // verus!
