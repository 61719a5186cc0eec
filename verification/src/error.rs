//! Error kinds surfaced by the adapter contract and the validation helpers.

use vstd::prelude::*;

verus! {

/// Mathematical model of a [`SeamError`]: the kind together with the
/// message carried by the kinds that have one.
#[verifier::ext_equal]
pub enum ErrorV {
    NotFound,
    Network(Seq<char>),
    Parse(Seq<char>),
    Type(Seq<char>),
}

/// A failure reported through the adapter contract.
///
/// - `NotFound`: the requested room does not exist or the platform reports
///   it unresolvable.
/// - `Network`: transport-level failure reaching the upstream platform.
/// - `Parse`: the upstream response did not match the expected shape.
/// - `Type`: a classification helper was invoked against a `Url` whose
///   format does not match the expected kind.
#[derive(Debug, Clone)]
pub enum SeamError {
    NotFound,
    Network(String),
    Parse(String),
    Type(String),
}

impl View for SeamError {
    type V = ErrorV;

    open spec fn view(&self) -> ErrorV {
        match self {
            SeamError::NotFound => ErrorV::NotFound,
            SeamError::Network(m) => ErrorV::Network(m@),
            SeamError::Parse(m) => ErrorV::Parse(m@),
            SeamError::Type(m) => ErrorV::Type(m@),
        }
    }
}

impl PartialEq for SeamError {
    /// Equality is purely structural: same kind and same message.
    fn eq(&self, other: &SeamError) -> (r: bool) {
        match (self, other) {
            (SeamError::NotFound, SeamError::NotFound) => true,
            (SeamError::Network(a), SeamError::Network(b)) => *a == *b,
            (SeamError::Parse(a), SeamError::Parse(b)) => *a == *b,
            (SeamError::Type(a), SeamError::Type(b)) => *a == *b,
            _ => false,
        }
    }
}

impl vstd::std_specs::cmp::PartialEqSpecImpl for SeamError {
    open spec fn obeys_eq_spec() -> bool {
        true
    }

    open spec fn eq_spec(&self, other: &SeamError) -> bool {
        self@ == other@
    }
}

} // verus!
