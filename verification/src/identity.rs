//! The identity that a successful verification yields.

use vstd::prelude::*;

verus! {

/// Who a credential was issued to, as the verification capability reports it.
/// The login gate only asks whether there is one; it keeps none.
#[derive(Debug, Clone, PartialEq, Eq)]
pub struct VerifiedIdentity {
    subject: String,
}

impl View for VerifiedIdentity {
    type V = Seq<char>;

    closed spec fn view(&self) -> Seq<char> {
        self.subject@
    }
}

impl VerifiedIdentity {
    /// The identity of `subject`.
    pub fn new(subject: String) -> (identity: VerifiedIdentity)
        ensures
            identity@ == subject@,
    {
        VerifiedIdentity { subject }
    }

    /// The subject's name.
    pub fn subject(&self) -> (subject: &str)
        ensures
            subject@ == self@,
    {
        self.subject.as_str()
    }
}

/// The subject of an optional identity, as an optional sequence of characters.
pub open spec fn subject_of(identity: Option<VerifiedIdentity>) -> Option<Seq<char>> {
    match identity {
        Some(identity) => Some(identity@),
        None => None,
    }
}

} // verus!
