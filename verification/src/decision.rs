//! The outcome of the login gate for one request.

use vstd::prelude::*;

verus! {

/// What the host does with a request: hand it to the next handler, or answer
/// it with a redirect to `location` without running the handler.
#[derive(Debug, Clone, PartialEq, Eq)]
pub enum Decision {
    Forward,
    RedirectTo(String),
}

/// The mathematical value of a [`Decision`]: the same two outcomes, with the
/// redirect target as a sequence of characters.
pub enum DecisionView {
    Forward,
    RedirectTo(Seq<char>),
}

impl View for Decision {
    type V = DecisionView;

    open spec fn view(&self) -> DecisionView {
        match self {
            Decision::Forward => DecisionView::Forward,
            Decision::RedirectTo(location) => DecisionView::RedirectTo(location@),
        }
    }
}

impl Decision {
    /// Whether the request goes on to the next handler.
    pub fn is_forward(&self) -> (b: bool)
        ensures
            b == (self@ == DecisionView::Forward),
    {
        match self {
            Decision::Forward => true,
            Decision::RedirectTo(_) => false,
        }
    }

    /// Where the request is sent instead, if it is not forwarded.
    pub fn redirect_location(&self) -> (location: Option<&str>)
        ensures
            match location {
                Some(location) => self@ == DecisionView::RedirectTo(location@),
                None => self@ == DecisionView::Forward,
            },
    {
        match self {
            Decision::Forward => None,
            Decision::RedirectTo(location) => Some(location.as_str()),
        }
    }
}

} // verus!
