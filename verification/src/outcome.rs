//! How a single test ended.

use vstd::prelude::*;

verus! {

/// What a panicking test left behind.
///
/// A panic carries a value of any type. Two kinds of it are text, and the
/// report prints them; anything else is only known to have been there.
pub enum FailurePayload {
    /// A message that lives for the whole program, as `panic!("...")` with a
    /// literal leaves it.
    StaticText(&'static str),
    /// A message built at run time, as `panic!("{}", ..)` leaves it.
    OwnedText(String),
    /// A payload that is no text.
    Unknown,
}

/// A [`FailurePayload`] with its text as a sequence of characters.
pub enum PayloadView {
    StaticText(Seq<char>),
    OwnedText(Seq<char>),
    Unknown,
}

impl View for FailurePayload {
    type V = PayloadView;

    open spec fn view(&self) -> PayloadView {
        match self {
            FailurePayload::StaticText(text) => PayloadView::StaticText(text@),
            FailurePayload::OwnedText(text) => PayloadView::OwnedText(text@),
            FailurePayload::Unknown => PayloadView::Unknown,
        }
    }
}

impl PayloadView {
    /// The line that the report prints for the payload: the text itself, or
    /// a fixed label where there is none.
    pub open spec fn message(self) -> Seq<char> {
        match self {
            PayloadView::StaticText(text) => text,
            PayloadView::OwnedText(text) => text,
            PayloadView::Unknown => "unknown panic type"@,
        }
    }
}

impl FailurePayload {
    /// The line that the report prints for the payload.
    pub fn message(&self) -> (text: String)
        ensures
            text@ == self@.message(),
    {
        match self {
            FailurePayload::StaticText(text) => (*text).to_owned(),
            FailurePayload::OwnedText(text) => text.clone(),
            FailurePayload::Unknown => "unknown panic type".to_owned(),
        }
    }
}

/// How one call of a test ended.
pub enum Outcome {
    /// The test returned.
    Passed,
    /// The test panicked, and this is what the panic carried.
    Panicked(FailurePayload),
}

/// An [`Outcome`] over the view of its payload.
pub enum OutcomeView {
    Passed,
    Panicked(PayloadView),
}

impl View for Outcome {
    type V = OutcomeView;

    open spec fn view(&self) -> OutcomeView {
        match self {
            Outcome::Passed => OutcomeView::Passed,
            Outcome::Panicked(payload) => OutcomeView::Panicked(payload@),
        }
    }
}

/// A failed test: the name it was registered under and what its panic
/// carried.
pub struct Failure {
    pub name: &'static str,
    pub payload: FailurePayload,
}

/// A [`Failure`] over sequences of characters.
pub struct FailureView {
    pub name: Seq<char>,
    pub payload: PayloadView,
}

impl View for Failure {
    type V = FailureView;

    open spec fn view(&self) -> FailureView {
        FailureView { name: self.name@, payload: self.payload@ }
    }
}

/// The view of each of `failures`, in order.
pub open spec fn failure_views(failures: Seq<Failure>) -> Seq<FailureView> {
    Seq::new(failures.len(), |i: int| failures[i]@)
}

} // verus!
