//! What can go wrong at a balance provider and at the quote provider.

use vstd::prelude::*;

verus! {

/// The kinds of failure of a balance provider.
#[derive(Clone, Copy, Debug, PartialEq, Eq, Structural)]
pub enum ProviderErrorKind {
    /// The address is not written as its chain writes addresses.
    AddressParse,
    /// The upstream service could not be reached, answered with a failure, or
    /// answered with something that cannot be read.
    Upstream,
    /// The unit of execution that the request was handed to did not complete.
    TaskFailure,
}

/// A failure of a balance provider: its kind and the message that came with it.
#[derive(Debug)]
pub struct ProviderError {
    pub kind: ProviderErrorKind,
    pub message: String,
}

/// A provider failure with its message as a sequence of characters.
pub struct ProviderErrorView {
    pub kind: ProviderErrorKind,
    pub message: Seq<char>,
}

impl View for ProviderError {
    type V = ProviderErrorView;

    open spec fn view(&self) -> ProviderErrorView {
        ProviderErrorView { kind: self.kind, message: self.message@ }
    }
}

impl ProviderError {
    /// A failure of the given kind with the given message.
    pub fn new(kind: ProviderErrorKind, message: &str) -> (error: ProviderError)
        ensures
            error@ == (ProviderErrorView { kind, message: message@ }),
    {
        ProviderError { kind, message: String::from_str(message) }
    }
}

/// The kinds of failure of the quote provider.
#[derive(Clone, Copy, Debug, PartialEq, Eq, Structural)]
pub enum QuoteErrorKind {
    /// The quote service answered, but not for the asset and currency asked.
    NotFound,
    /// The quote service could not be reached or answered with a failure.
    Upstream,
}

/// A failure of the quote provider: its kind and the message that came with
/// it.
#[derive(Debug)]
pub struct QuoteError {
    pub kind: QuoteErrorKind,
    pub message: String,
}

/// A quote failure with its message as a sequence of characters.
pub struct QuoteErrorView {
    pub kind: QuoteErrorKind,
    pub message: Seq<char>,
}

impl View for QuoteError {
    type V = QuoteErrorView;

    open spec fn view(&self) -> QuoteErrorView {
        QuoteErrorView { kind: self.kind, message: self.message@ }
    }
}

impl QuoteError {
    /// A failure of the given kind with the given message.
    pub fn new(kind: QuoteErrorKind, message: &str) -> (error: QuoteError)
        ensures
            error@ == (QuoteErrorView { kind, message: message@ }),
    {
        QuoteError { kind, message: String::from_str(message) }
    }
}

} // verus!
