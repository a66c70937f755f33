use vstd::prelude::*;

verus! {

/// Why an encode or decode operation failed.
///
/// Every failure the codec can produce is one of these data-shape
/// violations; none of them is transient, so no operation retries.
#[derive(Clone, Copy, Debug, PartialEq, Eq, Structural)]
pub enum Reason {
    /// An entry count exceeds what the largest map header can carry.
    TooBig,
    /// A declared size disagrees with the number of items actually
    /// produced, or a construct produced the wrong number of items.
    BadLength,
    /// The wire shape at hand cannot satisfy the requested target shape.
    InvalidType,
    /// A value was requested but the underlying sequence was exhausted.
    EndOfStream,
    /// A failure wrapping another, nested failure.
    Other,
}

/// A typed failure, optionally chaining the nested failure that caused it.
#[derive(Debug)]
pub struct Error {
    pub reason: Reason,
    pub cause: Option<Box<Error>>,
}

impl Error {
    /// A failure with no nested cause.
    pub fn simple(reason: Reason) -> (r: Error)
        ensures
            r.reason == reason,
            r.cause is None,
    {
        Error { reason, cause: None }
    }

    /// A failure caused by the given nested failure.
    pub fn chain(reason: Reason, cause: Error) -> (r: Error)
        ensures
            r.reason == reason,
            r.cause matches Some(c) && *c == cause,
    {
        Error { reason, cause: Some(Box::new(cause)) }
    }

    /// The kind of this failure.
    pub fn reason(&self) -> (r: Reason)
        ensures
            r == self.reason,
    {
        self.reason
    }
}

} // verus!
