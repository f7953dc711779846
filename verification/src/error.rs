use vstd::prelude::*;

verus! {

/// A failure reported by a byte stream or by an encoder, identified by a
/// numeric code chosen by whoever constructed the failing stream.
#[derive(Clone, Copy, Debug, PartialEq, Eq, Structural)]
pub struct StreamError {
    pub code: u64,
}

/// The error returned by a failed `try_into_inner`: it carries the adapter
/// back to the caller, unchanged, so neither the underlying stream nor any
/// pending data is lost, together with the underlying cause.
pub struct UnwrapError<A> {
    pub adapter: A,
    pub cause: StreamError,
}

impl StreamError {
    /// The failure code, as an ordinary value.
    pub fn code(&self) -> (c: u64)
        ensures
            c == self.code,
    {
        self.code
    }
}

} // verus!
