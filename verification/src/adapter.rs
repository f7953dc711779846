use vstd::prelude::*;

use crate::error::StreamError;
use crate::error::UnwrapError;
use crate::stream::ByteReader;
use crate::stream::ByteWriter;

verus! {

/// Any type which can be adapted over a readable stream.
///
/// An adapter takes exclusive ownership of the stream at `wrap` time and
/// hands it back at teardown. `unwrapped_view()` is the remaining content of
/// the stream a successful teardown yields; right after `wrap` it is exactly
/// the wrapped stream's remaining content, so wrapping and immediately
/// unwrapping is a no-op on the stream.
pub trait ReadAdapter<R: ByteReader>: Sized {
    /// The adapter's structural invariant, established by `wrap` and kept by
    /// every operation.
    spec fn valid(&self) -> bool;

    /// Whether teardown succeeds in the adapter's current state.
    spec fn can_unwrap(&self) -> bool;

    /// The remaining content of the stream that a successful teardown yields.
    spec fn unwrapped_view(&self) -> Seq<u8>;

    /// The underlying cause teardown reports when it fails.
    spec fn unwrap_refusal(&self) -> StreamError;

    /// Wrap a readable stream in this adapter. Construction always succeeds
    /// and leaves the adapter ready to be torn down without loss.
    fn wrap(reader: R) -> (a: Self)
        requires
            reader.wf(),
        ensures
            a.valid(),
            a.can_unwrap(),
            a.unwrapped_view() == reader.remaining(),
    ;

    /// Try to unwrap this adapter. Succeeds exactly when `can_unwrap()`; on
    /// failure the error carries this very adapter back, unchanged, together
    /// with the underlying cause, so the caller loses nothing.
    fn try_into_inner(self) -> (r: Result<R, UnwrapError<Self>>)
        requires
            self.valid(),
        ensures
            self.can_unwrap() ==> r is Ok,
            r matches Ok(inner) ==> self.can_unwrap() && inner.wf() && inner.remaining()
                == self.unwrapped_view(),
            r matches Err(e) ==> !self.can_unwrap() && e.adapter == self && e.cause
                == self.unwrap_refusal(),
    ;

    /// Unwrap this adapter to get its inner stream. Reserved for call sites
    /// that know teardown cannot fail here, which is what the precondition
    /// demands; under it the failure case is proved unreachable.
    fn into_inner(self) -> (inner: R)
        requires
            self.valid(),
            self.can_unwrap(),
        ensures
            inner.wf(),
            inner.remaining() == self.unwrapped_view(),
    {
        match self.try_into_inner() {
            Ok(inner) => inner,
            Err(_) => vstd::pervasive::unreached(),
        }
    }
}

/// Any type which can be adapted over a writable stream.
///
/// The shape mirrors [`ReadAdapter`], for the write direction: here
/// `unwrapped_view()` is the full content of the sink a successful teardown
/// yields, pending buffered bytes included.
pub trait WriteAdapter<W: ByteWriter>: Sized {
    /// The adapter's structural invariant, established by `wrap` and kept by
    /// every operation.
    spec fn valid(&self) -> bool;

    /// Whether teardown succeeds in the adapter's current state.
    spec fn can_unwrap(&self) -> bool;

    /// The content of the sink that a successful teardown yields.
    spec fn unwrapped_view(&self) -> Seq<u8>;

    /// The underlying cause teardown reports when it fails.
    spec fn unwrap_refusal(&self) -> StreamError;

    /// Wrap a writable stream in this adapter. Construction always succeeds
    /// and leaves the adapter ready to be torn down without loss.
    fn wrap(writer: W) -> (a: Self)
        requires
            writer.wf(),
        ensures
            a.valid(),
            a.can_unwrap(),
            a.unwrapped_view() == writer.contents(),
    ;

    /// Try to unwrap this adapter. Succeeds exactly when `can_unwrap()`; on
    /// failure the error carries this very adapter back, unchanged, together
    /// with the underlying cause, so neither the sink nor pending data is
    /// lost.
    fn try_into_inner(self) -> (r: Result<W, UnwrapError<Self>>)
        requires
            self.valid(),
        ensures
            self.can_unwrap() ==> r is Ok,
            r matches Ok(inner) ==> self.can_unwrap() && inner.wf() && inner.contents()
                == self.unwrapped_view(),
            r matches Err(e) ==> !self.can_unwrap() && e.adapter == self && e.cause
                == self.unwrap_refusal(),
    ;

    /// Unwrap this adapter to get its inner sink. Reserved for call sites
    /// that know teardown cannot fail here, which is what the precondition
    /// demands; under it the failure case is proved unreachable.
    fn into_inner(self) -> (inner: W)
        requires
            self.valid(),
            self.can_unwrap(),
        ensures
            inner.wf(),
            inner.contents() == self.unwrapped_view(),
    {
        match self.try_into_inner() {
            Ok(inner) => inner,
            Err(_) => vstd::pervasive::unreached(),
        }
    }
}

/// Law: wrapping a readable stream and immediately unwrapping it fallibly,
/// with no intervening reads, returns the original stream with its remaining
/// content unchanged.
pub fn try_round_trip_reader<R: ByteReader, A: ReadAdapter<R>>(reader: R) -> (r: Result<
    R,
    UnwrapError<A>,
>)
    requires
        reader.wf(),
    ensures
        r is Ok,
        r matches Ok(inner) ==> inner.remaining() == reader.remaining(),
{
    let a = A::wrap(reader);
    a.try_into_inner()
}

/// Law: wrapping a writable stream and immediately unwrapping it fallibly,
/// with no intervening writes, returns the original sink with its content
/// unchanged.
pub fn try_round_trip_writer<W: ByteWriter, A: WriteAdapter<W>>(writer: W) -> (r: Result<
    W,
    UnwrapError<A>,
>)
    requires
        writer.wf(),
    ensures
        r is Ok,
        r matches Ok(inner) ==> inner.contents() == writer.contents(),
{
    let a = A::wrap(writer);
    a.try_into_inner()
}

/// Law: wrapping a readable stream and immediately unwrapping it plainly,
/// with no intervening reads, is a no-op on the stream's remaining content.
pub fn round_trip_reader<R: ByteReader, A: ReadAdapter<R>>(reader: R) -> (inner: R)
    requires
        reader.wf(),
    ensures
        inner.remaining() == reader.remaining(),
{
    let a = A::wrap(reader);
    a.into_inner()
}

/// Law: wrapping a writable stream and immediately unwrapping it plainly,
/// with no intervening writes, is a no-op on the sink's content.
pub fn round_trip_writer<W: ByteWriter, A: WriteAdapter<W>>(writer: W) -> (inner: W)
    requires
        writer.wf(),
    ensures
        inner.contents() == writer.contents(),
{
    let a = A::wrap(writer);
    a.into_inner()
}

/// Law: on a read adapter whose teardown cannot fail, the fallible teardown
/// is behaviorally identical to the plain teardown wrapped in a success: any
/// result its contract allows is a success holding a stream with exactly the
/// remaining content the plain teardown's contract pins down.
pub proof fn lemma_read_teardowns_agree<R: ByteReader, A: ReadAdapter<R>>(
    a: A,
    tried: Result<R, UnwrapError<A>>,
    plain: R,
)
    requires
        a.can_unwrap(),
        a.can_unwrap() ==> tried is Ok,
        tried matches Ok(inner) ==> inner.remaining() == a.unwrapped_view(),
        plain.remaining() == a.unwrapped_view(),
    ensures
        tried is Ok,
        tried matches Ok(inner) ==> inner.remaining() == plain.remaining(),
{
}

/// Law: on a write adapter whose teardown cannot fail, the fallible teardown
/// is behaviorally identical to the plain teardown wrapped in a success: any
/// result its contract allows is a success holding a sink with exactly the
/// content the plain teardown's contract pins down.
pub proof fn lemma_write_teardowns_agree<W: ByteWriter, A: WriteAdapter<W>>(
    a: A,
    tried: Result<W, UnwrapError<A>>,
    plain: W,
)
    requires
        a.can_unwrap(),
        a.can_unwrap() ==> tried is Ok,
        tried matches Ok(inner) ==> inner.contents() == a.unwrapped_view(),
        plain.contents() == a.unwrapped_view(),
    ensures
        tried is Ok,
        tried matches Ok(inner) ==> inner.contents() == plain.contents(),
{
}

} // verus!
