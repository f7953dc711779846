use vstd::prelude::*;

use crate::adapter::ReadAdapter;
use crate::adapter::WriteAdapter;
use crate::error::StreamError;
use crate::error::UnwrapError;
use crate::stream::ByteReader;
use crate::stream::ByteWriter;

verus! {

/// The buffer capacity that `wrap` gives a buffered adapter.
pub const DEFAULT_CAPACITY: usize = 64;

/// A buffered reader: wraps a readable stream and pulls bytes out of it in
/// chunks of up to `cap`, serving reads from the chunk.
///
/// Reading through the buffer never loses or reorders a byte: the adapter's
/// own `remaining()` is the buffered tail followed by whatever the inner
/// stream still holds. Teardown discards the buffer and returns the inner
/// stream as it stands, so bytes pulled into the buffer but not yet read do
/// not come back; right after `wrap` the buffer is empty and teardown is a
/// no-op on the stream.
pub struct BufReader<R: ByteReader> {
    pub inner: R,
    pub buf: Vec<u8>,
    pub pos: usize,
    pub cap: usize,
}

impl<R: ByteReader> BufReader<R> {
    /// A buffered reader over `reader` with the given chunk size.
    pub fn with_capacity(reader: R, cap: usize) -> (a: BufReader<R>)
        requires
            reader.wf(),
            cap >= 1,
        ensures
            a.wf(),
            a.can_unwrap(),
            a.remaining() == reader.remaining(),
            a.unwrapped_view() == reader.remaining(),
            a.inner == reader,
            a.buf@ == Seq::<u8>::empty(),
            a.pos == 0,
            a.cap == cap,
    {
        let a = BufReader { inner: reader, buf: Vec::new(), pos: 0, cap };
        proof {
            assert(a.remaining() =~= reader.remaining());
        }
        a
    }
}

impl<R: ByteReader> ByteReader for BufReader<R> {
    open spec fn wf(&self) -> bool {
        self.inner.wf() && self.pos <= self.buf@.len() && self.cap >= 1
    }

    open spec fn remaining(&self) -> Seq<u8> {
        self.buf@.skip(self.pos as int) + self.inner.remaining()
    }

    fn read_byte(&mut self) -> (r: Option<u8>) {
        if self.pos == self.buf.len() {
            self.buf.clear();
            self.pos = 0;
            let ghost start = self.inner.remaining();
            proof {
                assert(old(self).remaining() =~= start);
                assert(self.buf@ + self.inner.remaining() =~= start);
            }
            let mut k: usize = 0;
            let mut done = false;
            while k < self.cap && !done
                invariant
                    self.inner.wf(),
                    self.pos == 0,
                    self.cap == old(self).cap,
                    self.cap >= 1,
                    k <= self.cap,
                    self.buf@.len() <= k,
                    self.buf@.len() == k || done,
                    self.buf@ + self.inner.remaining() == start,
                    done ==> self.inner.remaining().len() == 0,
                decreases self.cap - k,
            {
                match self.inner.read_byte() {
                    Some(b) => {
                        self.buf.push(b);
                        proof {
                            assert(self.buf@ + self.inner.remaining() =~= start);
                        }
                    },
                    None => {
                        done = true;
                    },
                }
                k = k + 1;
            }
            proof {
                assert(self.buf@.len() == 0 ==> self.inner.remaining().len() == 0);
            }
        }
        if self.pos < self.buf.len() {
            let b = self.buf[self.pos];
            self.pos = self.pos + 1;
            proof {
                assert(old(self).remaining()[0] == b);
                assert(self.remaining() =~= old(self).remaining().skip(1));
            }
            Some(b)
        } else {
            proof {
                assert(self.remaining() =~= old(self).remaining());
                assert(old(self).remaining().len() == 0);
            }
            None
        }
    }
}

impl<R: ByteReader> ReadAdapter<R> for BufReader<R> {
    open spec fn valid(&self) -> bool {
        self.wf()
    }

    open spec fn can_unwrap(&self) -> bool {
        true
    }

    open spec fn unwrapped_view(&self) -> Seq<u8> {
        self.inner.remaining()
    }

    open spec fn unwrap_refusal(&self) -> StreamError {
        StreamError { code: 0 }
    }

    fn wrap(reader: R) -> (a: Self)
        ensures
            a.inner == reader,
            a.buf@ == Seq::<u8>::empty(),
            a.pos == 0,
            a.cap == DEFAULT_CAPACITY,
    {
        BufReader::with_capacity(reader, DEFAULT_CAPACITY)
    }

    fn try_into_inner(self) -> (r: Result<R, UnwrapError<Self>>)
        ensures
            r matches Ok(inner) ==> inner == self.inner,
    {
        Ok(self.inner)
    }
}

/// A buffered writer: wraps a writable sink and batches writes, delivering
/// the pending bytes in one underlying write when the buffer cannot take
/// more, and the rest at teardown.
///
/// Teardown must first flush: `unwrapped_view()` is what the sink already
/// holds followed by every pending byte, and teardown can fail exactly when
/// the sink refuses that flush. A failed teardown hands the whole adapter
/// back inside the error, pending bytes included.
pub struct BufWriter<W: ByteWriter> {
    pub inner: W,
    pub buf: Vec<u8>,
    pub cap: usize,
}

impl<W: ByteWriter> BufWriter<W> {
    /// The bytes already delivered to the underlying sink.
    pub open spec fn flushed(&self) -> Seq<u8> {
        self.inner.contents()
    }

    /// The bytes accepted but still pending in the buffer.
    pub open spec fn buffered(&self) -> Seq<u8> {
        self.buf@
    }

    /// A buffered writer over `writer` with the given buffer capacity.
    pub fn with_capacity(writer: W, cap: usize) -> (a: BufWriter<W>)
        requires
            writer.wf(),
            cap >= 1,
        ensures
            a.wf(),
            a.can_unwrap(),
            a.flushed() == writer.contents(),
            a.buffered() == Seq::<u8>::empty(),
            a.contents() == writer.contents(),
            a.inner == writer,
            a.cap == cap,
    {
        let a = BufWriter { inner: writer, buf: Vec::new(), cap };
        proof {
            assert(a.contents() =~= writer.contents());
        }
        a
    }

    /// Deliver every pending byte to the underlying sink. On success exactly
    /// the pending bytes, in order, have reached the sink and the buffer is
    /// empty; on failure nothing has changed and the error is the sink's own
    /// refusal of those bytes.
    pub fn flush(&mut self) -> (r: Result<(), StreamError>)
        requires
            old(self).wf(),
        ensures
            final(self).wf(),
            r is Ok <==> old(self).can_unwrap(),
            r is Ok ==> final(self).flushed() == old(self).flushed() + old(self).buffered()
                && final(self).buffered() == Seq::<u8>::empty() && final(self).contents() == old(
                self,
            ).contents() && final(self).cap == old(self).cap,
            r matches Err(e) ==> *final(self) == *old(self) && e == old(self).unwrap_refusal(),
    {
        if self.buf.len() == 0 {
            proof {
                assert(self.flushed() + self.buffered() =~= self.flushed());
            }
            return Ok(());
        }
        match self.inner.write_all(self.buf.as_slice()) {
            Ok(()) => {
                self.buf.clear();
                proof {
                    assert(self.contents() =~= old(self).contents());
                }
                Ok(())
            },
            Err(e) => Err(e),
        }
    }
}

impl<W: ByteWriter> ByteWriter for BufWriter<W> {
    open spec fn wf(&self) -> bool {
        self.inner.wf() && self.buf@.len() <= self.cap && self.cap >= 1
    }

    /// Everything the adapter accepted: what reached the sink, then what is
    /// still pending.
    open spec fn contents(&self) -> Seq<u8> {
        self.inner.contents() + self.buf@
    }

    open spec fn accepts(&self, data: Seq<u8>) -> bool {
        self.buf@.len() + data.len() <= self.cap || self.inner.accepts(self.buf@ + data)
    }

    open spec fn refusal(&self, data: Seq<u8>) -> StreamError {
        self.inner.refusal(self.buf@ + data)
    }

    fn write_all(&mut self, data: &[u8]) -> (r: Result<(), StreamError>)
        ensures
            final(self).cap == old(self).cap,
            r is Ok && old(self).buf@.len() + data@.len() <= old(self).cap ==> final(self).inner
                == old(self).inner && final(self).buf@ == old(self).buf@ + data@,
            r is Ok && old(self).buf@.len() + data@.len() > old(self).cap ==> final(self).buf@
                == Seq::<u8>::empty() && final(self).inner.contents() == old(
                self,
            ).inner.contents() + old(self).buf@ + data@,
    {
        if data.len() <= self.cap - self.buf.len() {
            self.buf.extend_from_slice(data);
            proof {
                assert(self.buf@ =~= old(self).buf@ + data@);
                assert(self.contents() =~= old(self).contents() + data@);
            }
            Ok(())
        } else {
            let mut combined: Vec<u8> = Vec::new();
            combined.extend_from_slice(self.buf.as_slice());
            combined.extend_from_slice(data);
            proof {
                assert(combined@ =~= self.buf@ + data@);
            }
            match self.inner.write_all(combined.as_slice()) {
                Ok(()) => {
                    self.buf.clear();
                    proof {
                        assert(self.contents() =~= old(self).contents() + data@);
                        assert(self.inner.contents() =~= old(self).inner.contents() + old(
                            self,
                        ).buf@ + data@);
                    }
                    Ok(())
                },
                Err(e) => Err(e),
            }
        }
    }
}

impl<W: ByteWriter> WriteAdapter<W> for BufWriter<W> {
    open spec fn valid(&self) -> bool {
        self.wf()
    }

    /// Teardown succeeds when nothing is pending or the sink accepts the
    /// pending bytes.
    open spec fn can_unwrap(&self) -> bool {
        self.buf@.len() == 0 || self.inner.accepts(self.buf@)
    }

    open spec fn unwrapped_view(&self) -> Seq<u8> {
        self.inner.contents() + self.buf@
    }

    open spec fn unwrap_refusal(&self) -> StreamError {
        self.inner.refusal(self.buf@)
    }

    fn wrap(writer: W) -> (a: Self)
        ensures
            a.inner == writer,
            a.buf@ == Seq::<u8>::empty(),
            a.cap == DEFAULT_CAPACITY,
    {
        BufWriter::with_capacity(writer, DEFAULT_CAPACITY)
    }

    fn try_into_inner(self) -> (r: Result<W, UnwrapError<Self>>) {
        let mut this = self;
        match this.flush() {
            Ok(()) => Ok(this.inner),
            Err(e) => Err(UnwrapError { adapter: this, cause: e }),
        }
    }
}

/// Law: tearing down a buffered writer delivers exactly the pending bytes to
/// the underlying sink: the sink a successful teardown yields holds what it
/// already held, followed by precisely the buffered bytes, in order.
pub proof fn lemma_unwrap_delivers_pending<W: ByteWriter>(b: BufWriter<W>)
    ensures
        b.unwrapped_view() == b.flushed() + b.buffered(),
{
}

/// Law: when a buffered writer's teardown fails, the reported cause is the
/// underlying sink's own refusal of exactly the pending bytes.
pub proof fn lemma_failed_unwrap_names_sink_cause<W: ByteWriter>(b: BufWriter<W>)
    ensures
        b.unwrap_refusal() == b.inner.refusal(b.buffered()),
{
}

} // verus!
