use vstd::prelude::*;

use crate::error::StreamError;

verus! {

/// A readable byte stream: a source that yields the bytes of `remaining()`
/// one at a time, front first.
pub trait ByteReader: Sized {
    /// The stream's structural invariant.
    spec fn wf(&self) -> bool;

    /// The bytes the stream has yet to yield, in order.
    spec fn remaining(&self) -> Seq<u8>;

    /// Yield the next byte, or `None` exactly when the stream is exhausted.
    fn read_byte(&mut self) -> (r: Option<u8>)
        requires
            old(self).wf(),
        ensures
            final(self).wf(),
            match r {
                Some(b) => old(self).remaining().len() > 0 && b == old(self).remaining()[0]
                    && final(self).remaining() == old(self).remaining().skip(1),
                None => old(self).remaining().len() == 0 && final(self).remaining() == old(
                    self,
                ).remaining(),
            },
    ;
}

/// A writable byte stream: a sink that either accepts a whole write and
/// appends it to `contents()`, or refuses it and stays exactly as it was.
pub trait ByteWriter: Sized {
    /// The sink's structural invariant.
    spec fn wf(&self) -> bool;

    /// All bytes the sink has accepted so far, in order.
    spec fn contents(&self) -> Seq<u8>;

    /// Whether the sink, in its current state, accepts a write of `data`.
    spec fn accepts(&self, data: Seq<u8>) -> bool;

    /// The cause the sink reports when it refuses a write of `data`.
    spec fn refusal(&self, data: Seq<u8>) -> StreamError;

    /// Write all of `data`, atomically: on success the bytes are appended to
    /// `contents()`; on failure the sink is unchanged and the error is the
    /// sink's stated cause.
    fn write_all(&mut self, data: &[u8]) -> (r: Result<(), StreamError>)
        requires
            old(self).wf(),
        ensures
            final(self).wf(),
            r is Ok <==> old(self).accepts(data@),
            r is Ok ==> final(self).contents() == old(self).contents() + data@,
            r matches Err(e) ==> *final(self) == *old(self) && e == old(self).refusal(data@),
    ;
}

/// The plain in-memory byte sink: a `Vec<u8>` accepts every write.
impl ByteWriter for Vec<u8> {
    open spec fn wf(&self) -> bool {
        true
    }

    open spec fn contents(&self) -> Seq<u8> {
        self@
    }

    open spec fn accepts(&self, data: Seq<u8>) -> bool {
        true
    }

    open spec fn refusal(&self, data: Seq<u8>) -> StreamError {
        StreamError { code: 0 }
    }

    fn write_all(&mut self, data: &[u8]) -> (r: Result<(), StreamError>) {
        self.extend_from_slice(data);
        proof {
            assert(self@ =~= old(self)@ + data@);
        }
        Ok(())
    }
}

/// An in-memory readable stream over a fixed byte string.
pub struct MemSource {
    pub data: Vec<u8>,
    pub pos: usize,
}

impl MemSource {
    /// A source that will yield exactly the bytes of `data`, in order.
    pub fn new(data: Vec<u8>) -> (s: MemSource)
        ensures
            s.wf(),
            s.remaining() == data@,
    {
        let s = MemSource { data, pos: 0 };
        proof {
            assert(s.remaining() =~= s.data@);
        }
        s
    }
}

impl ByteReader for MemSource {
    open spec fn wf(&self) -> bool {
        self.pos <= self.data@.len()
    }

    open spec fn remaining(&self) -> Seq<u8> {
        self.data@.skip(self.pos as int)
    }

    fn read_byte(&mut self) -> (r: Option<u8>) {
        if self.pos < self.data.len() {
            let b = self.data[self.pos];
            self.pos = self.pos + 1;
            proof {
                assert(self.remaining() =~= old(self).remaining().skip(1));
                assert(old(self).remaining()[0] == b);
            }
            Some(b)
        } else {
            proof {
                assert(self.remaining().len() == 0);
            }
            None
        }
    }
}

/// A sink that accepts a fixed number of writes, then refuses every further
/// write with a fixed cause. A refused write leaves it untouched, so nothing
/// it accepted is ever lost.
pub struct QuotaSink {
    pub received: Vec<u8>,
    pub writes_done: usize,
    pub fail_on: usize,
    pub code: u64,
}

impl QuotaSink {
    /// A sink whose first `fail_on - 1` writes succeed and whose `fail_on`-th
    /// write (and every write after it) fails with the given cause code.
    pub fn new(fail_on: usize, code: u64) -> (s: QuotaSink)
        requires
            fail_on >= 1,
        ensures
            s.wf(),
            s.contents() == Seq::<u8>::empty(),
            s.writes_done == 0,
            s.fail_on == fail_on,
            s.code == code,
    {
        QuotaSink { received: Vec::new(), writes_done: 0, fail_on, code }
    }

    /// The accepted bytes, handed out for inspection.
    pub fn received(&self) -> (r: &Vec<u8>)
        ensures
            r@ == self.contents(),
    {
        &self.received
    }
}

impl ByteWriter for QuotaSink {
    open spec fn wf(&self) -> bool {
        self.writes_done < self.fail_on
    }

    open spec fn contents(&self) -> Seq<u8> {
        self.received@
    }

    open spec fn accepts(&self, data: Seq<u8>) -> bool {
        self.writes_done + 1 < self.fail_on
    }

    open spec fn refusal(&self, data: Seq<u8>) -> StreamError {
        StreamError { code: self.code }
    }

    fn write_all(&mut self, data: &[u8]) -> (r: Result<(), StreamError>)
        ensures
            r is Ok ==> final(self).writes_done == old(self).writes_done + 1
                && final(self).fail_on == old(self).fail_on
                && final(self).code == old(self).code,
    {
        if self.writes_done + 1 < self.fail_on {
            self.received.extend_from_slice(data);
            self.writes_done = self.writes_done + 1;
            proof {
                assert(self.received@ =~= old(self).received@ + data@);
            }
            Ok(())
        } else {
            Err(StreamError { code: self.code })
        }
    }
}

} // verus!
