use vstd::prelude::*;

verus! {

/// The kind of an I/O failure observed through a stream. The erasure layer
/// forwards these unchanged: it never substitutes or coalesces kinds.
#[derive(Clone, Copy, Debug, PartialEq, Eq, Structural)]
pub enum IoErrorKind {
    BrokenPipe,
    ConnectionReset,
    TimedOut,
    Other,
}

/// What one read attempt yielded.
#[derive(Debug, PartialEq, Eq)]
pub enum ReadOutcome {
    /// Bytes delivered, in order, from the front of the stream.
    Data(Vec<u8>),
    /// No bytes available yet; the caller should retry later.
    Pending,
    /// The stream was shut down and fully drained.
    Closed,
    /// The underlying transport failed with this kind.
    Failed(IoErrorKind),
}

/// What one write, flush or shutdown attempt yielded.
#[derive(Clone, Copy, Debug, PartialEq, Eq, Structural)]
pub enum WriteOutcome {
    /// This many bytes were accepted.
    Accepted(usize),
    /// The underlying transport failed with this kind.
    Failed(IoErrorKind),
}

/// The observable state of a duplex byte stream: the bytes written and not
/// yet read back, whether it was shut down, and a not-yet-surfaced fault.
pub struct StreamModel {
    pub data: Seq<u8>,
    pub shut: bool,
    pub fault: Option<IoErrorKind>,
}

/// How many bytes a read with room for `max` takes from the stream.
pub open spec fn chunk_len(m: StreamModel, max: nat) -> int {
    if m.data.len() <= max {
        m.data.len() as int
    } else {
        max as int
    }
}

/// The bytes such a read delivers: the front of the stream, in order.
pub open spec fn read_chunk(m: StreamModel, max: nat) -> Seq<u8> {
    m.data.take(chunk_len(m, max))
}

/// The two models agree on every observable.
pub open spec fn model_unchanged(pre: StreamModel, post: StreamModel) -> bool {
    &&& post.data == pre.data
    &&& post.shut == pre.shut
    &&& post.fault == pre.fault
}

/// What any conforming read does: surface a pending fault with its original
/// kind, report pending or closed on an empty stream, or deliver the front
/// bytes and nothing else.
pub open spec fn read_post(pre: StreamModel, max: nat, r: ReadOutcome, post: StreamModel) -> bool {
    if pre.fault is Some {
        &&& r matches ReadOutcome::Failed(k) && pre.fault == Some(k)
        &&& post.data == pre.data
        &&& post.shut == pre.shut
        &&& post.fault is None
    } else if pre.data.len() == 0 {
        &&& if pre.shut {
            r is Closed
        } else {
            r is Pending
        }
        &&& model_unchanged(pre, post)
    } else {
        &&& r matches ReadOutcome::Data(v) && v@ == read_chunk(pre, max)
        &&& post.data == pre.data.skip(chunk_len(pre, max))
        &&& post.shut == pre.shut
        &&& post.fault is None
    }
}

/// What any conforming write does: append exactly the given bytes, or fail
/// with a broken pipe once the stream was shut down.
pub open spec fn write_post(pre: StreamModel, buf: Seq<u8>, r: WriteOutcome, post: StreamModel) -> bool {
    if pre.shut {
        &&& r matches WriteOutcome::Failed(k) && k == IoErrorKind::BrokenPipe
        &&& model_unchanged(pre, post)
    } else {
        &&& r matches WriteOutcome::Accepted(n) && n as int == buf.len() as int
        &&& post.data == pre.data + buf
        &&& post.shut == pre.shut
        &&& post.fault == pre.fault
    }
}

/// A flush changes nothing observable on an unbuffered stream.
pub open spec fn flush_post(pre: StreamModel, r: WriteOutcome, post: StreamModel) -> bool {
    &&& r matches WriteOutcome::Accepted(n) && n == 0usize
    &&& model_unchanged(pre, post)
}

/// A shutdown only marks the stream as shut; already-written bytes stay readable.
pub open spec fn shutdown_post(pre: StreamModel, r: WriteOutcome, post: StreamModel) -> bool {
    &&& r matches WriteOutcome::Accepted(n) && n == 0usize
    &&& post.data == pre.data
    &&& post.shut
    &&& post.fault == pre.fault
}

/// The erasure interface: byte-stream read, write, flush and shutdown, each
/// pinned to the shared transition predicates over the stream's model, so a
/// wrapper can forward operations without changing their meaning.
pub trait DuplexStream: Sized {
    spec fn model(&self) -> StreamModel;

    fn read(&mut self, max: usize) -> (r: ReadOutcome)
        ensures
            read_post(old(self).model(), max as nat, r, final(self).model()),
    ;

    fn write(&mut self, buf: &[u8]) -> (r: WriteOutcome)
        ensures
            write_post(old(self).model(), buf@, r, final(self).model()),
    ;

    fn flush(&mut self) -> (r: WriteOutcome)
        ensures
            flush_post(old(self).model(), r, final(self).model()),
    ;

    fn shutdown(&mut self) -> (r: WriteOutcome)
        ensures
            shutdown_post(old(self).model(), r, final(self).model()),
    ;
}

/// An in-memory duplex double: bytes written loop back to the read side.
/// A fault can be planted to observe how faults travel through wrappers.
#[derive(Debug)]
pub struct MemoryStream {
    pub data: Vec<u8>,
    pub shut: bool,
    pub fault: Option<IoErrorKind>,
}

impl MemoryStream {
    pub fn new() -> (s: MemoryStream)
        ensures
            s.model().data.len() == 0,
            !s.model().shut,
            s.model().fault is None,
    {
        MemoryStream { data: Vec::new(), shut: false, fault: None }
    }

    /// Plant a fault that the next read surfaces unchanged.
    pub fn plant_fault(&mut self, kind: IoErrorKind)
        ensures
            final(self).model().data == old(self).model().data,
            final(self).model().shut == old(self).model().shut,
            final(self).model().fault == Some(kind),
    {
        self.fault = Some(kind);
    }
}

impl DuplexStream for MemoryStream {
    open spec fn model(&self) -> StreamModel {
        StreamModel { data: self.data@, shut: self.shut, fault: self.fault }
    }

    fn read(&mut self, max: usize) -> (r: ReadOutcome) {
        match self.fault {
            Some(k) => {
                self.fault = None;
                return ReadOutcome::Failed(k);
            },
            None => {},
        }
        let len = self.data.len();
        if len == 0 {
            if self.shut {
                return ReadOutcome::Closed;
            } else {
                return ReadOutcome::Pending;
            }
        }
        let n: usize = if len <= max { len } else { max };
        let mut out: Vec<u8> = Vec::new();
        let mut i: usize = 0;
        while i < n
            invariant
                i <= n,
                n <= self.data@.len(),
                out@ == self.data@.take(i as int),
            decreases n - i,
        {
            let b = self.data[i];
            out.push(b);
            i += 1;
            proof {
                assert(out@ =~= self.data@.take(i as int));
            }
        }
        let mut rest: Vec<u8> = Vec::new();
        let mut j: usize = n;
        while j < len
            invariant
                n <= j <= len,
                len == self.data@.len(),
                rest@ == self.data@.subrange(n as int, j as int),
            decreases len - j,
        {
            let b = self.data[j];
            rest.push(b);
            j += 1;
            proof {
                assert(rest@ =~= self.data@.subrange(n as int, j as int));
            }
        }
        proof {
            assert(rest@ =~= old(self).data@.skip(n as int));
            assert(out@ =~= read_chunk(old(self).model(), max as nat));
        }
        self.data = rest;
        ReadOutcome::Data(out)
    }

    fn write(&mut self, buf: &[u8]) -> (r: WriteOutcome) {
        if self.shut {
            return WriteOutcome::Failed(IoErrorKind::BrokenPipe);
        }
        proof {
            assert(self.data@ =~= self.data@ + buf@.take(0));
        }
        let mut i: usize = 0;
        while i < buf.len()
            invariant
                i <= buf@.len(),
                self.data@ == old(self).data@ + buf@.take(i as int),
                self.shut == old(self).shut,
                !self.shut,
                self.fault == old(self).fault,
            decreases buf@.len() - i,
        {
            let b = buf[i];
            self.data.push(b);
            i += 1;
            proof {
                assert(self.data@ =~= old(self).data@ + buf@.take(i as int));
            }
        }
        proof {
            assert(self.data@ =~= old(self).data@ + buf@);
        }
        WriteOutcome::Accepted(buf.len())
    }

    fn flush(&mut self) -> (r: WriteOutcome) {
        WriteOutcome::Accepted(0)
    }

    fn shutdown(&mut self) -> (r: WriteOutcome) {
        self.shut = true;
        WriteOutcome::Accepted(0)
    }
}

/// A transport that finished a secure negotiation; once established it
/// carries bytes exactly as the plain double does. Negotiation itself is an
/// external collaborator's business and is not modeled here.
#[derive(Debug)]
pub struct SecureStream {
    pub inner: MemoryStream,
}

impl DuplexStream for SecureStream {
    open spec fn model(&self) -> StreamModel {
        self.inner.model()
    }

    fn read(&mut self, max: usize) -> (r: ReadOutcome) {
        self.inner.read(max)
    }

    fn write(&mut self, buf: &[u8]) -> (r: WriteOutcome) {
        self.inner.write(buf)
    }

    fn flush(&mut self) -> (r: WriteOutcome) {
        self.inner.flush()
    }

    fn shutdown(&mut self) -> (r: WriteOutcome) {
        self.inner.shutdown()
    }
}

/// The adapter: wraps any concrete stream satisfying the duplex contract
/// behind the erasure interface, with no state of its own.
#[derive(Debug)]
pub struct Socket<T: DuplexStream>(pub T);

impl<T: DuplexStream> DuplexStream for Socket<T> {
    open spec fn model(&self) -> StreamModel {
        self.0.model()
    }

    fn read(&mut self, max: usize) -> (r: ReadOutcome) {
        self.0.read(max)
    }

    fn write(&mut self, buf: &[u8]) -> (r: WriteOutcome) {
        self.0.write(buf)
    }

    fn flush(&mut self) -> (r: WriteOutcome) {
        self.0.flush()
    }

    fn shutdown(&mut self) -> (r: WriteOutcome) {
        self.0.shutdown()
    }
}

/// The concrete transports a tunnel can come back over. Which one it is
/// becomes unobservable once the value is boxed into a `BoxedSocket`.
#[derive(Debug)]
pub enum Transport {
    Plain(Socket<MemoryStream>),
    Secure(Socket<SecureStream>),
}

impl Transport {
    /// Wrap a plain in-memory transport in the adapter.
    pub fn plain(io: MemoryStream) -> (t: Transport)
        ensures
            t.model() == io.model(),
    {
        Transport::Plain(Socket(io))
    }

    /// Wrap a secure transport in the adapter.
    pub fn secure(io: SecureStream) -> (t: Transport)
        ensures
            t.model() == io.model(),
    {
        Transport::Secure(Socket(io))
    }
}

impl DuplexStream for Transport {
    open spec fn model(&self) -> StreamModel {
        match self {
            Transport::Plain(s) => s.model(),
            Transport::Secure(s) => s.model(),
        }
    }

    fn read(&mut self, max: usize) -> (r: ReadOutcome) {
        match self {
            Transport::Plain(s) => s.read(max),
            Transport::Secure(s) => s.read(max),
        }
    }

    fn write(&mut self, buf: &[u8]) -> (r: WriteOutcome) {
        match self {
            Transport::Plain(s) => s.write(buf),
            Transport::Secure(s) => s.write(buf),
        }
    }

    fn flush(&mut self) -> (r: WriteOutcome) {
        match self {
            Transport::Plain(s) => s.flush(),
            Transport::Secure(s) => s.flush(),
        }
    }

    fn shutdown(&mut self) -> (r: WriteOutcome) {
        match self {
            Transport::Plain(s) => s.shutdown(),
            Transport::Secure(s) => s.shutdown(),
        }
    }
}

/// The single erased duplex-stream type: owns exactly one boxed transport
/// and forwards every operation to it unchanged, so a tunnel opened over any
/// transport presents this identical type to the rest of the pipeline.
#[derive(Debug)]
pub struct BoxedSocket(pub Box<Transport>);

impl BoxedSocket {
    pub fn new(io: Transport) -> (s: BoxedSocket)
        ensures
            s.model() == io.model(),
    {
        BoxedSocket(Box::new(io))
    }

    /// A read buffer handed to this stream must stay zero-initialized; the
    /// unchecked fast path is never taken.
    pub fn needs_zeroed_read_buffer(&self) -> (b: bool)
        ensures
            b,
    {
        true
    }
}

impl DuplexStream for BoxedSocket {
    open spec fn model(&self) -> StreamModel {
        self.0.model()
    }

    fn read(&mut self, max: usize) -> (r: ReadOutcome) {
        self.0.read(max)
    }

    fn write(&mut self, buf: &[u8]) -> (r: WriteOutcome) {
        self.0.write(buf)
    }

    fn flush(&mut self) -> (r: WriteOutcome) {
        self.0.flush()
    }

    fn shutdown(&mut self) -> (r: WriteOutcome) {
        self.0.shutdown()
    }
}

/// Round trip: writing bytes to an idle, empty, fault-free stream and then
/// reading with room for all of them delivers exactly the written bytes, in
/// order, and leaves the stream empty; a round trip of zero bytes delivers
/// nothing and reports the stream as pending.
pub proof fn lemma_write_read_round_trip(
    pre: StreamModel,
    bytes: Seq<u8>,
    wr: WriteOutcome,
    mid: StreamModel,
    rd: ReadOutcome,
    post: StreamModel,
)
    requires
        pre.data.len() == 0,
        !pre.shut,
        pre.fault is None,
        write_post(pre, bytes, wr, mid),
        read_post(mid, bytes.len(), rd, post),
    ensures
        wr matches WriteOutcome::Accepted(n) && n as int == bytes.len() as int,
        bytes.len() > 0 ==> (rd matches ReadOutcome::Data(v) && v@ == bytes),
        bytes.len() == 0 ==> rd is Pending,
        post.data.len() == 0,
        post.shut == pre.shut,
{
    assert(mid.data =~= bytes);
    if bytes.len() > 0 {
        assert(read_chunk(mid, bytes.len()) =~= bytes);
        assert(post.data =~= Seq::<u8>::empty());
    }
}

} // verus!
