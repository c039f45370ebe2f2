use vstd::prelude::*;

verus! {

/// The four bytes, most significant first, that carry a payload's length.
pub open spec fn be_bytes(n: u32) -> Seq<u8> {
    seq![(n >> 24u32) as u8, (n >> 16u32) as u8, (n >> 8u32) as u8, n as u8]
}

/// The number that four bytes, most significant first, stand for.
pub open spec fn be_value(b0: u8, b1: u8, b2: u8, b3: u8) -> u32 {
    ((b0 as u32) << 24u32) | ((b1 as u32) << 16u32) | ((b2 as u32) << 8u32) | (b3 as u32)
}

/// The length that the first four bytes of `b` declare.
pub open spec fn declared_len(b: Seq<u8>) -> nat
    recommends
        b.len() >= 4,
{
    be_value(b[0], b[1], b[2], b[3]) as nat
}

/// One frame on the wire: the payload's length in four bytes, then the payload.
pub open spec fn frame_of(payload: Seq<u8>) -> Seq<u8>
    recommends
        payload.len() <= u32::MAX,
{
    be_bytes(payload.len() as u32) + payload
}

/// Whether `b` begins with a whole frame.
pub open spec fn has_frame(b: Seq<u8>) -> bool {
    b.len() >= 4 && b.len() >= 4 + declared_len(b)
}

/// The payload of the frame that `b` begins with.
pub open spec fn first_payload(b: Seq<u8>) -> Seq<u8> {
    b.subrange(4, 4 + declared_len(b) as int)
}

proof fn lemma_be_round_trip(n: u32)
    ensures
        be_value(be_bytes(n)[0], be_bytes(n)[1], be_bytes(n)[2], be_bytes(n)[3]) == n,
{
    let b0 = (n >> 24u32) as u8;
    let b1 = (n >> 16u32) as u8;
    let b2 = (n >> 8u32) as u8;
    let b3 = n as u8;
    assert(((b0 as u32) << 24u32) | ((b1 as u32) << 16u32) | ((b2 as u32) << 8u32) | (b3 as u32)
        == n) by (bit_vector)
        requires
            b0 == (n >> 24u32) as u8,
            b1 == (n >> 16u32) as u8,
            b2 == (n >> 8u32) as u8,
            b3 == n as u8,
    ;
}

/// Frames `payload` for the wire: its length in four bytes, most significant
/// first, then the payload itself.
pub fn encode_frame(payload: &Vec<u8>) -> (r: Vec<u8>)
    requires
        payload@.len() <= u32::MAX,
    ensures
        r@ == frame_of(payload@),
{
    let n = payload.len() as u32;
    let mut r: Vec<u8> = Vec::new();
    r.push((n >> 24u32) as u8);
    r.push((n >> 16u32) as u8);
    r.push((n >> 8u32) as u8);
    r.push(n as u8);
    let mut i: usize = 0;
    while i < payload.len()
        invariant
            i <= payload@.len(),
            n == payload@.len(),
            r@ == be_bytes(n) + payload@.subrange(0, i as int),
        decreases payload@.len() - i,
    {
        r.push(payload[i]);
        i += 1;
        assert(payload@.subrange(0, i as int) == payload@.subrange(0, i - 1) + seq![payload@[i - 1]]);
    }
    assert(payload@.subrange(0, payload@.len() as int) == payload@);
    r
}

/// Reads the frame that `buf` begins with: its payload and the number of
/// bytes it takes up. `None` while the frame is incomplete.
pub fn decode_frame(buf: &[u8]) -> (r: Option<(Vec<u8>, usize)>)
    ensures
        r is Some <==> has_frame(buf@),
        r matches Some((p, used)) ==> p@ == first_payload(buf@) && used == 4 + declared_len(buf@),
{
    if buf.len() < 4 {
        return None;
    }
    let n = ((buf[0] as u32) << 24u32) | ((buf[1] as u32) << 16u32) | ((buf[2] as u32) << 8u32) | (
    buf[3] as u32);
    assert(n == declared_len(buf@));
    if buf.len() - 4 < n as usize {
        return None;
    }
    let end = 4 + n as usize;
    let mut p: Vec<u8> = Vec::with_capacity(n as usize);
    let mut i: usize = 4;
    while i < end
        invariant
            4 <= i <= end <= buf@.len(),
            p@ == buf@.subrange(4, i as int),
        decreases end - i,
    {
        p.push(buf[i]);
        i += 1;
        assert(buf@.subrange(4, i as int) == buf@.subrange(4, i - 1) + seq![buf@[i - 1]]);
    }
    Some((p, end))
}

/// A frame is read back as the payload it was made from, whatever bytes
/// follow it; and no strict prefix of a frame is read as a frame, so a reader
/// never sees part of a payload as a message.
pub proof fn lemma_frame_round_trip(payload: Seq<u8>, rest: Seq<u8>, cut: int)
    requires
        payload.len() <= u32::MAX,
        0 <= cut < frame_of(payload).len(),
    ensures
        has_frame(frame_of(payload) + rest),
        first_payload(frame_of(payload) + rest) == payload,
        4 + declared_len(frame_of(payload) + rest) == frame_of(payload).len(),
        !has_frame(frame_of(payload).subrange(0, cut)),
{
    let n = payload.len() as u32;
    let f = frame_of(payload);
    let b = f + rest;
    lemma_be_round_trip(n);
    assert(b[0] == be_bytes(n)[0] && b[1] == be_bytes(n)[1] && b[2] == be_bytes(n)[2] && b[3]
        == be_bytes(n)[3]);
    assert(declared_len(b) == payload.len());
    assert(b.subrange(4, 4 + payload.len() as int) == payload);
    let pre = f.subrange(0, cut);
    if cut >= 4 {
        assert(pre[0] == b[0] && pre[1] == b[1] && pre[2] == b[2] && pre[3] == b[3]);
    }
}

/// What one non-blocking read of the byte stream gave.
#[derive(Debug, Clone, PartialEq, Eq)]
pub enum ReadEvent {
    Data(Vec<u8>),
    WouldBlock,
    Closed,
    Failed,
}

/// What the reader does after a read.
#[derive(Debug, Clone, Copy, PartialEq, Eq, Structural)]
pub enum ReadStep {
    /// Read again.
    Again,
    /// The stream gave no data within the allowed number of reads.
    TimedOut,
    /// The stream ended or failed.
    Closed,
}

/// Gathers the bytes of a stream and hands them out one whole frame at a
/// time, giving up after a bounded number of reads that bring nothing.
pub struct FrameReader {
    buffer: Vec<u8>,
    idle_reads: usize,
    max_idle_reads: usize,
}

impl FrameReader {
    pub closed spec fn pending(&self) -> Seq<u8> {
        self.buffer@
    }

    pub closed spec fn idle(&self) -> nat {
        self.idle_reads as nat
    }

    pub closed spec fn budget(&self) -> nat {
        self.max_idle_reads as nat
    }

    pub closed spec fn wf(&self) -> bool {
        self.idle_reads <= self.max_idle_reads
    }

    pub fn new(max_idle_reads: usize) -> (r: FrameReader)
        ensures
            r.wf(),
            r.pending() == Seq::<u8>::empty(),
            r.idle() == 0,
            r.budget() == max_idle_reads,
    {
        FrameReader { buffer: Vec::new(), idle_reads: 0, max_idle_reads }
    }

    /// Takes in one read. Data is kept and restarts the count of idle reads;
    /// a read that brought nothing counts against the budget, and the reader
    /// times out once the budget is spent.
    pub fn on_read(&mut self, event: ReadEvent) -> (r: ReadStep)
        requires
            old(self).wf(),
        ensures
            final(self).wf(),
            final(self).budget() == old(self).budget(),
            match event {
                ReadEvent::Data(d) => r == ReadStep::Again && final(self).pending() == old(
                    self,
                ).pending() + d@ && final(self).idle() == 0,
                ReadEvent::WouldBlock => final(self).pending() == old(self).pending() && if old(
                    self,
                ).idle() < old(self).budget() {
                    r == ReadStep::Again && final(self).idle() == old(self).idle() + 1
                } else {
                    r == ReadStep::TimedOut && final(self).idle() == old(self).idle()
                },
                _ => r == ReadStep::Closed && final(self).pending() == old(self).pending()
                    && final(self).idle() == old(self).idle(),
            },
    {
        match event {
            ReadEvent::Data(d) => {
                let mut i: usize = 0;
                while i < d.len()
                    invariant
                        i <= d@.len(),
                        self.buffer@ == old(self).buffer@ + d@.subrange(0, i as int),
                        self.idle_reads == old(self).idle_reads,
                        self.max_idle_reads == old(self).max_idle_reads,
                    decreases d@.len() - i,
                {
                    self.buffer.push(d[i]);
                    i += 1;
                    assert(d@.subrange(0, i as int) == d@.subrange(0, i - 1) + seq![d@[i - 1]]);
                }
                assert(d@.subrange(0, d@.len() as int) == d@);
                self.idle_reads = 0;
                ReadStep::Again
            },
            ReadEvent::WouldBlock => {
                if self.idle_reads < self.max_idle_reads {
                    self.idle_reads += 1;
                    ReadStep::Again
                } else {
                    ReadStep::TimedOut
                }
            },
            _ => ReadStep::Closed,
        }
    }

    /// Hands out the payload of the next whole frame and drops its bytes;
    /// `None`, with nothing dropped, while no whole frame has arrived.
    pub fn next_frame(&mut self) -> (r: Option<Vec<u8>>)
        requires
            old(self).wf(),
        ensures
            final(self).wf(),
            final(self).budget() == old(self).budget(),
            final(self).idle() == old(self).idle(),
            r is Some <==> has_frame(old(self).pending()),
            r matches Some(p) ==> p@ == first_payload(old(self).pending()) && final(self).pending()
                == old(self).pending().subrange(
                4 + declared_len(old(self).pending()) as int,
                old(self).pending().len() as int,
            ),
            r is None ==> final(self).pending() == old(self).pending(),
    {
        match decode_frame(self.buffer.as_slice()) {
            None => None,
            Some((p, used)) => {
                let mut rest: Vec<u8> = Vec::new();
                let mut i: usize = used;
                while i < self.buffer.len()
                    invariant
                        used <= i <= self.buffer@.len(),
                        rest@ == self.buffer@.subrange(used as int, i as int),
                    decreases self.buffer@.len() - i,
                {
                    rest.push(self.buffer[i]);
                    i += 1;
                    assert(self.buffer@.subrange(used as int, i as int) == self.buffer@.subrange(
                        used as int,
                        i - 1,
                    ) + seq![self.buffer@[i - 1]]);
                }
                self.buffer = rest;
                Some(p)
            },
        }
    }
}

} // verus!
