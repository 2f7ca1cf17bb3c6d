//! Reassembly of the raw video byte stream: chunks as they come off the
//! video channel are filtered and gathered into one bounded buffer.

use vstd::prelude::*;

verus! {

/// Number of bytes the accumulation buffer holds.
pub const BUFFER_CAPACITY: usize = 500_000;

/// Length of the acknowledgement frames that the vehicle interleaves with
/// the video data. A chunk of exactly this length carries no image data.
pub const CONTROL_FRAME_LEN: usize = 106;

/// Largest chunk that is read from the channel at once.
pub const MAX_CHUNK_LEN: usize = 8192;

/// The chunk is an interleaved control frame, not video data.
pub open spec fn is_control_frame(chunk: Seq<u8>) -> bool {
    chunk.len() == CONTROL_FRAME_LEN
}

/// How many bytes of `chunk` a buffer that already holds `buffered` bytes
/// takes: none of a control frame, and otherwise as many as still fit.
pub open spec fn accepted_len(buffered: nat, chunk: Seq<u8>) -> nat {
    if is_control_frame(chunk) || buffered >= BUFFER_CAPACITY {
        0
    } else if chunk.len() <= BUFFER_CAPACITY - buffered {
        chunk.len()
    } else {
        (BUFFER_CAPACITY - buffered) as nat
    }
}

/// The buffer after `chunk` has been offered to it.
pub open spec fn accumulate(buffer: Seq<u8>, chunk: Seq<u8>) -> Seq<u8> {
    buffer + chunk.subrange(0, accepted_len(buffer.len(), chunk) as int)
}

/// The buffer after a whole sequence of chunks has been offered to an empty
/// one, in order.
pub open spec fn reassemble(chunks: Seq<Seq<u8>>) -> Seq<u8>
    decreases chunks.len(),
{
    if chunks.len() == 0 {
        Seq::empty()
    } else {
        accumulate(reassemble(chunks.drop_last()), chunks.last())
    }
}

/// The video data of a chunk sequence: all chunks but the control frames,
/// end to end.
pub open spec fn video_bytes(chunks: Seq<Seq<u8>>) -> Seq<u8>
    decreases chunks.len(),
{
    if chunks.len() == 0 {
        Seq::empty()
    } else if is_control_frame(chunks.last()) {
        video_bytes(chunks.drop_last())
    } else {
        video_bytes(chunks.drop_last()) + chunks.last()
    }
}

/// The first `limit` items of `bytes`, or all of them if there are fewer.
pub open spec fn truncated(bytes: Seq<u8>, limit: nat) -> Seq<u8> {
    if bytes.len() <= limit {
        bytes
    } else {
        bytes.subrange(0, limit as int)
    }
}

/// A control frame is never appended, and a buffer within its capacity
/// stays within it, only ever growing at its end.
pub proof fn lemma_accumulate_bounded(buffer: Seq<u8>, chunk: Seq<u8>)
    requires
        buffer.len() <= BUFFER_CAPACITY,
    ensures
        accumulate(buffer, chunk).len() <= BUFFER_CAPACITY,
        is_control_frame(chunk) ==> accumulate(buffer, chunk) == buffer,
        buffer.len() == BUFFER_CAPACITY ==> accumulate(buffer, chunk) == buffer,
        accumulate(buffer, chunk).len() >= buffer.len(),
        accumulate(buffer, chunk).subrange(0, buffer.len() as int) == buffer,
{
    let n = accepted_len(buffer.len(), chunk);
    if n == 0 {
        assert(chunk.subrange(0, 0) =~= Seq::<u8>::empty());
        assert(accumulate(buffer, chunk) =~= buffer);
    }
    assert(accumulate(buffer, chunk).subrange(0, buffer.len() as int) =~= buffer);
}

/// Whatever chunks arrive, the buffer holds exactly the video data up to its
/// capacity: no byte of a control frame, and never more than the capacity.
pub proof fn lemma_reassemble_is_truncated_video(chunks: Seq<Seq<u8>>)
    ensures
        reassemble(chunks) == truncated(video_bytes(chunks), BUFFER_CAPACITY as nat),
        reassemble(chunks).len() <= BUFFER_CAPACITY,
    decreases chunks.len(),
{
    if chunks.len() > 0 {
        let before = chunks.drop_last();
        let chunk = chunks.last();
        lemma_reassemble_is_truncated_video(before);
        lemma_accumulate_bounded(reassemble(before), chunk);
        assert(reassemble(chunks) =~= truncated(video_bytes(chunks), BUFFER_CAPACITY as nat));
    }
}

/// The accumulation buffer of the video channel.
#[derive(Debug)]
pub struct FrameReassembler {
    buffer: Vec<u8>,
}

impl View for FrameReassembler {
    type V = Seq<u8>;

    closed spec fn view(&self) -> Seq<u8> {
        self.buffer@
    }
}

impl FrameReassembler {
    /// The buffer never holds more than its capacity.
    pub open spec fn wf(&self) -> bool {
        self@.len() <= BUFFER_CAPACITY
    }

    /// An empty buffer.
    pub fn new() -> (r: FrameReassembler)
        ensures
            r@ == Seq::<u8>::empty(),
            r.wf(),
    {
        FrameReassembler { buffer: Vec::new() }
    }

    /// Number of bytes gathered.
    pub fn len(&self) -> (n: usize)
        ensures
            n == self@.len(),
    {
        self.buffer.len()
    }

    /// Whether the buffer has reached its capacity and takes no more.
    pub fn is_full(&self) -> (b: bool)
        ensures
            b == (self@.len() >= BUFFER_CAPACITY),
    {
        self.buffer.len() >= BUFFER_CAPACITY
    }

    /// Offers one chunk to the buffer and returns how many of its bytes were
    /// appended. A chunk of the control-frame length is discarded whole; of
    /// any other chunk the bytes that still fit are appended, in order.
    pub fn accept(&mut self, chunk: &[u8]) -> (appended: usize)
        requires
            old(self).wf(),
        ensures
            final(self)@ == accumulate(old(self)@, chunk@),
            appended == accepted_len(old(self)@.len(), chunk@),
            final(self).wf(),
            chunk@.len() == CONTROL_FRAME_LEN ==> final(self)@ == old(self)@,
    {
        proof {
            lemma_accumulate_bounded(self@, chunk@);
        }
        let buffered = self.buffer.len();
        if chunk.len() == CONTROL_FRAME_LEN || buffered >= BUFFER_CAPACITY {
            assert(chunk@.subrange(0, 0) =~= Seq::<u8>::empty());
            assert(self@ + Seq::<u8>::empty() =~= self@);
            return 0;
        }
        let room = BUFFER_CAPACITY - buffered;
        let count = if chunk.len() <= room {
            chunk.len()
        } else {
            room
        };
        let mut k: usize = 0;
        while k < count
            invariant
                k <= count <= chunk@.len(),
                self.buffer@ == old(self)@ + chunk@.subrange(0, k as int),
            decreases count - k,
        {
            self.buffer.push(chunk[k]);
            assert(self.buffer@ =~= old(self)@ + chunk@.subrange(0, k + 1));
            k += 1;
        }
        count
    }

    /// The bytes gathered so far.
    pub fn bytes(&self) -> (gathered: &Vec<u8>)
        ensures
            gathered@ == self@,
    {
        &self.buffer
    }

    /// Hands the gathered bytes to the consumer.
    pub fn into_bytes(self) -> (bytes: Vec<u8>)
        ensures
            bytes@ == self@,
    {
        self.buffer
    }
}

/// The chunks of a recorded stream, as sequences of bytes.
pub open spec fn chunk_views(chunks: Seq<Vec<u8>>) -> Seq<Seq<u8>> {
    Seq::new(chunks.len(), |i: int| chunks[i]@)
}

/// Reassembles a recorded stream: offers the chunks in order to an empty
/// buffer, stops as soon as the buffer is full, and hands the buffer out.
pub fn reassemble_stream(chunks: &Vec<Vec<u8>>) -> (bytes: Vec<u8>)
    ensures
        bytes@ == reassemble(chunk_views(chunks@)),
        bytes@ == truncated(video_bytes(chunk_views(chunks@)), BUFFER_CAPACITY as nat),
        bytes@.len() <= BUFFER_CAPACITY,
{
    let ghost all = chunk_views(chunks@);
    let mut buffer = FrameReassembler::new();
    let mut k: usize = 0;
    proof {
        assert(all.subrange(0, 0) =~= Seq::<Seq<u8>>::empty());
    }
    while k < chunks.len() && !buffer.is_full()
        invariant
            k <= chunks.len(),
            all == chunk_views(chunks@),
            buffer.wf(),
            buffer@ == reassemble(all.subrange(0, k as int)),
        decreases chunks.len() - k,
    {
        proof {
            assert(all.subrange(0, k + 1).drop_last() =~= all.subrange(0, k as int));
            assert(all.subrange(0, k + 1).last() == chunks@[k as int]@);
        }
        buffer.accept(chunks[k].as_slice());
        k += 1;
    }
    proof {
        lemma_full_buffer_stays(all, k as int);
        lemma_reassemble_is_truncated_video(all);
    }
    buffer.into_bytes()
}

/// Once the buffer is full after the first `k` chunks, the chunks that
/// follow change nothing.
pub proof fn lemma_full_buffer_stays(chunks: Seq<Seq<u8>>, k: int)
    requires
        0 <= k <= chunks.len(),
        k == chunks.len() || reassemble(chunks.subrange(0, k)).len() >= BUFFER_CAPACITY,
    ensures
        reassemble(chunks) == reassemble(chunks.subrange(0, k)),
    decreases chunks.len() - k,
{
    if k == chunks.len() {
        assert(chunks.subrange(0, k) =~= chunks);
    } else {
        let next = chunks.subrange(0, k + 1);
        assert(next.drop_last() =~= chunks.subrange(0, k));
        lemma_reassemble_is_truncated_video(chunks.subrange(0, k));
        lemma_accumulate_bounded(reassemble(chunks.subrange(0, k)), next.last());
        lemma_full_buffer_stays(chunks, k + 1);
    }
}

} // verus!
