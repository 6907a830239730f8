//! The capture loop's way from a datagram to the output queue.
//!
//! The queue is a `crossbeam` channel of pooled buffers. A frame is offered
//! without blocking: while the queue is full the frame stays with the caller,
//! who looks for a shutdown command and offers it again, so that frames are
//! held back and never dropped here.

use vstd::prelude::*;
use crate::capture::{CaptureAction, CaptureState, Delivery, Progress, sat_add, successor};
use crate::payload::{CComplex, Payload, FRAME_BYTES, N_PT_PER_FRAME};
use crate::pool::{FramePool, PooledFrame, frame_of, pooled_frame};

pub use crate::capture::RecvCmd;

verus! {

/// `crossbeam::channel::Sender`, the sending side of a channel, taken as
/// it is: what the channel holds depends on the other side and has no name
/// here.
#[verifier::external_type_specification]
#[verifier::external_body]
#[verifier::reject_recursive_types(T)]
pub struct ExSender<T>(crossbeam::channel::Sender<T>);

/// `crossbeam::channel::Receiver`, the receiving side of a channel, taken
/// as it is.
#[verifier::external_type_specification]
#[verifier::external_body]
#[verifier::reject_recursive_types(T)]
pub struct ExReceiver<T>(crossbeam::channel::Receiver<T>);

/// The sending side of the frame queue.
pub type FrameSender = crossbeam::channel::Sender<PooledFrame>;

/// The receiving side of the frame queue.
pub type FrameReceiver = crossbeam::channel::Receiver<PooledFrame>;

/// The receiving side of the command queue.
pub type CmdReceiver = crossbeam::channel::Receiver<RecvCmd>;

/// Capacity of the frame queue between the capture loop and its consumer.
pub const FRAME_QUEUE_CAPACITY: usize = 8192;

/// Capacity of the command queue to the capture loop.
pub const CMD_QUEUE_CAPACITY: usize = 32;

/// What became of a buffer that was offered to the queue.
pub enum Offer {
    /// It is in the queue.
    Sent,
    /// The queue is full; the buffer comes back as it was.
    Full(PooledFrame),
    /// The consumer is gone; the buffer went back to the pool.
    Closed,
}

/// How far the capture loop got with a frame.
pub enum Forwarded {
    /// The frame is in the queue, behind a filler for every counter that
    /// was missing in front of it.
    Done,
    /// The frame is older than the one expected and went back to the pool.
    Skipped,
    /// The queue is full. The frame comes back as it was, to be forwarded
    /// again; the fillers enqueued so far are accounted for.
    Stalled(PooledFrame),
    /// The consumer is gone.
    Closed,
}

/// Offers a buffer to the queue without blocking.
///
/// Calls `Sender::try_send`, whose error hands the message back: it is
/// passed on where the queue was full and dropped where the channel was
/// disconnected. Whether the queue is full depends on the consumer, so
/// nothing is claimed of which of the three outcomes comes.
#[verifier::external_body]
fn try_send(
    tx: &FrameSender,
    b: PooledFrame,
) -> (r: Offer)
    ensures
        r matches Offer::Full(back) ==> back == b,
{
    match tx.try_send(b) {
        Ok(()) => Offer::Sent,
        Err(crossbeam::channel::TrySendError::Full(back)) => Offer::Full(back),
        Err(crossbeam::channel::TrySendError::Disconnected(_)) => Offer::Closed,
    }
}

/// Takes a command from the command queue if one is waiting.
///
/// Calls `Receiver::try_recv`; an empty and a disconnected queue both give
/// `None`.
#[verifier::external_body]
fn try_recv(rx: &CmdReceiver) -> (cmd: Option<RecvCmd>) {
    rx.try_recv().ok()
}

/// Waits for the next frame from the queue.
///
/// Calls `Receiver::recv`, which blocks while the queue is empty and a
/// sender is left, and gives an error, here `None`, once the queue is empty
/// and every sender is gone. Which frame comes is the sender's doing, so
/// nothing is claimed of it.
#[verifier::external_body]
fn recv(rx: &FrameReceiver) -> (frame: Option<PooledFrame>) {
    rx.recv().ok()
}

impl Offer {
    /// The outcome without the buffer.
    pub fn delivery(&self) -> (d: Delivery)
        ensures
            d == match *self {
                Offer::Sent => Delivery::Sent,
                Offer::Full(_) => Delivery::Full,
                Offer::Closed => Delivery::Closed,
            },
    {
        match self {
            Offer::Sent => Delivery::Sent,
            Offer::Full(_) => Delivery::Full,
            Offer::Closed => Delivery::Closed,
        }
    }
}

/// Whether what was taken from the command queue tells the loop to stop:
/// the one command there is does.
pub fn is_shutdown(cmd: Option<RecvCmd>) -> (stop: bool)
    ensures
        stop == (cmd is Some),
{
    match cmd {
        Some(RecvCmd::Destroy) => true,
        None => false,
    }
}

/// Whether a command to stop is waiting; it is taken from the queue then.
pub fn shutdown_requested(rx: &CmdReceiver) -> bool {
    is_shutdown(try_recv(rx))
}

/// The state after the fillers for the counters from `from` up to `to` have
/// been enqueued, when `from` was the counter expected in `s`.
pub open spec fn filled_to(s: CaptureState, from: u64, to: u64) -> CaptureState {
    if to == from {
        s
    } else {
        CaptureState {
            next_cnt: Some(to),
            ndropped: sat_add(s.ndropped, to - from),
            nreceived: sat_add(s.nreceived, to - from),
        }
    }
}

/// The state after the frame with counter `p` has been enqueued behind its
/// fillers, when `from` was the counter expected in `s`.
pub open spec fn forwarded(s: CaptureState, from: u64, p: u64) -> CaptureState {
    CaptureState {
        next_cnt: successor(p),
        ndropped: sat_add(s.ndropped, p - from),
        nreceived: sat_add(s.nreceived, p - from + 1),
    }
}

/// Whether `sent` is a run of fillers in front of the frame `received`: one
/// for each counter from `from` on, in the order of the counters, each with
/// the header of `received` and a blank sample block.
pub open spec fn fillers_from(sent: Seq<Payload>, received: Payload, from: u64) -> bool {
    forall|i: int|
        0 <= i < sent.len() ==> (#[trigger] sent[i]).is_filler_for(&received, (from + i) as u64)
}

/// What forwarding the frame `frame` comes to when it started in the state
/// `before` and the frames `sent` were handed to the queue, one after the
/// other, and taken by it.
///
/// What is handed to the queue is a filler for each counter from the
/// expected one on, and after the filler for the counter in front of the
/// frame's own the frame itself. The state accounts for exactly the frames
/// that the queue took. When the queue is full the frame comes back, and
/// the fillers it took are not made again.
pub open spec fn forwarded_as(
    outcome: Forwarded,
    before: CaptureState,
    after: CaptureState,
    frame: Payload,
    sent: Seq<Payload>,
) -> bool {
    let p = frame.pkt_cnt;
    let c = before.expected(p);
    match outcome {
        Forwarded::Done => {
            &&& c <= p
            &&& sent.len() == p - c + 1
            &&& fillers_from(sent.drop_last(), frame, c)
            &&& sent.last() == frame
            &&& after == forwarded(before, c, p)
        },
        Forwarded::Skipped => p < c && sent.len() == 0 && after == before,
        Forwarded::Stalled(back) => {
            &&& pooled_frame(back) == frame
            &&& c + sent.len() <= p
            &&& fillers_from(sent, frame, c)
            &&& after == filled_to(before, c, (c + sent.len()) as u64)
        },
        Forwarded::Closed => {
            &&& c + sent.len() <= p
            &&& fillers_from(sent, frame, c)
            &&& after == filled_to(before, c, (c + sent.len()) as u64)
        },
    }
}

/// Enqueues what is due for the frame in `received`: a filler for every
/// counter that is missing in front of it, then the frame itself.
///
/// The frames go to the queue in the order of their counters, and `state`
/// is advanced by each one that got there. The work stops early when the
/// queue is full or the consumer gone; a frame that is older than the one
/// expected is not enqueued at all.
pub fn forward(
    state: &mut CaptureState,
    pool: &FramePool,
    tx: &FrameSender,
    received: PooledFrame,
) -> (r: Forwarded)
    requires
        pool.wf(),
    ensures
        exists|sent: Seq<Payload>| #[trigger]
            forwarded_as(r, *old(state), *final(state), pooled_frame(received), sent),
        r matches Forwarded::Stalled(back) ==> back == received,
{
    let p: u64 = frame_of(&received).pkt_cnt;
    let ghost frame = pooled_frame(received);
    let ghost c = state.expected(p);
    let ghost sent: Seq<Payload> = Seq::empty();
    loop
        invariant
            pool.wf(),
            frame == pooled_frame(received),
            p == frame.pkt_cnt,
            c == old(state).expected(p),
            c + sent.len() <= p || (sent.len() == 0 && p < c),
            fillers_from(sent, frame, c),
            *state == filled_to(*old(state), c, (c + sent.len()) as u64),
            state.expected(p) == c + sent.len(),
        decreases p - c - sent.len(),
    {
        match state.next_action(p) {
            CaptureAction::Discard => {
                assert(forwarded_as(Forwarded::Skipped, *old(state), *state, frame, sent));
                return Forwarded::Skipped;
            },
            CaptureAction::Filler { pkt_cnt } => {
                let filler = pool.filler(frame_of(&received), pkt_cnt);
                let ghost made = pooled_frame(filler);
                let offer = try_send(tx, filler);
                match state.settle(p, offer.delivery()) {
                    Progress::Stalled => {
                        let r = Forwarded::Stalled(received);
                        assert(forwarded_as(r, *old(state), *state, frame, sent));
                        return r;
                    },
                    Progress::Closed => {
                        assert(forwarded_as(Forwarded::Closed, *old(state), *state, frame, sent));
                        return Forwarded::Closed;
                    },
                    _ => {
                        proof {
                            sent = sent.push(made);
                        }
                    },
                }
            },
            CaptureAction::Forward => {
                let offer = try_send(tx, received);
                let progress = state.settle(p, offer.delivery());
                let r = match offer {
                    Offer::Full(back) => Forwarded::Stalled(back),
                    _ => match progress {
                        Progress::Closed => Forwarded::Closed,
                        _ => Forwarded::Done,
                    },
                };
                proof {
                    if r is Done {
                        let all = sent.push(frame);
                        assert(all.drop_last() =~= sent);
                        assert(forwarded_as(r, *old(state), *state, frame, all));
                    } else {
                        assert(forwarded_as(r, *old(state), *state, frame, sent));
                    }
                }
                return r;
            },
        }
    }
}

/// Takes a datagram in: a datagram of the size of a frame is loaded into a
/// pooled buffer, the stream is started anew if it is the first frame or its
/// counter is zero, and what is due for it is enqueued. `None` exactly when
/// the datagram does not have the size of a frame; it is skipped then and
/// `state` stays as it is.
pub fn ingest(
    state: &mut CaptureState,
    pool: &FramePool,
    tx: &FrameSender,
    datagram: &[u8],
) -> (r: Option<Forwarded>)
    requires
        pool.wf(),
    ensures
        r is Some == (datagram@.len() == FRAME_BYTES),
        r is None ==> *final(state) == *old(state),
        r is Some ==> exists|frame: Payload, sent: Seq<Payload>|
            frame.is_frame_of(datagram@) && #[trigger] forwarded_as(
                r->Some_0,
                old(state).accepted(frame.pkt_cnt),
                *final(state),
                frame,
                sent,
            ),
{
    match pool.load(datagram) {
        None => None,
        Some(received) => {
            let p: u64 = frame_of(&received).pkt_cnt;
            let ghost frame = pooled_frame(received);
            let ok = state.accept(datagram.len(), p);
            let ghost start = *state;
            let r = Some(forward(state, pool, tx, received));
            proof {
                let sent = choose|sent: Seq<Payload>| #[trigger]
                    forwarded_as(r->Some_0, start, *state, frame, sent);
                assert(frame.is_frame_of(datagram@));
                assert(start == old(state).accepted(frame.pkt_cnt));
                assert(exists|frame: Payload, sent: Seq<Payload>|
                    frame.is_frame_of(datagram@) && #[trigger] forwarded_as(
                        r->Some_0,
                        old(state).accepted(frame.pkt_cnt),
                        *state,
                        frame,
                        sent,
                    )) by {
                    assert(forwarded_as(
                        r->Some_0,
                        old(state).accepted(frame.pkt_cnt),
                        *state,
                        frame,
                        sent,
                    ));
                }
            }
            r
        },
    }
}

/// The samples of a run of frames, frame after frame.
pub open spec fn stream_of(frames: Seq<Payload>) -> Seq<CComplex> {
    Seq::new(
        2048 * frames.len(),
        |i: int| frames[i / 2048].sample(i % 2048),
    )
}

/// The samples that the frame in `held` has left from sample `cursor` on;
/// none where no frame is held.
pub open spec fn left_in(held: Option<PooledFrame>, cursor: usize) -> Seq<CComplex> {
    match held {
        Some(frame) => pooled_frame(frame).samples(cursor as int, 2048),
        None => Seq::empty(),
    }
}

/// What a fetch of `npt` samples comes to when it started with the frame
/// `held` at sample `cursor` and the frames `got` were taken from the queue
/// in its course.
///
/// The stream is what the held frame has left, followed by the frames taken,
/// each from its first to its last sample. What was appended to the output
/// is the stream from its start on, without a gap: `npt` samples of it where
/// the fetch succeeded, and all of it, which then is less, where the queue
/// was closed. A frame is taken only when a sample of it is due, so the
/// last frame taken is the one held afterwards, and the cursor tells how
/// many of its samples were appended. Where none was taken the held frame
/// stays and the cursor has moved by what was appended.
pub open spec fn fetched(
    held: Option<PooledFrame>,
    cursor: usize,
    npt: usize,
    got: Seq<Payload>,
    ok: bool,
    held_after: Option<PooledFrame>,
    cursor_after: usize,
    out: Seq<CComplex>,
    out_after: Seq<CComplex>,
) -> bool {
    let left = left_in(held, cursor);
    let stream = left + stream_of(got);
    let k = out_after.len() - out.len();
    &&& 0 <= k <= stream.len()
    &&& out_after == out + stream.subrange(0, k)
    &&& ok ==> k == npt
    &&& !ok ==> k == stream.len() && k < npt
    &&& if got.len() == 0 {
        &&& held_after == held
        &&& cursor_after == cursor + k
    } else {
        &&& held_after is Some
        &&& pooled_frame(held_after->Some_0) == got.last()
        &&& 1 <= cursor_after <= 2048
        &&& cursor_after == k - left.len() - 2048 * (got.len() - 1)
    }
}

/// Sample `r` of frame `q` of a run stands at place `2048 * q + r` of its stream.
proof fn lemma_stream_at(frames: Seq<Payload>, q: int, r: int)
    requires
        0 <= q < frames.len(),
        0 <= r < 2048,
    ensures
        stream_of(frames).len() == 2048 * frames.len(),
        stream_of(frames)[2048 * q + r] == frames[q].sample(r),
{
    let i = 2048 * q + r;
    assert(i / 2048 == q && i % 2048 == r);
}

/// Taking one more frame leaves the stream so far as it is.
proof fn lemma_stream_push(left: Seq<CComplex>, frames: Seq<Payload>, frame: Payload)
    ensures
        (left + stream_of(frames.push(frame))).subrange(
            0,
            (left.len() + 2048 * frames.len()) as int,
        ) == left + stream_of(frames),
{
    let more = left + stream_of(frames.push(frame));
    let n = left.len() + 2048 * frames.len();
    assert forall|i: int| 0 <= i < n implies more.subrange(0, n as int)[i] == (left + stream_of(
        frames,
    ))[i] by {
        if i >= left.len() {
            let j = i - left.len();
            assert(0 <= j / 2048 < frames.len());
            assert(frames.push(frame)[j / 2048] == frames[j / 2048]);
        }
    }
    assert(more.subrange(0, n as int) =~= left + stream_of(frames));
}

/// Appending the samples that stand next in a stream to an output that
/// holds the stream so far gives an output that holds the stream up to
/// there.
proof fn lemma_next_piece(
    out: Seq<CComplex>,
    stream: Seq<CComplex>,
    written: int,
    piece: Seq<CComplex>,
    before: Seq<CComplex>,
    after: Seq<CComplex>,
)
    requires
        0 <= written,
        written + piece.len() <= stream.len(),
        before == out + stream.subrange(0, written),
        after == before + piece,
        forall|j: int| 0 <= j < piece.len() ==> stream[written + j] == #[trigger] piece[j],
    ensures
        after == out + stream.subrange(0, written + piece.len()),
{
    let target = out + stream.subrange(0, written + piece.len());
    assert(after.len() == target.len());
    assert forall|i: int| 0 <= i < after.len() implies after[i] == target[i] by {
        if i >= out.len() + written {
            let j = i - out.len() - written;
            assert(after[i] == piece[j]);
        } else {
            assert(after[i] == before[i]);
        }
    }
    assert(after =~= target);
}

/// The samples of a held frame from where its rest is at `written` on are
/// what stands in the stream from place `written` on.
proof fn lemma_piece_of_held(frame: Payload, cursor: int, written: int, n: int)
    requires
        0 <= cursor,
        0 <= written,
        0 <= n,
        cursor + written + n <= 2048,
    ensures
        ({
            let stream = frame.samples(cursor, 2048) + stream_of(Seq::<Payload>::empty());
            let piece = frame.samples(cursor + written, cursor + written + n);
            &&& written + n <= stream.len()
            &&& forall|j: int| 0 <= j < piece.len() ==> stream[written + j] == #[trigger] piece[j]
        }),
{
}

/// The samples of the last frame taken from sample `at` on are what stands
/// in the stream behind the rest of the held frame and the frames taken
/// before it.
proof fn lemma_piece_of_last(left: Seq<CComplex>, got: Seq<Payload>, at: int, n: int)
    requires
        got.len() > 0,
        0 <= at,
        0 <= n,
        at + n <= 2048,
    ensures
        ({
            let stream = left + stream_of(got);
            let written = left.len() + 2048 * (got.len() - 1) + at;
            let piece = got.last().samples(at, at + n);
            &&& written + n <= stream.len()
            &&& forall|j: int| 0 <= j < piece.len() ==> stream[written + j] == #[trigger] piece[j]
        }),
{
    let stream = left + stream_of(got);
    let written = left.len() + 2048 * (got.len() - 1) + at;
    let piece = got.last().samples(at, at + n);
    assert forall|j: int| 0 <= j < piece.len() implies stream[written + j]
        == #[trigger] piece[j] by {
        lemma_stream_at(got, got.len() - 1, at + j);
        assert(stream[written + j] == stream_of(got)[2048 * (got.len() - 1) + (at + j)]);
    }
}

/// Appends the next `npt` samples of the stream to `out`. The samples are
/// taken from the frame in `held` from sample `cursor` on, and when that
/// frame is used up, or there is none yet, from the frames that come from
/// the queue, one after the other from their first sample on: no sample is
/// skipped and none comes twice. `held` and `cursor` are left at the frame
/// and the sample with which the next call goes on.
///
/// Returns `false` when the queue is closed before `npt` samples are there;
/// what was there is appended all the same. As long as the frame in `held`
/// has `npt` samples left, and whenever `npt` is zero, nothing is taken
/// from the queue and the call succeeds.
pub fn fetch(
    held: &mut Option<PooledFrame>,
    cursor: &mut usize,
    rx: &FrameReceiver,
    npt: usize,
    out: &mut Vec<CComplex>,
) -> (ok: bool)
    requires
        *old(cursor) <= N_PT_PER_FRAME,
    ensures
        *final(cursor) <= N_PT_PER_FRAME,
        exists|got: Seq<Payload>| #[trigger]
            fetched(
                *old(held),
                *old(cursor),
                npt,
                got,
                ok,
                *final(held),
                *final(cursor),
                old(out)@,
                final(out)@,
            ),
        npt == 0 ==> {
            &&& ok
            &&& *final(held) == *old(held)
            &&& *final(cursor) == *old(cursor)
            &&& final(out)@ == old(out)@
        },
        *old(held) is Some && *old(cursor) + npt <= N_PT_PER_FRAME ==> {
            &&& ok
            &&& *final(held) == *old(held)
            &&& *final(cursor) == *old(cursor) + npt
            &&& final(out)@ == old(out)@ + pooled_frame(old(held)->Some_0).samples(
                *old(cursor) as int,
                *old(cursor) + npt,
            )
        },
{
    let mut written: usize = 0;
    let ghost left = left_in(*held, *cursor);
    let ghost got: Seq<Payload> = Seq::empty();
    assert(out@ =~= old(out)@ + (left + stream_of(got)).subrange(0, 0));
    while written < npt
        invariant
            written <= npt,
            *cursor <= N_PT_PER_FRAME,
            *old(cursor) <= N_PT_PER_FRAME,
            left == left_in(*old(held), *old(cursor)),
            written <= left.len() + 2048 * got.len(),
            out@ == old(out)@ + (left + stream_of(got)).subrange(0, written as int),
            got.len() == 0 ==> *held == *old(held) && *cursor == *old(cursor) + written,
            got.len() > 0 ==> {
                &&& *held is Some
                &&& pooled_frame(held->Some_0) == got.last()
                &&& 1 <= *cursor
                &&& *cursor == written - left.len() - 2048 * (got.len() - 1)
            },
        decreases npt - written,
    {
        let used_up: bool = held.is_none() || *cursor == N_PT_PER_FRAME;
        if used_up {
            assert(written == left.len() + 2048 * got.len());
            match recv(rx) {
                None => {
                    proof {
                        assert((left + stream_of(got)).len() == written);
                        assert(fetched(
                            *old(held),
                            *old(cursor),
                            npt,
                            got,
                            false,
                            *held,
                            *cursor,
                            old(out)@,
                            out@,
                        ));
                    }
                    return false;
                },
                Some(frame) => {
                    proof {
                        let so_far = left + stream_of(got);
                        lemma_stream_push(left, got, pooled_frame(frame));
                        assert(so_far.subrange(0, written as int) =~= so_far);
                        got = got.push(pooled_frame(frame));
                        assert((left + stream_of(got)).subrange(0, written as int) == so_far);
                    }
                    *held = Some(frame);
                    *cursor = 0;
                },
            }
        }
        let ghost before = out@;
        let ghost at = *cursor as int;
        let n: usize = match held.as_ref() {
            Some(frame) => frame_of(frame).append_samples(*cursor, npt - written, out),
            None => 0,
        };
        proof {
            let stream = left + stream_of(got);
            let f = pooled_frame(held->Some_0);
            let piece = f.samples(at, at + n);
            if got.len() == 0 {
                lemma_piece_of_held(f, *old(cursor) as int, written as int, n as int);
            } else {
                lemma_piece_of_last(left, got, at, n as int);
            }
            lemma_next_piece(old(out)@, stream, written as int, piece, before, out@);
        }
        *cursor = *cursor + n;
        written = written + n;
    }
    proof {
        assert(fetched(
            *old(held),
            *old(cursor),
            npt,
            got,
            true,
            *held,
            *cursor,
            old(out)@,
            out@,
        ));
        if got.len() == 0 && *old(held) is Some {
            let f = pooled_frame(old(held)->Some_0);
            let from = *old(cursor) as int;
            assert(left.subrange(0, written as int) =~= f.samples(from, from + written));
            assert((left + stream_of(got)).subrange(0, written as int) =~= left.subrange(
                0,
                written as int,
            ));
        }
    }
    true
}

} // verus!
