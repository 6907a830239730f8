//! Sequencing rules of the capture loop.
//!
//! The loop keeps the counter it expects next. A frame that arrives with a
//! larger counter is held back while a filler is enqueued for every counter
//! in between, so that the consumer sees one frame per counter. The rules
//! are a state machine: [`CaptureState::accept`] takes a datagram in,
//! [`CaptureState::next_action`] tells what to enqueue next for it, and
//! [`CaptureState::settle`] takes in what became of it. While the output
//! queue is full nothing is recorded and the same action is due again.

use vstd::prelude::*;
use crate::payload::FRAME_BYTES;

verus! {

/// Out-of-band command to the capture loop.
#[derive(Clone, Copy, Debug, PartialEq, Eq, Structural)]
pub enum RecvCmd {
    /// Stop and release the socket.
    Destroy,
}

/// What the capture loop enqueues next for the datagram in hand.
#[derive(Clone, Copy, Debug, PartialEq, Eq, Structural)]
pub enum CaptureAction {
    /// Nothing: the frame is older than the one expected and is skipped.
    Discard,
    /// A filler that stands in for the lost frame `pkt_cnt`.
    Filler { pkt_cnt: u64 },
    /// The received frame itself; the datagram is done with it.
    Forward,
}

/// What became of a frame that was offered to the output queue.
#[derive(Clone, Copy, Debug, PartialEq, Eq, Structural)]
pub enum Delivery {
    /// It is in the queue.
    Sent,
    /// The queue is full; the frame is still with the loop.
    Full,
    /// The consumer is gone.
    Closed,
}

/// How the capture loop goes on after a frame was offered to the queue.
#[derive(Clone, Copy, Debug, PartialEq, Eq, Structural)]
pub enum Progress {
    /// More is due for the datagram in hand.
    Continue,
    /// The datagram in hand is done with.
    Done,
    /// The queue is full: look for a shutdown command and offer again.
    Stalled,
    /// The consumer is gone: stop.
    Closed,
}

/// What the capture loop carries from one datagram to the next.
#[derive(Clone, Copy, Debug, PartialEq, Eq)]
pub struct CaptureState {
    /// The counter expected next; absent until a frame has arrived, and once
    /// the counter space is used up.
    pub next_cnt: Option<u64>,
    /// Fillers enqueued since the stream last started.
    pub ndropped: u64,
    /// Frames enqueued since the stream last started, fillers included.
    pub nreceived: u64,
}

/// `a + n`, held at the largest 64-bit value.
pub open spec fn sat_add(a: u64, n: int) -> u64 {
    if a + n > u64::MAX {
        u64::MAX
    } else {
        (a + n) as u64
    }
}

/// The counter after `c`, absent when `c` is the last one.
pub open spec fn successor(c: u64) -> Option<u64> {
    if c < u64::MAX {
        Some((c + 1) as u64)
    } else {
        None
    }
}

impl CaptureState {
    /// The state before any frame has arrived.
    pub open spec fn fresh() -> CaptureState {
        CaptureState { next_cnt: None, ndropped: 0, nreceived: 0 }
    }

    /// The state after a frame with counter `p` has been taken in: the first
    /// frame, and every frame with counter zero, starts the stream anew.
    pub open spec fn accepted(self, p: u64) -> CaptureState {
        if self.next_cnt is None || p == 0 {
            CaptureState { next_cnt: Some(p), ndropped: 0, nreceived: 0 }
        } else {
            self
        }
    }

    /// The counter of the frame to enqueue next when the frame in hand has
    /// counter `p`.
    pub open spec fn expected(self, p: u64) -> u64 {
        match self.next_cnt {
            Some(c) => c,
            None => p,
        }
    }

    /// What to enqueue next for the frame in hand, whose counter is `p`.
    pub open spec fn action(self, p: u64) -> CaptureAction {
        let c = self.expected(p);
        if c < p {
            CaptureAction::Filler { pkt_cnt: c }
        } else if c == p {
            CaptureAction::Forward
        } else {
            CaptureAction::Discard
        }
    }

    /// The state after `self.action(p)` has been enqueued.
    pub open spec fn committed(self, p: u64) -> CaptureState {
        let c = self.expected(p);
        if c < p {
            CaptureState {
                next_cnt: Some((c + 1) as u64),
                ndropped: sat_add(self.ndropped, 1),
                nreceived: sat_add(self.nreceived, 1),
            }
        } else if c == p {
            CaptureState {
                next_cnt: successor(p),
                ndropped: self.ndropped,
                nreceived: sat_add(self.nreceived, 1),
            }
        } else {
            self
        }
    }

    /// The state after `n` actions for the frame with counter `p` have been
    /// enqueued one after the other.
    pub open spec fn run(self, p: u64, n: nat) -> CaptureState
        decreases n,
    {
        if n == 0 {
            self
        } else {
            self.committed(p).run(p, (n - 1) as nat)
        }
    }

    /// How the loop goes on after `self.action(p)` was offered to the queue
    /// with the outcome `delivery`.
    pub open spec fn progress(self, p: u64, delivery: Delivery) -> Progress {
        match delivery {
            Delivery::Sent => if self.action(p) is Filler {
                Progress::Continue
            } else {
                Progress::Done
            },
            Delivery::Full => Progress::Stalled,
            Delivery::Closed => Progress::Closed,
        }
    }

    /// The state after `self.action(p)` was offered to the queue with the
    /// outcome `delivery`: only what got into the queue is accounted for.
    pub open spec fn settled(self, p: u64, delivery: Delivery) -> CaptureState {
        if delivery == Delivery::Sent {
            self.committed(p)
        } else {
            self
        }
    }

    /// The state before any frame has arrived.
    pub fn new() -> (s: CaptureState)
        ensures
            s == CaptureState::fresh(),
    {
        CaptureState { next_cnt: None, ndropped: 0, nreceived: 0 }
    }

    /// Takes in a datagram of `nbytes` bytes whose counter field reads `pkt_cnt`.
    ///
    /// Returns `false`, and changes nothing, exactly when the datagram does
    /// not have the size of a frame: such a datagram is skipped.
    pub fn accept(&mut self, nbytes: usize, pkt_cnt: u64) -> (ok: bool)
        ensures
            ok == (nbytes == FRAME_BYTES),
            ok ==> *final(self) == old(self).accepted(pkt_cnt),
            !ok ==> *final(self) == *old(self),
            ok && pkt_cnt == 0 ==> *final(self) == (CaptureState {
                next_cnt: Some(0u64),
                ndropped: 0,
                nreceived: 0,
            }),
    {
        if nbytes != FRAME_BYTES {
            return false;
        }
        if self.next_cnt.is_none() || pkt_cnt == 0 {
            self.next_cnt = Some(pkt_cnt);
            self.ndropped = 0;
            self.nreceived = 0;
        }
        true
    }

    /// What to enqueue next for the frame in hand, whose counter is `pkt_cnt`.
    pub fn next_action(&self, pkt_cnt: u64) -> (a: CaptureAction)
        ensures
            a == self.action(pkt_cnt),
    {
        let c: u64 = match self.next_cnt {
            Some(c) => c,
            None => pkt_cnt,
        };
        if c < pkt_cnt {
            CaptureAction::Filler { pkt_cnt: c }
        } else if c == pkt_cnt {
            CaptureAction::Forward
        } else {
            CaptureAction::Discard
        }
    }

    /// Records that what `next_action` named for `pkt_cnt` has been enqueued.
    pub fn commit(&mut self, pkt_cnt: u64)
        ensures
            *final(self) == old(self).committed(pkt_cnt),
    {
        let c: u64 = match self.next_cnt {
            Some(c) => c,
            None => pkt_cnt,
        };
        if c < pkt_cnt {
            self.next_cnt = Some(c + 1);
            self.ndropped = self.ndropped.saturating_add(1);
            self.nreceived = self.nreceived.saturating_add(1);
        } else if c == pkt_cnt {
            self.next_cnt = pkt_cnt.checked_add(1);
            self.nreceived = self.nreceived.saturating_add(1);
        }
    }

    /// Takes in what became of the offer of the action that `next_action`
    /// named for `pkt_cnt`, and tells how to go on. The action is recorded as
    /// enqueued exactly when it was sent; a frame that found the queue full
    /// is neither dropped nor accounted for, and is due again.
    pub fn settle(&mut self, pkt_cnt: u64, delivery: Delivery) -> (r: Progress)
        ensures
            r == old(self).progress(pkt_cnt, delivery),
            *final(self) == old(self).settled(pkt_cnt, delivery),
    {
        match delivery {
            Delivery::Sent => {
                let action = self.next_action(pkt_cnt);
                self.commit(pkt_cnt);
                match action {
                    CaptureAction::Filler { .. } => Progress::Continue,
                    _ => Progress::Done,
                }
            },
            Delivery::Full => Progress::Stalled,
            Delivery::Closed => Progress::Closed,
        }
    }

    /// Names the next action for `pkt_cnt` and records it as enqueued.
    pub fn step(&mut self, pkt_cnt: u64) -> (a: CaptureAction)
        ensures
            a == old(self).action(pkt_cnt),
            *final(self) == old(self).committed(pkt_cnt),
    {
        let a = self.next_action(pkt_cnt);
        self.commit(pkt_cnt);
        a
    }
}

/// The counters of the frames that are enqueued for a frame with counter `p`
/// that has been taken in: the expected counter and all that follow it up
/// to `p`, and nothing for a frame that is older than the one expected.
pub open spec fn counters_for(s: CaptureState, p: u64) -> Seq<u64> {
    let c = s.expected(p);
    if c <= p {
        Seq::new((p - c + 1) as nat, |i: int| (c + i) as u64)
    } else {
        Seq::empty()
    }
}

/// The state after all that is due for a frame with counter `p` that has
/// been taken in has been enqueued.
pub open spec fn state_after(s: CaptureState, p: u64) -> CaptureState {
    let c = s.expected(p);
    if c <= p {
        s.run(p, (p - c + 1) as nat)
    } else {
        s
    }
}

/// The counters of all the frames that are enqueued when the frames with
/// the counters `ps` arrive one after the other and the queue takes what it
/// is offered.
pub open spec fn output(s: CaptureState, ps: Seq<u64>) -> Seq<u64>
    decreases ps.len(),
{
    if ps.len() == 0 {
        Seq::empty()
    } else {
        let taken = s.accepted(ps[0]);
        counters_for(taken, ps[0]) + output(state_after(taken, ps[0]), ps.drop_first())
    }
}

/// The state after the frames with the counters `ps` have arrived one after
/// the other and the queue has taken what it was offered.
pub open spec fn state_after_all(s: CaptureState, ps: Seq<u64>) -> CaptureState
    decreases ps.len(),
{
    if ps.len() == 0 {
        s
    } else {
        let taken = s.accepted(ps[0]);
        state_after_all(state_after(taken, ps[0]), ps.drop_first())
    }
}

/// A frame with counter zero starts the stream anew whatever came before:
/// counter zero is expected, the statistics are zero, and the frame itself
/// is the next to be enqueued.
pub proof fn lemma_stream_restart(s: CaptureState)
    ensures
        s.accepted(0) == (CaptureState { next_cnt: Some(0u64), ndropped: 0, nreceived: 0 }),
        s.accepted(0).action(0) == CaptureAction::Forward,
        s.accepted(0).committed(0).next_cnt == Some(1u64),
{
}

/// The first frame after the start is enqueued as it is, whatever its counter.
pub proof fn lemma_first_frame(p: u64)
    ensures
        CaptureState::fresh().accepted(p).action(p) == CaptureAction::Forward,
        CaptureState::fresh().accepted(p).committed(p).next_cnt == successor(p),
        CaptureState::fresh().accepted(p).committed(p).ndropped == 0,
{
}

/// What is enqueued carries the expected counter, and the counter after it
/// is expected next: the counters that leave the loop rise by one each time.
pub proof fn lemma_contiguous(s: CaptureState, p: u64)
    requires
        s.next_cnt is Some,
    ensures
        s.action(p) matches CaptureAction::Filler { pkt_cnt } ==> pkt_cnt == s.next_cnt->Some_0
            && s.committed(p).next_cnt == Some((pkt_cnt + 1) as u64),
        s.action(p) == CaptureAction::Forward ==> p == s.next_cnt->Some_0 && s.committed(
            p,
        ).next_cnt == successor(p),
        s.action(p) == CaptureAction::Discard ==> p < s.next_cnt->Some_0 && s.committed(p) == s,
{
}

/// Gap filling. When counter `c` is expected and the frame in hand has
/// counter `p >= c`, the actions are a filler for each of `c`, `c + 1`, ...,
/// `p - 1` in turn and then the frame itself. After that the counter behind
/// `p` is expected, the drop count has grown by `p - c`, and the count of
/// enqueued frames by `p - c + 1`.
pub proof fn lemma_gap_fill(s: CaptureState, p: u64)
    requires
        s.next_cnt is Some,
        s.next_cnt->Some_0 <= p,
    ensures
        forall|i: nat|
            i < p - s.next_cnt->Some_0 ==> #[trigger] s.run(p, i).action(p)
                == (CaptureAction::Filler { pkt_cnt: (s.next_cnt->Some_0 + i) as u64 }),
        s.run(p, (p - s.next_cnt->Some_0) as nat).action(p) == CaptureAction::Forward,
        s.run(p, (p - s.next_cnt->Some_0 + 1) as nat) == (CaptureState {
            next_cnt: successor(p),
            ndropped: sat_add(s.ndropped, p - s.next_cnt->Some_0),
            nreceived: sat_add(s.nreceived, p - s.next_cnt->Some_0 + 1),
        }),
    decreases p - s.next_cnt->Some_0,
{
    let c = s.next_cnt->Some_0;
    if c == p {
        assert(s.run(p, 0) == s);
        assert(s.run(p, 1) == s.committed(p).run(p, 0));
    } else {
        let t = s.committed(p);
        lemma_gap_fill(t, p);
        assert forall|i: nat| i < p - c implies #[trigger] s.run(p, i).action(p)
            == (CaptureAction::Filler { pkt_cnt: (c + i) as u64 }) by {
            if i > 0 {
                assert(s.run(p, i) == t.run(p, (i - 1) as nat));
            }
        }
        assert(s.run(p, (p - c) as nat) == t.run(p, (p - c - 1) as nat));
        assert(s.run(p, (p - c + 1) as nat) == t.run(p, (p - c) as nat));
    }
}

/// No gaps and no reordering. As long as the stream is not started anew,
/// the counters of the frames that leave the loop are the expected counter
/// and its successors, one by one, whatever frames were lost or came late:
/// the consumer sees one frame per counter.
pub proof fn lemma_output_contiguous(s: CaptureState, ps: Seq<u64>)
    requires
        s.next_cnt is Some,
        forall|i: int| 0 <= i < ps.len() ==> 0 < #[trigger] ps[i] < u64::MAX,
    ensures
        forall|j: int|
            0 <= j < output(s, ps).len() ==> #[trigger] output(s, ps)[j] == s.next_cnt->Some_0 + j,
        state_after_all(s, ps).next_cnt == Some((s.next_cnt->Some_0 + output(s, ps).len()) as u64),
        state_after_all(s, ps).next_cnt->Some_0 <= u64::MAX,
        s.next_cnt->Some_0 + output(s, ps).len() <= u64::MAX,
    decreases ps.len(),
{
    let c = s.next_cnt->Some_0;
    if ps.len() > 0 {
        let p = ps[0];
        let rest = ps.drop_first();
        assert(s.accepted(p) == s);
        let head = counters_for(s, p);
        let t = state_after(s, p);
        if c <= p {
            lemma_gap_fill(s, p);
            assert(t.next_cnt == Some((p + 1) as u64));
        }
        assert(t.next_cnt == Some((c + head.len()) as u64));
        assert forall|i: int| 0 <= i < rest.len() implies 0 < #[trigger] rest[i] < u64::MAX by {
            assert(rest[i] == ps[i + 1]);
        }
        lemma_output_contiguous(t, rest);
        let tail = output(t, rest);
        assert(output(s, ps) == head + tail);
        assert forall|j: int| 0 <= j < output(s, ps).len() implies #[trigger] output(s, ps)[j]
            == c + j by {
            if j >= head.len() {
                assert(tail[j - head.len()] == t.next_cnt->Some_0 + (j - head.len()));
            }
        }
    }
}

/// The fillers are what is missing: for a frame that has been taken in and
/// is not older than the one expected, the drop count grows by the number
/// of enqueued frames less one, the frame itself.
pub proof fn lemma_dropped_are_fillers(s: CaptureState, p: u64)
    requires
        s.next_cnt is Some,
        s.next_cnt->Some_0 <= p,
    ensures
        state_after(s, p).ndropped == sat_add(s.ndropped, counters_for(s, p).len() - 1),
        state_after(s, p).nreceived == sat_add(s.nreceived, counters_for(s, p).len() as int),
        counters_for(s, p).last() == p,
{
    lemma_gap_fill(s, p);
}

} // verus!
