//! Pool of reusable frame buffers.
//!
//! The buffers come from `lockfree_object_pool`: a buffer goes back to the
//! pool when its owner lets go of it, and is reset before it is handed out
//! again, so that no counter and no sample of an earlier frame shows up in a
//! later one.

use std::sync::Arc;
use vstd::prelude::*;
use crate::payload::{Payload, FRAME_BYTES};

verus! {

/// `lockfree_object_pool::LinearObjectPool`, taken as it is: nothing of its
/// inside is known here.
#[verifier::external_type_specification]
#[verifier::external_body]
#[verifier::reject_recursive_types(T)]
pub struct ExLinearObjectPool<T>(lockfree_object_pool::LinearObjectPool<T>);

/// `lockfree_object_pool::LinearOwnedReusable`, the buffer that a pool hands
/// out, taken as it is. What it holds is spoken of as `pooled_frame`.
#[verifier::external_type_specification]
#[verifier::external_body]
#[verifier::reject_recursive_types(T)]
pub struct ExLinearOwnedReusable<T>(lockfree_object_pool::LinearOwnedReusable<T>);

/// A frame buffer from a pool. It goes back to its pool when it is dropped.
pub type PooledFrame = lockfree_object_pool::LinearOwnedReusable<Payload>;

/// The frame that a pooled buffer holds: what `Deref::deref` of the buffer
/// gives. It is a name only; the functions below say what is known of it.
pub uninterp spec fn pooled_frame(b: PooledFrame) -> Payload;

/// Whether a pool was made to hand out blank buffers: with a first function
/// that gives a frame of zeros, and a second one that sets the counter to
/// zero and clears the sample block. A name for how the pool was made:
/// `linear_pool` gives it to the pools it makes, and nothing else is known
/// of it.
pub uninterp spec fn hands_out_blank(
    pool: lockfree_object_pool::LinearObjectPool<Payload>,
) -> bool;

/// A pool of frame buffers.
pub struct FramePool {
    pool: Arc<lockfree_object_pool::LinearObjectPool<Payload>>,
}

/// A new pool whose buffers start as `Payload::default()` and are passed
/// through `Payload::reset` when they come back.
///
/// Calls `LinearObjectPool::new` with these two functions.
#[verifier::external_body]
fn linear_pool() -> (pool: lockfree_object_pool::LinearObjectPool<Payload>)
    ensures
        hands_out_blank(pool),
{
    lockfree_object_pool::LinearObjectPool::new(|| Payload::default(), |f| f.reset())
}

/// A buffer from a pool that was made to hand out blank buffers.
///
/// Calls `LinearObjectPool::pull_owned`. Every slot of a pool starts as the
/// result of the pool's first function, and is passed through the pool's
/// second function when its buffer is dropped. In a pool that was made to
/// hand out blank buffers the buffer handed out therefore has counter zero
/// and a blank sample block; its other header fields may be those of an
/// earlier frame.
#[verifier::external_body]
fn pull_owned(pool: &Arc<lockfree_object_pool::LinearObjectPool<Payload>>) -> (b: PooledFrame)
    requires
        hands_out_blank(**pool),
    ensures
        pooled_frame(b).pkt_cnt == 0,
        pooled_frame(b).is_blank(),
{
    pool.pull_owned()
}

/// The frame in a buffer, to read.
///
/// Calls `Deref::deref` of `LinearOwnedReusable`.
#[verifier::external_body]
pub(crate) fn frame_of(b: &PooledFrame) -> (f: &Payload)
    ensures
        *f == pooled_frame(*b),
{
    &**b
}

/// The frame in a buffer, to change.
///
/// Calls `DerefMut::deref_mut` of `LinearOwnedReusable`.
#[verifier::external_body]
fn frame_mut_of(b: &mut PooledFrame) -> (f: &mut Payload)
    ensures
        *f == pooled_frame(*old(b)),
        pooled_frame(*final(b)) == *final(f),
{
    &mut **b
}

impl FramePool {
    /// Whether the pool hands out blank buffers: every buffer of it starts
    /// as a frame of zeros, and has its counter set to zero and its sample
    /// block cleared on the way back. Every pool that `new` made does.
    pub closed spec fn wf(&self) -> bool {
        hands_out_blank(*self.pool)
    }

    /// A new pool, which hands out blank buffers.
    pub fn new() -> (pool: FramePool)
        ensures
            pool.wf(),
    {
        FramePool { pool: Arc::new(linear_pool()) }
    }

    /// A buffer that is ready to be filled: its counter is zero and its
    /// sample block blank, whether it is new or was used before.
    pub fn acquire(&self) -> (b: PooledFrame)
        requires
            self.wf(),
        ensures
            pooled_frame(b).pkt_cnt == 0,
            pooled_frame(b).is_blank(),
    {
        pull_owned(&self.pool)
    }

    /// A buffer that holds the frame of `datagram`; `None` exactly when the
    /// datagram does not have the size of a frame.
    pub fn load(&self, datagram: &[u8]) -> (r: Option<PooledFrame>)
        requires
            self.wf(),
        ensures
            r is Some == (datagram@.len() == FRAME_BYTES),
            r is Some ==> pooled_frame(r->Some_0).is_frame_of(datagram@),
    {
        let mut b = self.acquire();
        let f = frame_mut_of(&mut b);
        let ok: bool = f.load(datagram);
        if ok {
            Some(b)
        } else {
            None
        }
    }

    /// A buffer that stands in for the lost frame `pkt_cnt` in front of
    /// `received`: the header of `received` under the lost counter, and a
    /// blank sample block.
    pub fn filler(&self, received: &Payload, pkt_cnt: u64) -> (b: PooledFrame)
        requires
            self.wf(),
        ensures
            pooled_frame(b).is_filler_for(received, pkt_cnt),
    {
        let mut b = self.acquire();
        let f = frame_mut_of(&mut b);
        f.make_filler(received, pkt_cnt);
        b
    }

    /// A buffer that holds a blank frame with counter `pkt_cnt`, as a
    /// simulated device sends it.
    pub fn blank(&self, pkt_cnt: u64) -> (b: PooledFrame)
        requires
            self.wf(),
        ensures
            pooled_frame(b).pkt_cnt == pkt_cnt,
            pooled_frame(b).is_blank(),
    {
        let mut b = self.acquire();
        let f = frame_mut_of(&mut b);
        f.pkt_cnt = pkt_cnt;
        b
    }
}

} // verus!
