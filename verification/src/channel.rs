//! Single-slot, most-recent-wins frame handoff.
//!
//! A `FrameChannel` owns at most one `PointCloudFrame`. The producer's
//! `publish` unconditionally overwrites the slot, silently dropping any
//! unconsumed frame; the consumer's `take` destructively removes the slot's
//! contents, so each frame is delivered at most once. Neither call ever
//! blocks or fails. The two sides run on different threads in a viewer, so
//! a shared channel is driven under a mutual-exclusion lock held only for
//! the duration of one call; each call is verified here as one atomic step
//! of the slot's state machine, and the trace laws below state what any
//! interleaving of steps can deliver.

use vstd::prelude::*;
use crate::frame::PointCloudFrame;

verus! {

/// The handoff cell shared between one producer and one consumer.
pub struct FrameChannel {
    slot: Option<PointCloudFrame>,
}

/// One step of the slot's state machine, for stating trace laws.
pub enum ChannelOp {
    /// The producer overwrote the slot with a frame.
    Publish(PointCloudFrame),
    /// The consumer removed whatever the slot held.
    Take,
}

/// What one operation leaves in the slot: a publish overwrites it whatever
/// it held, a take empties it.
pub open spec fn step_spec(slot: Option<PointCloudFrame>, op: ChannelOp) -> Option<
    PointCloudFrame,
> {
    match op {
        ChannelOp::Publish(f) => Some(f),
        ChannelOp::Take => None,
    }
}

/// What a whole trace of operations leaves in the slot.
pub open spec fn run_spec(slot: Option<PointCloudFrame>, ops: Seq<ChannelOp>) -> Option<
    PointCloudFrame,
>
    decreases ops.len(),
{
    if ops.len() == 0 {
        slot
    } else {
        step_spec(run_spec(slot, ops.drop_last()), ops.last())
    }
}

/// The frame of the most recent publish in a trace, if the trace holds one.
pub open spec fn last_published(ops: Seq<ChannelOp>) -> Option<PointCloudFrame>
    decreases ops.len(),
{
    if ops.len() == 0 {
        None
    } else {
        match ops.last() {
            ChannelOp::Publish(f) => Some(f),
            ChannelOp::Take => last_published(ops.drop_last()),
        }
    }
}

impl FrameChannel {
    /// What the slot holds; `None` is the explicit "no frame yet" state.
    pub closed spec fn contents(self) -> Option<PointCloudFrame> {
        self.slot
    }

    /// A fresh channel holds nothing: the consumer must tolerate polling it
    /// before the producer has ever published.
    pub fn new() -> (c: FrameChannel)
        ensures
            c.contents() is None,
    {
        FrameChannel { slot: None }
    }

    /// Producer side: unconditionally replaces the slot's contents with
    /// `frame`, discarding any unconsumed frame.
    pub fn publish(&mut self, frame: PointCloudFrame)
        ensures
            final(self).contents() == step_spec(old(self).contents(), ChannelOp::Publish(frame)),
            final(self).contents() == Some(frame),
    {
        self.slot = Some(frame);
    }

    /// Consumer side: removes and returns the slot's contents if a frame is
    /// waiting, leaving the slot empty; returns nothing if the slot is
    /// empty. Never blocks.
    pub fn take(&mut self) -> (r: Option<PointCloudFrame>)
        ensures
            r == old(self).contents(),
            final(self).contents() == step_spec(old(self).contents(), ChannelOp::Take),
            final(self).contents() is None,
    {
        let mut taken: Option<PointCloudFrame> = None;
        core::mem::swap(&mut self.slot, &mut taken);
        taken
    }

    /// Whether a frame is currently waiting.
    pub fn has_frame(&self) -> (b: bool)
        ensures
            b <==> self.contents() is Some,
    {
        self.slot.is_some()
    }
}

/// Most-recent-wins law: after any non-empty trace of publishes and takes,
/// the slot holds either nothing or exactly the frame of the trace's most
/// recent publish — never an earlier, stale frame, and never a frame that
/// was not published whole.
pub proof fn lemma_most_recent_wins(slot: Option<PointCloudFrame>, ops: Seq<ChannelOp>)
    requires
        ops.len() > 0,
    ensures
        run_spec(slot, ops) is None || run_spec(slot, ops) == last_published(ops),
{
}

/// Overwrite law: publishing `a` and then `b` with no take in between
/// leaves exactly `b` in the slot, whatever the slot held before.
pub proof fn lemma_publish_overwrites(
    slot: Option<PointCloudFrame>,
    a: PointCloudFrame,
    b: PointCloudFrame,
)
    ensures
        run_spec(slot, seq![ChannelOp::Publish(a), ChannelOp::Publish(b)]) == Some(b),
{
    let ops = seq![ChannelOp::Publish(a), ChannelOp::Publish(b)];
    assert(ops.drop_last() =~= seq![ChannelOp::Publish(a)]);
}

/// Delivery-at-most-once law: a take delivers the slot's frame and a second
/// take right after it delivers nothing.
pub proof fn lemma_take_empties(slot: Option<PointCloudFrame>)
    ensures
        run_spec(slot, seq![ChannelOp::Take]) is None,
{
}

} // verus!
