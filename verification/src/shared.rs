//! The shared frame slot: one frame slot behind a reader-writer lock, reached
//! through handles that the producer and the consumer each hold.

use crate::buffer::frame_len;
use crate::history::{is_published_frame, pixel_from};
use crate::pipeline::PipelineState;
use crate::sample::{decode_sample, sample_payload, Sample};
use crate::slot::{Delivery, FrameSlot};
use std::sync::Arc;
use vstd::prelude::*;
use vstd::rwlock::{RwLock, RwLockPredicate};

verus! {

/// What the lock keeps true of the slot it guards, whoever holds it: the slot
/// is well formed and has the dimensions that the lock was made for.
pub struct SlotInvariant {
    /// Width of the guarded slot, in pixels.
    pub width: usize,
    /// Height of the guarded slot, in pixels.
    pub height: usize,
}

impl RwLockPredicate<FrameSlot> for SlotInvariant {
    open spec fn inv(self, slot: FrameSlot) -> bool {
        &&& slot.wf()
        &&& slot.width() == self.width
        &&& slot.height() == self.height
    }
}

/// `Arc::clone`: the new handle points at the same lock as the old one.
#[verifier::external_body]
fn clone_handle(handle: &Arc<RwLock<FrameSlot, SlotInvariant>>) -> (r: Arc<
    RwLock<FrameSlot, SlotInvariant>,
>)
    ensures
        r == *handle,
{
    Arc::clone(handle)
}

/// A handle to the frame slot that producer and consumer share.
///
/// Writers get the slot to themselves; readers share it. A reader meets the
/// frame as it was before a write or as it is after, never in between.
pub struct SharedFrameSlot {
    width: usize,
    height: usize,
    lock: Arc<RwLock<FrameSlot, SlotInvariant>>,
}

impl SharedFrameSlot {
    /// Width in pixels.
    pub closed spec fn spec_width(&self) -> usize {
        self.width
    }

    /// Height in pixels.
    pub closed spec fn spec_height(&self) -> usize {
        self.height
    }

    /// The lock that this handle reaches.
    pub closed spec fn shared_lock(&self) -> RwLock<FrameSlot, SlotInvariant> {
        *self.lock
    }

    /// Whether two handles reach the same slot.
    pub open spec fn same_slot(&self, other: &SharedFrameSlot) -> bool {
        self.shared_lock() == other.shared_lock()
    }

    /// What the lock keeps true of the slot, whoever holds it: the slot is
    /// well formed, so that its frame is the blank frame after whole writes
    /// only, and it has this handle's dimensions.
    pub open spec fn holds(&self, slot: FrameSlot) -> bool {
        &&& slot.wf()
        &&& slot.width() == self.width()
        &&& slot.height() == self.height()
    }

    /// No reader ever meets a frame of another length or a torn pixel: whatever
    /// slot the lock hands out, its frame has exactly `width * height * 4`
    /// bytes, and of each pixel the padding byte is zero and the colour bytes
    /// are all zero, as at the start, or all three are the bytes of the same
    /// pixel of one single write. Bytes of two writes never share a pixel.
    pub proof fn lemma_readers_meet_whole_frames(&self, slot: FrameSlot, p: int)
        requires
            self.holds(slot),
            0 <= p < self.width() * self.height(),
        ensures
            slot@.len() == self.width() * self.height() * 4,
            slot@[4 * p + 3] == 0,
            (slot@[4 * p] == 0 && slot@[4 * p + 1] == 0 && slot@[4 * p + 2] == 0) || exists|j: int|
                0 <= j < slot.writes().len() && pixel_from(slot@, p, #[trigger] slot.writes()[j]),
    {
        slot.lemma_published();
        slot.lemma_untorn(p);
    }

    /// The handle knows the dimensions that its lock keeps.
    #[verifier::type_invariant]
    closed spec fn wf(&self) -> bool {
        self.lock.pred() == (SlotInvariant { width: self.width, height: self.height })
    }

    /// A new shared slot of the given dimensions, blank and open.
    pub fn new(width: usize, height: usize) -> (r: SharedFrameSlot)
        requires
            frame_len(width as nat, height as nat) <= isize::MAX,
        ensures
            r.width() == width,
            r.height() == height,
    {
        let slot = FrameSlot::new(width, height);
        let lock = RwLock::new(slot, Ghost(SlotInvariant { width, height }));
        SharedFrameSlot { width, height, lock: Arc::new(lock) }
    }

    /// Another handle to the same slot.
    pub fn share(&self) -> (r: SharedFrameSlot)
        ensures
            r.same_slot(self),
            r.width() == self.width(),
            r.height() == self.height(),
    {
        proof {
            use_type_invariant(self);
        }
        SharedFrameSlot { width: self.width, height: self.height, lock: clone_handle(&self.lock) }
    }

    /// Width in pixels.
    #[verifier::when_used_as_spec(spec_width)]
    pub fn width(&self) -> (r: usize)
        ensures
            r == self.width(),
    {
        self.width
    }

    /// Height in pixels.
    #[verifier::when_used_as_spec(spec_height)]
    pub fn height(&self) -> (r: usize)
        ensures
            r == self.height(),
    {
        self.height
    }

    /// Waits until no reader and no other writer holds the slot, then lets `f`
    /// alone change it in place.
    ///
    /// Readers meet the slot as it was before `f` or as `f` left it, never in
    /// between. `f` must accept every slot that the lock can hold and must
    /// leave one that the lock can hold. It holds the slot already, so it must
    /// not reach for it through a handle.
    pub fn write_exclusive<R, F: FnOnce(&mut FrameSlot) -> R>(&self, f: F) -> (r: R)
        requires
            forall|slot: &mut FrameSlot| self.holds(*slot) ==> f.requires((slot,)),
            forall|slot: &mut FrameSlot, out: R|
                self.holds(*slot) && f.ensures((slot,), out) ==> self.holds(*final(slot)),
        ensures
            exists|slot: &mut FrameSlot|
                self.holds(*slot) && self.holds(*final(slot)) && #[trigger] f.ensures((slot,), r),
    {
        proof {
            use_type_invariant(self);
        }
        let (mut slot, handle) = self.lock.acquire_write();
        assert(self.holds(slot));
        let r = f(&mut slot);
        handle.release_write(slot);
        r
    }

    /// Waits while a writer holds the slot, then lets `f` read it. Other
    /// readers may read at the same time.
    ///
    /// `f` must accept every slot that the lock can hold.
    pub fn read_shared<R, F: FnOnce(&FrameSlot) -> R>(&self, f: F) -> (r: R)
        requires
            forall|slot: FrameSlot| self.holds(slot) ==> f.requires((&slot,)),
        ensures
            exists|slot: FrameSlot| self.holds(slot) && #[trigger] f.ensures((&slot,), r),
    {
        proof {
            use_type_invariant(self);
        }
        let handle = self.lock.acquire_read();
        let slot = handle.borrow();
        assert(self.holds(*slot));
        let r = f(slot);
        assert(self.holds(*slot) && f.ensures((slot,), r));
        handle.release_read();
        r
    }

    /// Validates a sample, then takes the slot exclusively for the copy alone.
    ///
    /// A sample that fails validation is dropped before the lock is touched.
    /// A sound one is copied in if the slot is still open and refused if not.
    pub fn deliver(&self, sample: &Sample) -> (r: Delivery)
        ensures
            sample_payload(*sample) matches Err(e) ==> r == Delivery::Dropped(e),
            sample_payload(*sample) is Ok ==> r == Delivery::Published || r == Delivery::Refused,
    {
        match decode_sample(sample) {
            Err(e) => Delivery::Dropped(e),
            Ok(pixels) => {
                let copy = |slot: &mut FrameSlot| -> (written: bool)
                    requires
                        old(slot).wf(),
                    ensures
                        final(slot).wf(),
                        final(slot).width() == old(slot).width(),
                        final(slot).height() == old(slot).height(),
                    { slot.store(pixels) };
                if self.write_exclusive(copy) {
                    Delivery::Published
                } else {
                    Delivery::Refused
                }
            },
        }
    }

    /// Takes the slot shared and copies the whole frame out.
    ///
    /// The copy has the slot's full length, and it is a frame that whole
    /// writes alone have made of the blank frame.
    pub fn snapshot(&self) -> (r: Vec<u8>)
        ensures
            r@.len() == frame_len(self.width() as nat, self.height() as nat),
            is_published_frame(self.width() as nat, self.height() as nat, r@),
    {
        let copy = |slot: &FrameSlot| -> (out: Vec<u8>)
            requires
                slot.wf(),
            ensures
                out@ == slot@,
                slot.wf(),
            { slot.snapshot() };
        let r = self.read_shared(copy);
        proof {
            let slot = choose|slot: FrameSlot|
                self.holds(slot) && #[trigger] copy.ensures((&slot,), r);
            slot.lemma_published();
        }
        r
    }

    /// Ends all writing through any handle. The last frame stays readable.
    pub fn close(&self) {
        let seal = |slot: &mut FrameSlot|
            requires
                old(slot).wf(),
            ensures
                final(slot).wf(),
                final(slot).width() == old(slot).width(),
                final(slot).height() == old(slot).height(),
            { slot.close() };
        self.write_exclusive(seal)
    }

    /// Follows the pipeline: closes the slot, through any handle, once the
    /// pipeline has ended.
    pub fn follow(&self, state: PipelineState) {
        let follow = |slot: &mut FrameSlot|
            requires
                old(slot).wf(),
            ensures
                final(slot).wf(),
                final(slot).width() == old(slot).width(),
                final(slot).height() == old(slot).height(),
            { slot.follow(state) };
        self.write_exclusive(follow)
    }

    /// Whether the slot took writes at the moment of asking.
    ///
    /// The answer is the switch of the slot as a reader met it under the lock:
    /// a slot that the lock can hold, of this handle's dimensions. Another
    /// handle may close the slot right after, so `true` is no promise for the
    /// next delivery; what a delivery gives for either answer is
    /// [`delivery_of`](crate::slot::delivery_of).
    pub fn is_open(&self) -> (r: bool)
        ensures
            exists|slot: FrameSlot| self.holds(slot) && r == #[trigger] slot.is_open(),
    {
        let ask = |slot: &FrameSlot| -> (out: bool)
            ensures
                out == slot.is_open(),
            { slot.is_open() };
        let r = self.read_shared(ask);
        proof {
            let met = choose|slot: FrameSlot|
                self.holds(slot) && #[trigger] ask.ensures((&slot,), r);
            assert(self.holds(met) && r == met.is_open());
        }
        r
    }
}

} // verus!
