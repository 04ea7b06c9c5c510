//! A rotating pool of uniform-buffer slots.
//!
//! Every frame writes its uniforms into a slot of its own and keeps reading
//! it until the GPU has finished the frame. Slots are handed out in rotation
//! and given back oldest first, so the slots in use always form one
//! contiguous run that ends just before the slot handed out next.

use vstd::prelude::*;

verus! {

/// The smallest pool: one slot to write while another is still read.
pub const MIN_SLOTS: u32 = 2;

/// Number of slots of a pool that serves a surface of `images` images.
pub open spec fn pool_size(images: u32) -> u32 {
    if images < MIN_SLOTS {
        MIN_SLOTS
    } else {
        images
    }
}

/// The slot that follows `slot` in a pool of `slots` slots.
pub open spec fn successor(slots: u32, slot: u32) -> u32 {
    if slot + 1 >= slots {
        0
    } else {
        (slot + 1) as u32
    }
}

/// How many claims back `slot` was handed out, counted from the most recent
/// claim (which is at distance 0), in a pool of `slots` slots whose next
/// slot is `next`.
pub open spec fn claim_distance(slots: int, next: int, slot: int) -> int {
    if slot < next {
        next - 1 - slot
    } else {
        next - 1 - slot + slots
    }
}

/// What a pool is, as plain numbers.
#[derive(Clone, Copy, Debug, PartialEq, Eq, Structural)]
pub struct RingState {
    /// Number of slots.
    pub slots: u32,
    /// The slot that the next claim hands out.
    pub next: u32,
    /// Number of slots held by frames: the `busy` most recently claimed.
    pub busy: u32,
}

impl RingState {
    /// The pool has at least two slots, and one of them is always free.
    pub open spec fn wf(self) -> bool {
        &&& self.slots >= MIN_SLOTS
        &&& self.next < self.slots
        &&& self.busy < self.slots
    }

    /// Largest number of slots that may be held at once.
    pub open spec fn limit(self) -> int {
        self.slots - 1
    }

    /// No further slot can be claimed until one is retired.
    pub open spec fn is_full(self) -> bool {
        self.busy >= self.limit()
    }

    /// Whether `slot` is held by a frame that the GPU may still be reading.
    pub open spec fn in_use(self, slot: int) -> bool {
        &&& 0 <= slot < self.slots
        &&& claim_distance(self.slots as int, self.next as int, slot) < self.busy
    }

    /// The empty pool for a surface of `images` images.
    pub open spec fn fresh(images: u32) -> RingState {
        RingState { slots: pool_size(images), next: 0, busy: 0 }
    }

    /// The pool after its next slot was claimed; a full pool stays as it is.
    pub open spec fn claim(self) -> RingState {
        if self.is_full() {
            self
        } else {
            RingState {
                slots: self.slots,
                next: successor(self.slots, self.next),
                busy: (self.busy + 1) as u32,
            }
        }
    }

    /// The pool after its `count` oldest held slots were given back.
    pub open spec fn retire(self, count: u32) -> RingState {
        RingState {
            slots: self.slots,
            next: self.next,
            busy: if count >= self.busy {
                0
            } else {
                (self.busy - count) as u32
            },
        }
    }

    /// The pool after every slot was given back.
    pub open spec fn reset(self) -> RingState {
        RingState { slots: self.slots, next: self.next, busy: 0 }
    }
}

/// A claim hands out a slot that no frame holds, marks exactly that slot as
/// held, and keeps the pool well formed.
pub proof fn lemma_claim_takes_a_free_slot(ring: RingState)
    requires
        ring.wf(),
        !ring.is_full(),
    ensures
        !ring.in_use(ring.next as int),
        ring.claim().wf(),
        ring.claim().busy == ring.busy + 1,
        forall|slot: int|
            #[trigger] ring.claim().in_use(slot) == (slot == ring.next || ring.in_use(slot)),
{
}

/// Retiring never puts a slot in use, keeps the pool well formed, and frees
/// room for a claim whenever at least one slot is given back.
pub proof fn lemma_retire_only_frees(ring: RingState, count: u32)
    requires
        ring.wf(),
    ensures
        ring.retire(count).wf(),
        ring.retire(count).busy <= ring.busy,
        count >= 1 ==> !ring.retire(count).is_full(),
        forall|slot: int| #[trigger] ring.retire(count).in_use(slot) ==> ring.in_use(slot),
{
}

/// Slots are given back oldest first: after retiring, the slots still held
/// are exactly the most recently claimed ones.
pub proof fn lemma_retire_keeps_the_newest(ring: RingState, count: u32, slot: int)
    requires
        ring.wf(),
        ring.in_use(slot),
    ensures
        ring.retire(count).in_use(slot) <==> claim_distance(
            ring.slots as int,
            ring.next as int,
            slot,
        ) + count < ring.busy,
{
}

/// Rotating pool of uniform slots.
#[derive(Clone, Copy, Debug)]
pub struct UniformRing {
    slots: u32,
    next: u32,
    busy: u32,
}

impl View for UniformRing {
    type V = RingState;

    closed spec fn view(&self) -> RingState {
        RingState { slots: self.slots, next: self.next, busy: self.busy }
    }
}

impl UniformRing {
    #[verifier::type_invariant]
    spec fn inv(self) -> bool {
        self@.wf()
    }

    /// An empty pool for a surface of `images` images.
    pub fn new(images: u32) -> (ring: UniformRing)
        ensures
            ring@ == RingState::fresh(images),
            ring@.wf(),
    {
        let slots: u32 = if images < MIN_SLOTS {
            MIN_SLOTS
        } else {
            images
        };
        UniformRing { slots, next: 0, busy: 0 }
    }

    /// Number of slots in the pool.
    pub fn slot_count(&self) -> (n: u32)
        ensures
            n == self@.slots,
            self@.wf(),
    {
        proof {
            use_type_invariant(self);
        }
        self.slots
    }

    /// Number of slots currently held.
    pub fn held(&self) -> (n: u32)
        ensures
            n == self@.busy,
            n <= self@.limit(),
    {
        proof {
            use_type_invariant(self);
        }
        self.busy
    }

    /// Whether every slot but one is held.
    pub fn full(&self) -> (b: bool)
        ensures
            b == self@.is_full(),
    {
        proof {
            use_type_invariant(self);
        }
        self.busy >= self.slots - 1
    }

    /// Whether `slot` is held.
    pub fn holds(&self, slot: u32) -> (b: bool)
        ensures
            b == self@.in_use(slot as int),
    {
        proof {
            use_type_invariant(self);
        }
        if slot >= self.slots {
            return false;
        }
        let distance: u32 = if slot < self.next {
            self.next - 1 - slot
        } else {
            self.slots - 1 - slot + self.next
        };
        distance < self.busy
    }

    /// Hands out the next slot, or nothing when the pool is full.
    ///
    /// The slot handed out is never one that is still held, and claiming it
    /// changes the state of no other slot.
    pub fn claim(&mut self) -> (slot: Option<u32>)
        ensures
            final(self)@ == old(self)@.claim(),
            slot == if old(self)@.is_full() {
                None
            } else {
                Some(old(self)@.next)
            },
            slot matches Some(s) ==> !old(self)@.in_use(s as int) && final(self)@.in_use(s as int),
    {
        proof {
            use_type_invariant(&*self);
        }
        if self.busy >= self.slots - 1 {
            return None;
        }
        let slot: u32 = self.next;
        let next: u32 = if slot + 1 >= self.slots {
            0
        } else {
            slot + 1
        };
        *self = UniformRing { slots: self.slots, next, busy: self.busy + 1 };
        Some(slot)
    }

    /// Gives back the `count` oldest held slots, or all of them when fewer
    /// are held.
    pub fn retire(&mut self, count: u32)
        ensures
            final(self)@ == old(self)@.retire(count),
    {
        proof {
            use_type_invariant(&*self);
        }
        let busy: u32 = if count >= self.busy {
            0
        } else {
            self.busy - count
        };
        *self = UniformRing { slots: self.slots, next: self.next, busy };
    }

    /// Gives back every slot.
    pub fn reset(&mut self)
        ensures
            final(self)@ == old(self)@.reset(),
    {
        proof {
            use_type_invariant(&*self);
        }
        *self = UniformRing { slots: self.slots, next: self.next, busy: 0 };
    }
}

} // verus!
