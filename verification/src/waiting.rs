//! Tasks that wait for the stack.
//!
//! A waiting task leaves its waker in a slot, a `WakerRegistration` of the
//! `embassy-sync` crate, and is woken through it. Beside the slot goes a log of
//! the wakers that were woken through it. The log exists in proofs only, and
//! only the functions that reach the slot write it.
use vstd::prelude::*;

use core::task::Waker;

use embassy_sync::waitqueue::WakerRegistration;

verus! {

/// A slot for the waker of one waiting task.
#[verifier::external_type_specification]
#[verifier::external_body]
pub struct ExWakerRegistration(embassy_sync::waitqueue::WakerRegistration);

/// The waker that was registered last, if the slot has not been woken since.
/// The slot holds it, or another one that wakes the same task.
pub uninterp spec fn waiting(slot: WakerRegistration) -> Option<Waker>;

/// Whether both wakers wake the same task. A slot tells by `Waker::will_wake`,
/// which is true of no others.
pub uninterp spec fn same_task(one: Waker, other: Waker) -> bool;

/// What a slot holds, and what was done through it.
#[verifier::ext_equal]
pub ghost struct SlotView {
    /// The waker that waits.
    pub waiter: Option<Waker>,
    /// The wakers that were woken, oldest first. Where a task registered several
    /// wakers in a row, one of them stands for all.
    pub woken: Seq<Waker>,
}

impl SlotView {
    /// Nothing waits, and nothing was woken.
    pub open spec fn empty() -> Self {
        SlotView { waiter: None, woken: Seq::empty() }
    }

    /// The slot after whoever waits was woken.
    pub open spec fn after_wake(self) -> Self {
        SlotView {
            waiter: None,
            woken: match self.waiter {
                Some(waiter) => self.woken.push(waiter),
                None => self.woken,
            },
        }
    }

    /// Registering `waker` may lead to `after`. A waker that waited before is
    /// woken, unless it wakes the same task, which then waits on.
    pub open spec fn registers(self, waker: Waker, after: Self) -> bool {
        &&& after.waiter == Some(waker)
        &&& match self.waiter {
            Some(displaced) => after.woken == self.woken.push(displaced) || (after.woken
                == self.woken && same_task(displaced, waker)),
            None => after.woken == self.woken,
        }
    }
}

/// A slot for the waker of one waiting task, with the log of the wakers that
/// were woken through it.
pub struct WakerSlot {
    registration: WakerRegistration,
    woken: Ghost<Seq<Waker>>,
}

impl View for WakerSlot {
    type V = SlotView;

    closed spec fn view(&self) -> SlotView {
        SlotView { waiter: waiting(self.registration), woken: self.woken@ }
    }
}

/// `WakerRegistration::new`: the slot is empty.
#[verifier::external_body]
fn slot_new() -> (slot: WakerRegistration)
    ensures
        waiting(slot) is None,
{
    WakerRegistration::new()
}

impl WakerSlot {
    /// A slot in which nothing waits.
    pub(crate) fn new() -> (slot: Self)
        ensures
            slot@ == SlotView::empty(),
    {
        WakerSlot { registration: slot_new(), woken: Ghost(Seq::empty()) }
    }

    /// `WakerRegistration::register`: the slot then holds `waker`, or the one
    /// that it held if that wakes the same task. Any other waker that it held is
    /// woken.
    #[verifier::external_body]
    pub(crate) fn register(&mut self, waker: &Waker)
        ensures
            final(self)@.waiter == Some(*waker),
            match old(self)@.waiter {
                Some(displaced) => final(self)@.woken == old(self)@.woken.push(displaced) || (
                final(self)@.woken == old(self)@.woken && same_task(displaced, *waker)),
                None => final(self)@.woken == old(self)@.woken,
            },
    {
        self.registration.register(waker)
    }

    /// `WakerRegistration::wake`: the waker in the slot, if there is one, is
    /// taken out and woken.
    #[verifier::external_body]
    pub(crate) fn wake(&mut self)
        ensures
            final(self)@ == old(self)@.after_wake(),
    {
        self.registration.wake()
    }
}

/// Whoever waits when another task registers its waker is woken.
pub proof fn law_displaced_waiter_is_woken(
    slot: SlotView,
    displaced: Waker,
    waker: Waker,
    after: SlotView,
)
    requires
        slot.waiter == Some(displaced),
        slot.registers(waker, after),
        !same_task(displaced, waker),
    ensures
        after == (SlotView { waiter: Some(waker), woken: slot.woken.push(displaced) }),
{
}

} // verus!
