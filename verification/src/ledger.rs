use vstd::prelude::*;
use crate::fault::Fault;
use crate::pin_use::PinUse;

verus! {

/// Number of pins that can be claimed: AD0 to AD7.
pub const PIN_COUNT: u8 = 8;

/// The owners of a ledger in which no pin is claimed.
pub open spec fn no_owners() -> Seq<Option<PinUse>> {
    Seq::new(PIN_COUNT as nat, |p: int| None::<PinUse>)
}

/// What a request to allocate `pin` for `purpose` is answered with, given the
/// current `owners`: the index is checked first, then the slot.
pub open spec fn allocation_outcome(owners: Seq<Option<PinUse>>, pin: u8, purpose: PinUse) -> Result<
    (),
    Fault,
> {
    if pin >= PIN_COUNT {
        Err(Fault::OutOfRange { pin, requested: purpose })
    } else {
        match owners[pin as int] {
            Some(current) => Err(Fault::Conflict { pin, requested: purpose, current }),
            None => Ok(()),
        }
    }
}

/// The owners after a request to allocate `pin` for `purpose`: the slot is
/// taken when the request is granted, and nothing changes when it is not.
pub open spec fn after_allocation(owners: Seq<Option<PinUse>>, pin: u8, purpose: PinUse) -> Seq<
    Option<PinUse>,
> {
    if allocation_outcome(owners, pin, purpose) is Ok {
        owners.update(pin as int, Some(purpose))
    } else {
        owners
    }
}

/// An index that is no pin is refused whatever the ledger holds, and the
/// ledger is left untouched.
pub proof fn lemma_out_of_range_is_refused(owners: Seq<Option<PinUse>>, pin: u8, purpose: PinUse)
    requires
        pin >= PIN_COUNT,
    ensures
        allocation_outcome(owners, pin, purpose) == Err::<(), Fault>(
            Fault::OutOfRange { pin, requested: purpose },
        ),
        after_allocation(owners, pin, purpose) == owners,
{
}

/// A pin is allocated at most once. After a request for `pin` on behalf of
/// `first`, a request for the same pin on behalf of `second` is refused and
/// changes nothing; where the first request was granted, `first` stays the
/// recorded owner and the refusal names both purposes.
pub proof fn lemma_second_allocation_is_refused(
    owners: Seq<Option<PinUse>>,
    pin: u8,
    first: PinUse,
    second: PinUse,
)
    requires
        owners.len() == PIN_COUNT,
        pin < PIN_COUNT,
    ensures
        allocation_outcome(after_allocation(owners, pin, first), pin, second) is Err,
        after_allocation(after_allocation(owners, pin, first), pin, second) == after_allocation(
            owners,
            pin,
            first,
        ),
        allocation_outcome(owners, pin, first) is Ok ==> {
            &&& after_allocation(owners, pin, first)[pin as int] == Some(first)
            &&& allocation_outcome(after_allocation(owners, pin, first), pin, second) == Err::<
                (),
                Fault,
            >(Fault::Conflict { pin, requested: second, current: first })
        },
{
}

/// Registry of which purpose owns each of the eight pins.
///
/// Allocation is monotonic: a slot that has been taken is never released.
#[derive(Debug, Clone, Copy)]
pub struct PinLedger {
    slots: [Option<PinUse>; 8],
}

impl View for PinLedger {
    type V = Seq<Option<PinUse>>;

    closed spec fn view(&self) -> Seq<Option<PinUse>> {
        self.slots@
    }
}

impl PinLedger {
    /// A ledger always has one slot for each pin.
    pub proof fn lemma_one_slot_per_pin(self)
        ensures
            self@.len() == PIN_COUNT,
    {
    }

    /// A ledger in which every pin is free.
    pub fn new() -> (ledger: PinLedger)
        ensures
            ledger@ == no_owners(),
    {
        let ledger = PinLedger { slots: [None, None, None, None, None, None, None, None] };
        assert(ledger@ =~= no_owners());
        ledger
    }

    /// The recorded owner of `pin`; `None` for a free pin and for an index
    /// that is no pin.
    pub fn owner(&self, pin: u8) -> (owner: Option<PinUse>)
        ensures
            self@.len() == PIN_COUNT,
            owner == if pin < PIN_COUNT {
                self@[pin as int]
            } else {
                None
            },
    {
        if pin < PIN_COUNT {
            self.slots[pin as usize]
        } else {
            None
        }
    }

    /// Marks `pin` as owned by `purpose`.
    ///
    /// The pin must exist and be free, which [`PinLedger::can_allocate`]
    /// tests.
    pub fn allocate_pin(&mut self, pin: u8, purpose: PinUse)
        requires
            pin < PIN_COUNT,
            old(self)@[pin as int] is None,
        ensures
            final(self)@ == old(self)@.update(pin as int, Some(purpose)),
    {
        self.slots[pin as usize] = Some(purpose);
        assert(self@ =~= old(self)@.update(pin as int, Some(purpose)));
    }

    /// Tests whether `pin` can be allocated for `purpose`: the index first,
    /// then the slot. The ledger is only read.
    ///
    /// A refusal names the requested purpose and, for a taken pin, the
    /// purpose that holds it.
    pub fn can_allocate(&self, pin: u8, purpose: PinUse) -> (outcome: Result<(), Fault>)
        ensures
            outcome == allocation_outcome(self@, pin, purpose),
    {
        if pin >= PIN_COUNT {
            return Err(Fault::OutOfRange { pin, requested: purpose });
        }
        match self.slots[pin as usize] {
            Some(current) => Err(Fault::Conflict { pin, requested: purpose, current }),
            None => Ok(()),
        }
    }

    /// Allocates `pin` for `purpose` if the pin exists and is free.
    ///
    /// A request that is not granted leaves the ledger as it was.
    pub fn try_allocate_pin(&mut self, pin: u8, purpose: PinUse) -> (outcome: Result<(), Fault>)
        ensures
            outcome == allocation_outcome(old(self)@, pin, purpose),
            final(self)@ == after_allocation(old(self)@, pin, purpose),
    {
        let outcome = self.can_allocate(pin, purpose);
        if outcome.is_ok() {
            self.allocate_pin(pin, purpose);
        }
        outcome
    }
}

} // verus!
