use vstd::prelude::*;
use crate::fault::Fault;
use crate::ledger::{allocation_outcome, no_owners, PinLedger, PIN_COUNT};
use crate::pin_use::PinUse;

verus! {

/// Direction mask of a device on which nothing has been claimed yet: every
/// pin but AD2 is an output.
pub const INITIAL_DIRECTION: u8 = 0xFB;

/// Value mask of a device on which nothing has been claimed yet: every output
/// is low.
pub const INITIAL_VALUE: u8 = 0x00;

/// The bit of a GPIO mask that belongs to `pin`.
pub open spec fn pin_mask(pin: u8) -> u8
    recommends
        pin < PIN_COUNT,
{
    1u8 << pin
}

/// Whether `direction` makes `pin` an output.
pub open spec fn is_output(direction: u8, pin: u8) -> bool
    recommends
        pin < PIN_COUNT,
{
    direction & pin_mask(pin) != 0
}

/// Whether `value` drives `pin` high.
pub open spec fn is_high(value: u8, pin: u8) -> bool
    recommends
        pin < PIN_COUNT,
{
    value & pin_mask(pin) != 0
}

/// The value mask `value` with the level of `pin` set to `high`.
pub open spec fn with_level(value: u8, pin: u8, high: bool) -> u8
    recommends
        pin < PIN_COUNT,
{
    if high {
        value | pin_mask(pin)
    } else {
        value & !pin_mask(pin)
    }
}

/// The masks of the lower GPIO byte and the owners of its pins, as contracts
/// see them.
pub struct GpioView {
    /// Direction mask: a set bit is an output.
    pub direction: u8,
    /// Value mask: the level of each output.
    pub value: u8,
    /// The owner of each pin, `None` for a free pin.
    pub owners: Seq<Option<PinUse>>,
}

impl GpioView {
    /// What holds of every state: there is one slot per pin.
    pub open spec fn well_formed(self) -> bool {
        self.owners.len() == PIN_COUNT
    }

    /// Whether every pin that has an owner is an output. A fresh state has
    /// this property, and claiming an output or a bus keeps it; allocating a
    /// slot alone does not touch the masks and so may lose it.
    pub open spec fn drives_its_pins(self) -> bool {
        forall|p: int|
            0 <= p < PIN_COUNT && (#[trigger] self.owners[p]) is Some ==> is_output(
                self.direction,
                p as u8,
            )
    }

    /// The state of a device on which nothing has been claimed.
    pub open spec fn fresh() -> GpioView {
        GpioView { direction: INITIAL_DIRECTION, value: INITIAL_VALUE, owners: no_owners() }
    }

    /// The state after the slot of `pin` has been given to `purpose`. The
    /// masks stay as they are.
    pub open spec fn allocate(self, pin: u8, purpose: PinUse) -> GpioView
        recommends
            pin < PIN_COUNT,
    {
        GpioView { owners: self.owners.update(pin as int, Some(purpose)), ..self }
    }

    /// The state after `pin` has been claimed for `purpose`: the slot is
    /// taken and the pin is made an output.
    pub open spec fn claim(self, pin: u8, purpose: PinUse) -> GpioView
        recommends
            pin < PIN_COUNT,
    {
        GpioView { direction: self.direction | pin_mask(pin), ..self.allocate(pin, purpose) }
    }

    /// What a request for the three bus pins AD0, AD1 and AD2 is answered
    /// with: the fault of the lowest pin that cannot be had, if there is one.
    pub open spec fn bus_outcome(self, purpose: PinUse) -> Result<(), Fault> {
        if allocation_outcome(self.owners, 0, purpose) is Err {
            allocation_outcome(self.owners, 0, purpose)
        } else if allocation_outcome(self.owners, 1, purpose) is Err {
            allocation_outcome(self.owners, 1, purpose)
        } else {
            allocation_outcome(self.owners, 2, purpose)
        }
    }

    /// The state after the three bus pins have been claimed for `purpose`.
    pub open spec fn claim_bus(self, purpose: PinUse) -> GpioView {
        self.claim(0, purpose).claim(1, purpose).claim(2, purpose)
    }
}

/// Making one pin an output does so, and leaves every output an output.
pub proof fn lemma_claimed_pin_is_output(direction: u8, pin: u8, other: u8)
    requires
        pin < PIN_COUNT,
        other < PIN_COUNT,
    ensures
        is_output(direction | pin_mask(pin), pin),
        is_output(direction, other) ==> is_output(direction | pin_mask(pin), other),
{
    assert((direction | (1u8 << pin)) & (1u8 << pin) != 0) by (bit_vector)
        requires
            pin < 8,
    ;
    assert(direction & (1u8 << other) != 0 ==> (direction | (1u8 << pin)) & (1u8 << other) != 0)
        by (bit_vector)
        requires
            pin < 8,
            other < 8,
    ;
}

/// Setting the level of one pin does so, and leaves the level of every other
/// pin as it was.
pub proof fn lemma_level_is_set(value: u8, pin: u8, high: bool, other: u8)
    requires
        pin < PIN_COUNT,
        other < PIN_COUNT,
    ensures
        is_high(with_level(value, pin, high), pin) == high,
        other != pin ==> is_high(with_level(value, pin, high), other) == is_high(value, other),
{
    assert((value | (1u8 << pin)) & (1u8 << pin) != 0) by (bit_vector)
        requires
            pin < 8,
    ;
    assert((value & !(1u8 << pin)) & (1u8 << pin) == 0) by (bit_vector)
        requires
            pin < 8,
    ;
    assert(other != pin ==> (value | (1u8 << pin)) & (1u8 << other) == value & (1u8 << other))
        by (bit_vector)
        requires
            pin < 8,
            other < 8,
    ;
    assert(other != pin ==> (value & !(1u8 << pin)) & (1u8 << other) == value & (1u8 << other))
        by (bit_vector)
        requires
            pin < 8,
            other < 8,
    ;
}

/// Claiming a pin keeps every owned pin an output.
pub proof fn lemma_claim_drives_its_pins(state: GpioView, pin: u8, purpose: PinUse)
    requires
        state.well_formed(),
        state.drives_its_pins(),
        pin < PIN_COUNT,
    ensures
        state.claim(pin, purpose).well_formed(),
        state.claim(pin, purpose).drives_its_pins(),
{
    let after = state.claim(pin, purpose);
    assert forall|p: int| 0 <= p < PIN_COUNT && (#[trigger] after.owners[p]) is Some implies is_output(
        after.direction,
        p as u8,
    ) by {
        lemma_claimed_pin_is_output(state.direction, pin, p as u8);
        if p != pin {
            assert(state.owners[p] is Some);
        }
    }
}

/// Claiming a bus keeps every owned pin an output.
pub proof fn lemma_bus_claim_drives_its_pins(state: GpioView, purpose: PinUse)
    requires
        state.well_formed(),
        state.drives_its_pins(),
    ensures
        state.claim_bus(purpose).well_formed(),
        state.claim_bus(purpose).drives_its_pins(),
{
    lemma_claim_drives_its_pins(state, 0, purpose);
    lemma_claim_drives_its_pins(state.claim(0, purpose), 1, purpose);
    lemma_claim_drives_its_pins(state.claim(0, purpose).claim(1, purpose), 2, purpose);
}

/// Allocating a slot changes that slot and nothing else: the masks and the
/// other slots stay as they were.
pub proof fn lemma_allocation_keeps_the_masks(state: GpioView, pin: u8, purpose: PinUse, other: int)
    requires
        state.well_formed(),
        pin < PIN_COUNT,
        0 <= other < PIN_COUNT,
        other != pin,
    ensures
        state.allocate(pin, purpose).direction == state.direction,
        state.allocate(pin, purpose).value == state.value,
        state.allocate(pin, purpose).owners[pin as int] == Some(purpose),
        state.allocate(pin, purpose).owners[other] == state.owners[other],
{
}

/// A serial bus is acquired at most once, and the two buses exclude each
/// other: once `first` has been granted the bus pins, a request for them on
/// behalf of `second` is refused; the refusal names AD0, `second` as the
/// requested purpose and `first` as the purpose that holds the pin.
pub proof fn lemma_second_bus_is_refused(state: GpioView, first: PinUse, second: PinUse)
    requires
        state.well_formed(),
        state.bus_outcome(first) is Ok,
    ensures
        state.claim_bus(first).bus_outcome(second) == Err::<(), Fault>(
            Fault::Conflict { pin: 0, requested: second, current: first },
        ),
{
}

/// A bus is refused as soon as one of its three pins is taken, whoever holds
/// it.
pub proof fn lemma_one_taken_pin_blocks_the_bus(state: GpioView, purpose: PinUse, pin: u8)
    requires
        state.well_formed(),
        pin < 3,
        state.owners[pin as int] is Some,
    ensures
        state.bus_outcome(purpose) is Err,
{
}

/// Once a bus has been granted its pins, none of the three can be had as a
/// digital output: the refusal names the pin, the output as the requested
/// purpose and the bus as the purpose that holds it.
pub proof fn lemma_bus_pins_refuse_outputs(state: GpioView, bus: PinUse, pin: u8)
    requires
        state.well_formed(),
        state.bus_outcome(bus) is Ok,
        pin < 3,
    ensures
        allocation_outcome(state.claim_bus(bus).owners, pin, PinUse::Output) == Err::<(), Fault>(
            Fault::Conflict { pin, requested: PinUse::Output, current: bus },
        ),
{
}

/// A digital output is acquired exactly once. Once `pin` has been claimed as
/// an output, a second request for it is refused as a conflict of the output
/// with itself, and every other pin that was free can still be had.
pub proof fn lemma_output_is_claimed_once(state: GpioView, pin: u8, other: u8)
    requires
        state.well_formed(),
        pin < PIN_COUNT,
        state.owners[pin as int] is None,
    ensures
        allocation_outcome(state.owners, pin, PinUse::Output) is Ok,
        allocation_outcome(state.claim(pin, PinUse::Output).owners, pin, PinUse::Output) == Err::<
            (),
            Fault,
        >(Fault::Conflict { pin, requested: PinUse::Output, current: PinUse::Output }),
        other < PIN_COUNT && other != pin && state.owners[other as int] is None
            ==> allocation_outcome(
            state.claim(pin, PinUse::Output).owners,
            other,
            PinUse::Output,
        ) is Ok,
{
}

/// The direction mask, the value mask and the pin ledger of one device.
#[derive(Debug, Clone, Copy)]
pub struct GpioState {
    /// GPIO direction.
    direction: u8,
    /// GPIO value.
    value: u8,
    /// Pin allocation.
    pins: PinLedger,
}

impl View for GpioState {
    type V = GpioView;

    closed spec fn view(&self) -> GpioView {
        GpioView { direction: self.direction, value: self.value, owners: self.pins@ }
    }
}

impl GpioState {
    /// Every state has one slot for each pin.
    pub proof fn lemma_well_formed(self)
        ensures
            self@.well_formed(),
    {
        self.pins.lemma_one_slot_per_pin();
    }

    /// The state of a device on which nothing has been claimed.
    pub fn new() -> (state: GpioState)
        ensures
            state@ == GpioView::fresh(),
            state@.well_formed(),
            state@.drives_its_pins(),
    {
        GpioState { direction: INITIAL_DIRECTION, value: INITIAL_VALUE, pins: PinLedger::new() }
    }

    /// The direction mask of the lower GPIO byte.
    pub fn direction(&self) -> (direction: u8)
        ensures
            direction == self@.direction,
    {
        self.direction
    }

    /// The value mask of the lower GPIO byte.
    pub fn value(&self) -> (value: u8)
        ensures
            value == self@.value,
    {
        self.value
    }

    /// The recorded owner of `pin`; `None` for a free pin and for an index
    /// that is no pin.
    pub fn owner(&self, pin: u8) -> (owner: Option<PinUse>)
        ensures
            self@.well_formed(),
            owner == if pin < PIN_COUNT {
                self@.owners[pin as int]
            } else {
                None
            },
    {
        self.pins.owner(pin)
    }

    /// Tests whether `idx` can be had for `purpose`. The state is only read.
    ///
    /// A refusal names the requested purpose and, for a taken pin, the
    /// purpose that holds it.
    pub fn can_allocate(&self, idx: u8, purpose: PinUse) -> (outcome: Result<(), Fault>)
        ensures
            self@.well_formed(),
            outcome == allocation_outcome(self@.owners, idx, purpose),
    {
        proof {
            self.lemma_well_formed();
        }
        self.pins.can_allocate(idx, purpose)
    }

    /// Tests whether AD0, AD1 and AD2 can be had for the bus `purpose`. The
    /// state is only read.
    ///
    /// A refusal names the lowest of the three pins that is taken.
    pub fn can_claim_bus(&self, purpose: PinUse) -> (outcome: Result<(), Fault>)
        ensures
            self@.well_formed(),
            outcome == self@.bus_outcome(purpose),
    {
        proof {
            self.lemma_well_formed();
        }
        let first = self.pins.can_allocate(0, purpose);
        if first.is_err() {
            return first;
        }
        let second = self.pins.can_allocate(1, purpose);
        if second.is_err() {
            return second;
        }
        self.pins.can_allocate(2, purpose)
    }

    /// Sets the level that `idx` is driven to: high for `true`, low for
    /// `false`. The direction mask and the ledger stay as they are.
    pub fn set_level(&mut self, idx: u8, high: bool)
        requires
            idx < PIN_COUNT,
        ensures
            final(self)@ == (GpioView {
                value: with_level(old(self)@.value, idx, high),
                ..old(self)@
            }),
    {
        let bit: u8 = 1u8 << idx;
        if high {
            self.value = self.value | bit;
        } else {
            self.value = self.value & !bit;
        }
    }

    /// Gives the slot of `idx` to `purpose`. The masks stay as they are.
    ///
    /// The pin must exist and be free, which [`GpioState::can_allocate`]
    /// tests.
    pub fn allocate_pin(&mut self, idx: u8, purpose: PinUse)
        requires
            idx < PIN_COUNT,
            old(self)@.owners[idx as int] is None,
        ensures
            final(self)@ == old(self)@.allocate(idx, purpose),
    {
        self.pins.allocate_pin(idx, purpose);
    }

    /// Claims `idx` for `purpose`: the slot is taken and the pin is made an
    /// output.
    ///
    /// The pin must exist and be free, which [`GpioState::can_allocate`]
    /// tests.
    pub fn claim_pin(&mut self, idx: u8, purpose: PinUse)
        requires
            idx < PIN_COUNT,
            old(self)@.owners[idx as int] is None,
        ensures
            final(self)@ == old(self)@.claim(idx, purpose),
            old(self)@.drives_its_pins() ==> final(self)@.drives_its_pins(),
    {
        proof {
            self.lemma_well_formed();
            if self@.drives_its_pins() {
                lemma_claim_drives_its_pins(self@, idx, purpose);
            }
        }
        let bit: u8 = 1u8 << idx;
        self.direction = self.direction | bit;
        self.allocate_pin(idx, purpose);
    }

    /// Claims AD0, AD1 and AD2 for the bus `purpose`: the three slots are
    /// taken and the three pins are made outputs.
    ///
    /// The three pins must be free, which [`GpioState::can_claim_bus`] tests.
    pub fn claim_bus_pins(&mut self, purpose: PinUse)
        requires
            old(self)@.bus_outcome(purpose) is Ok,
        ensures
            final(self)@ == old(self)@.claim_bus(purpose),
            old(self)@.drives_its_pins() ==> final(self)@.drives_its_pins(),
    {
        proof {
            self.lemma_well_formed();
        }
        self.claim_pin(0, purpose);
        self.claim_pin(1, purpose);
        self.claim_pin(2, purpose);
    }
}

} // verus!
