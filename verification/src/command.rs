use vstd::prelude::*;
use libftd2xx::MpsseCmdBuilder;

verus! {

/// Opcode of the MPSSE command that sets the lower GPIO byte.
pub const SET_DATA_BITS_LOW_BYTE: u8 = 0x80;

/// Opcode of the MPSSE command that makes the chip answer at once.
pub const SEND_IMMEDIATE: u8 = 0x87;

/// `MpsseCmdBuilder`, the command builder of the MPSSE: a vector of bytes
/// that grows with each command appended to it.
#[verifier::external_type_specification]
#[verifier::external_body]
pub struct ExMpsseCmdBuilder(MpsseCmdBuilder);

/// The bytes that a command builder holds, in the order in which they are
/// sent to the chip.
pub uninterp spec fn command_bytes(builder: MpsseCmdBuilder) -> Seq<u8>;

/// `MpsseCmdBuilder::new` makes a builder that holds no bytes.
pub assume_specification[ MpsseCmdBuilder::new ]() -> (builder: MpsseCmdBuilder)
    ensures
        command_bytes(builder) == Seq::<u8>::empty(),
;

/// `MpsseCmdBuilder::set_gpio_lower` appends three bytes: the opcode `0x80`,
/// the state mask and the direction mask.
pub assume_specification[ MpsseCmdBuilder::set_gpio_lower ](
    builder: MpsseCmdBuilder,
    state: u8,
    direction: u8,
) -> (extended: MpsseCmdBuilder)
    ensures
        command_bytes(extended) == command_bytes(builder) + seq![0x80u8, state, direction],
;

/// `MpsseCmdBuilder::send_immediate` appends one byte: the opcode `0x87`.
pub assume_specification[ MpsseCmdBuilder::send_immediate ](builder: MpsseCmdBuilder) -> (extended:
    MpsseCmdBuilder)
    ensures
        command_bytes(extended) == command_bytes(builder).push(0x87u8),
;

/// `MpsseCmdBuilder::as_slice` gives the bytes that the builder holds.
pub assume_specification<'a>[ MpsseCmdBuilder::as_slice ](builder: &'a MpsseCmdBuilder) -> (bytes:
    &'a [u8])
    ensures
        bytes@ == command_bytes(*builder),
;

/// The bytes that set the lower GPIO byte to `value` and `direction` and have
/// the chip act on them at once.
pub open spec fn gpio_command(value: u8, direction: u8) -> Seq<u8> {
    seq![SET_DATA_BITS_LOW_BYTE, value, direction, SEND_IMMEDIATE]
}

/// Builds the command that writes the two GPIO masks to the chip.
pub fn gpio_lower_command(value: u8, direction: u8) -> (command: MpsseCmdBuilder)
    ensures
        command_bytes(command) == gpio_command(value, direction),
{
    let command = MpsseCmdBuilder::new().set_gpio_lower(value, direction).send_immediate();
    assert(command_bytes(command) =~= gpio_command(value, direction));
    command
}

} // verus!
