use ftd2xx_embedded_hal::command::{gpio_lower_command, SEND_IMMEDIATE, SET_DATA_BITS_LOW_BYTE};

#[test]
fn opcodes_are_those_of_the_chip() {
    assert_eq!(SET_DATA_BITS_LOW_BYTE, 0x80);
    assert_eq!(SEND_IMMEDIATE, 0x87);
}

#[test]
fn gpio_command_holds_opcode_value_direction_and_send() {
    assert_eq!(gpio_lower_command(0x20, 0xFB).as_slice(), &[0x80, 0x20, 0xFB, 0x87]);
    assert_eq!(gpio_lower_command(0x00, 0x00).as_slice(), &[0x80, 0x00, 0x00, 0x87]);
    assert_eq!(gpio_lower_command(0xFF, 0x01).as_slice(), &[0x80, 0xFF, 0x01, 0x87]);
}

#[test]
fn gpio_command_keeps_value_and_direction_apart() {
    let command = gpio_lower_command(0x12, 0x34);
    assert_eq!(command.as_slice()[1], 0x12);
    assert_eq!(command.as_slice()[2], 0x34);
    assert_eq!(command.as_slice().len(), 4);
}
