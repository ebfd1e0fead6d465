use ruspiro_arch_aarch64::field::{Field, FieldValue};
use ruspiro_arch_aarch64::register::{read_field, write_field, Register};

#[test]
fn read_and_write_two_bit_field() {
    let field = Field::<u64>::with_width(2, 2);
    let mut reg = Register::<u64>::new(0b1011);
    assert_eq!(reg.read(field).value(), 0b10);
    reg.write(FieldValue::new(field, 0b01));
    assert_eq!(reg.get_raw(), 0b0111);
}

#[test]
fn writing_back_what_was_read_changes_nothing() {
    let field = Field::<u32>::with_width(21, 3);
    let raw: u32 = 0xdead_beef;
    let mut reg = Register::new(raw);
    let fv = reg.read(field);
    reg.write(fv);
    assert_eq!(reg.get_raw(), raw);
    assert_eq!(write_field(raw, read_field(raw, field)), raw);
}

#[test]
fn combined_write_reads_back_each_field() {
    let fpen = Field::<u64>::with_width(20, 2);
    let tta = Field::<u64>::single_bit(28);
    let a = FieldValue::new(fpen, 0b11);
    let b = FieldValue::new(tta, 0b1);
    let mut reg = Register::<u64>::new(0xffff_0000_0000_0000);
    reg.write(a | b);
    assert!(reg.read(fpen) == a);
    assert!(reg.read(tta) == b);
    assert_eq!(reg.get_raw(), 0xffff_0000_1030_0000);
}

#[test]
fn write_keeps_bits_outside_the_field() {
    let field = Field::<u8>::with_width(4, 3);
    let raw: u8 = 0b1111_1111;
    assert_eq!(write_field(raw, FieldValue::new(field, 0)), 0b1000_1111);
    assert_eq!(write_field(0, FieldValue::new(field, 0b1111)), 0b0111_0000);
}

#[test]
fn read_of_a_field_is_right_aligned() {
    let field = Field::<u16>::with_width(3, 2);
    assert_eq!(read_field(0b1_0110u16, field).value(), 0b10);
    assert_eq!(read_field(0u16, field).value(), 0);
}

#[test]
fn set_raw_replaces_every_bit() {
    let mut reg = Register::<u64>::new(1);
    reg.set_raw(0x8000_0000_0000_0001);
    assert_eq!(reg.get_raw(), 0x8000_0000_0000_0001);
}

#[test]
fn top_byte_of_a_full_register() {
    let top = Field::<u64>::with_width(56, 8);
    let mut reg = Register::<u64>::new(u64::MAX);
    assert_eq!(reg.read(top).value(), 0xff);
    reg.write(FieldValue::new(top, 0x44));
    assert_eq!(reg.get_raw(), 0x44ff_ffff_ffff_ffff);
    reg.write(FieldValue::new(Field::<u64>::single_bit(63), 1));
    assert_eq!(reg.get_raw(), 0xc4ff_ffff_ffff_ffff);
}

#[test]
fn eight_bit_register_fields() {
    let low = Field::<u8>::with_width(0, 4);
    let high = Field::<u8>::with_width(4, 4);
    let mut reg = Register::<u8>::new(0);
    reg.write(FieldValue::new(low, 0xa) | FieldValue::new(high, 0x5));
    assert_eq!(reg.get_raw(), 0x5a);
    assert_eq!(reg.read(high).value(), 0x5);
    assert_eq!(reg.read(low).value(), 0xa);
}
