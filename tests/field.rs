use ruspiro_arch_aarch64::field::{Field, FieldValue};

#[test]
fn new_value_is_masked_to_the_field() {
    let field = Field::<u64>::new(0b11, 4);
    let fv = FieldValue::new(field, 0b1110);
    assert_eq!(fv.value(), 0b10);
    let again = FieldValue::new(field, fv.value());
    assert_eq!(again.value(), fv.value());
}

#[test]
fn new_value_inside_the_mask_is_kept() {
    let field = Field::<u32>::new(0xff, 8);
    assert_eq!(FieldValue::new(field, 0x5a).value(), 0x5a);
}

#[test]
fn mask_is_shifted_into_place() {
    let field = Field::<u64>::new(0b11, 20);
    assert_eq!(field.mask(), 0b11 << 20);
    assert_eq!(field.shift(), 20);
}

#[test]
fn mask_drops_bits_shifted_past_the_top() {
    let field = Field::<u8>::new(0b1111, 6);
    assert_eq!(field.mask(), 0b1100_0000);
}

#[test]
fn mask_is_zero_when_the_shift_is_too_wide() {
    assert_eq!(Field::<u8>::new(1, 8).mask(), 0);
    assert_eq!(Field::<u16>::new(1, 16).mask(), 0);
    assert_eq!(Field::<u32>::new(1, 40).mask(), 0);
    assert_eq!(Field::<u64>::new(1, 64).mask(), 0);
}

#[test]
fn raw_value_is_shifted_into_place() {
    let field = Field::<u64>::new(0b11, 2);
    let fv = FieldValue::new(field, 0b10);
    assert_eq!(fv.raw_value(), 0b1000);
    assert_eq!(fv.mask(), 0b1100);
}

#[test]
fn raw_value_is_zero_when_the_shift_is_too_wide() {
    let fv = FieldValue::new(Field::<u32>::new(1, 32), 1);
    assert_eq!(fv.value(), 1);
    assert_eq!(fv.raw_value(), 0);
}

#[test]
fn single_bit_field_equals_width_one_field() {
    let one = Field::<u64>::single_bit(28);
    let explicit = Field::<u64>::with_width(28, 1);
    assert_eq!(one.mask(), explicit.mask());
    assert_eq!(one.shift(), explicit.shift());
    assert_eq!(one.mask(), 1 << 28);
}

#[test]
fn width_gives_low_bit_mask() {
    assert_eq!(Field::<u64>::with_width(0, 8).mask(), 0xff);
    assert_eq!(Field::<u64>::with_width(32, 6).mask(), 0x3f << 32);
    assert_eq!(Field::<u32>::with_width(26, 6).mask(), 0xfc00_0000);
    assert_eq!(Field::<u8>::with_width(1, 7).mask(), 0xfe);
}

#[test]
fn or_combines_fields_and_values() {
    let a = FieldValue::new(Field::<u64>::new(0b11, 0), 0b11);
    let b = FieldValue::new(Field::<u64>::new(0b1, 2), 0b1);
    let expected = FieldValue::new(Field::<u64>::new(0b111, 0), 0b111);
    let c = a | b;
    assert!(c == expected);
    assert_eq!(c.mask(), 0b111);
    assert_eq!(c.value(), 0b111);
    assert_eq!(c.raw_value(), 0b111);
}

#[test]
fn or_places_each_value_in_its_field() {
    let a = FieldValue::new(Field::<u32>::new(0b11, 4), 0b10);
    let b = FieldValue::new(Field::<u32>::new(0xf, 8), 0x9);
    let c = a | b;
    assert_eq!(c.value(), 0b10_0000 | (0x9 << 8));
    assert_eq!(c.mask(), 0b11_0000 | (0xf << 8));
    assert_eq!(c.value(), a.raw_value() | b.raw_value());
}

#[test]
fn and_intersects_fields_and_values() {
    let a = FieldValue::new(Field::<u16>::new(0xff, 0), 0b1010_1100);
    let b = FieldValue::new(Field::<u16>::new(0xf, 4), 0b1110);
    let c = a & b;
    assert_eq!(c.mask(), 0xf0);
    assert_eq!(c.value(), 0b1010_0000);
}

#[test]
fn equality_compares_only_values() {
    let a = FieldValue::new(Field::<u64>::new(0b11, 2), 0b10);
    let b = FieldValue::new(Field::<u64>::new(0xff, 40), 0b10);
    let c = FieldValue::new(Field::<u64>::new(0b11, 2), 0b01);
    assert!(a == b);
    assert!(a != c);
}
