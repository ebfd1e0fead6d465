//! Fields of a register and the values they hold.
use crate::register_type::RegisterType;
use core::ops::{BitAnd, BitOr};
use vstd::prelude::*;

verus! {

/// `x` shifted left by `shift` within the width of `T`: the bits shifted past
/// the top are dropped, and a shift that is not less than the width gives 0.
pub open spec fn shl_within<T: RegisterType>(x: u64, shift: u64) -> u64 {
    if shift < T::width() {
        (x << shift) & T::ones()
    } else {
        0
    }
}

/// The mask of a field that is `n` bits wide.
pub open spec fn low_bits(n: u64) -> u64 {
    ((1u64 << n) - 1) as u64
}

/// The field starts inside a register of `T` and its mask fits above its
/// offset, so that no bit of the mask is lost in register position.
pub open spec fn field_fits<T: RegisterType>(f: FieldBits) -> bool {
    &&& f.shift < T::width()
    &&& shl_within::<T>(f.mask, f.shift) >> f.shift == f.mask
}

/// A field as plain values: its mask, right-aligned, and its bit offset.
pub struct FieldBits {
    pub mask: u64,
    pub shift: u64,
}

/// A field value as plain values: the field's mask and offset, and the
/// field's value, right-aligned.
pub struct FieldValueBits {
    pub mask: u64,
    pub shift: u64,
    pub value: u64,
}

/// The field value that combines two others by `|`: its mask is the union of
/// both masks in register position, its offset 0, and its value the union of
/// both values in register position.
pub open spec fn or_bits<T: RegisterType>(a: FieldValueBits, b: FieldValueBits) -> FieldValueBits {
    FieldValueBits {
        mask: shl_within::<T>(a.mask, a.shift) | shl_within::<T>(b.mask, b.shift),
        shift: 0,
        value: shl_within::<T>(a.value, a.shift) | shl_within::<T>(b.value, b.shift),
    }
}

/// The field value that combines two others by `&`, as `or_bits` does by `|`.
pub open spec fn and_bits<T: RegisterType>(a: FieldValueBits, b: FieldValueBits) -> FieldValueBits {
    FieldValueBits {
        mask: shl_within::<T>(a.mask, a.shift) & shl_within::<T>(b.mask, b.shift),
        shift: 0,
        value: shl_within::<T>(a.value, a.shift) & shl_within::<T>(b.value, b.shift),
    }
}

/// Computes `shl_within::<T>(x, shift)` for a value `x` of `T`.
fn shl_within_exec<T: RegisterType>(x: u64, shift: u64) -> (r: u64)
    ensures
        r == shl_within::<T>(x, shift),
        r <= T::ones(),
{
    proof {
        T::lemma_shape();
    }
    if shift < T::width_bits() {
        let o = T::all_ones();
        let r = (x << shift) & o;
        assert(((x << shift) & o) <= o) by (bit_vector);
        r
    } else {
        0
    }
}

/// One contiguous slice of a register: a right-aligned mask and the bit
/// offset at which the slice starts.
#[derive(Clone, Copy)]
pub struct Field<T: RegisterType> {
    mask: T,
    shift: T,
}

impl<T: RegisterType> View for Field<T> {
    type V = FieldBits;

    closed spec fn view(&self) -> FieldBits {
        FieldBits { mask: self.mask.bits(), shift: self.shift.bits() }
    }
}

impl<T: RegisterType> Field<T> {
    /// The field's mask shifted into register position, as `mask` returns it.
    pub open spec fn placed_mask(&self) -> u64 {
        shl_within::<T>(self@.mask, self@.shift)
    }

    /// A field from its right-aligned mask and its offset. Nothing is checked.
    pub fn new(mask: T, shift: T) -> (r: Self)
        ensures
            r@ == (FieldBits { mask: mask.bits(), shift: shift.bits() }),
    {
        Field { mask, shift }
    }

    /// A field of one bit at `offset`.
    pub fn single_bit(offset: T) -> (r: Self)
        ensures
            r@ == (FieldBits { mask: 1, shift: offset.bits() }),
    {
        proof {
            T::lemma_shape();
        }
        Field { mask: T::from_bits(1), shift: offset }
    }

    /// A field of `bits` bits at `offset`.
    pub fn with_width(offset: T, bits: T) -> (r: Self)
        requires
            1 <= bits.bits() < T::width(),
        ensures
            r@ == (FieldBits { mask: low_bits(bits.bits()), shift: offset.bits() }),
    {
        proof {
            T::lemma_shape();
        }
        let n = bits.to_bits();
        let o = T::all_ones();
        assert(1u64 << n >= 1 && ((1u64 << n) - 1) as u64 <= o) by (bit_vector)
            requires
                1 <= n,
                (n < 8 && o == 0xff) || (n < 16 && o == 0xffff) || (n < 32 && o == 0xffff_ffff) || (
                n < 64 && o == 0xffff_ffff_ffff_ffff),
        ;
        let m = (1u64 << n) - 1;
        Field { mask: T::from_bits(m), shift: offset }
    }

    /// The mask shifted into register position; 0 where the offset is not
    /// inside the register.
    pub fn mask(&self) -> (r: T)
        ensures
            r.bits() == self.placed_mask(),
    {
        T::from_bits(shl_within_exec::<T>(self.mask.to_bits(), self.shift.to_bits()))
    }

    /// The bit offset at which the field starts.
    pub fn shift(&self) -> (r: T)
        ensures
            r.bits() == self@.shift,
    {
        self.shift
    }
}

/// A value for one field, stored right-aligned and masked to the field.
#[derive(Clone, Copy)]
pub struct FieldValue<T: RegisterType> {
    field: Field<T>,
    value: T,
}

impl<T: RegisterType> View for FieldValue<T> {
    type V = FieldValueBits;

    closed spec fn view(&self) -> FieldValueBits {
        FieldValueBits { mask: self.field@.mask, shift: self.field@.shift, value: self.value.bits() }
    }
}

impl<T: RegisterType> FieldValue<T> {
    /// The value holds no bit outside its field's mask.
    pub open spec fn wf(&self) -> bool {
        self@.value & self@.mask == self@.value
    }

    /// The field this value belongs to.
    pub open spec fn field_bits(&self) -> FieldBits {
        FieldBits { mask: self@.mask, shift: self@.shift }
    }

    /// The value shifted into register position, as `raw_value` returns it.
    pub open spec fn placed_value(&self) -> u64 {
        shl_within::<T>(self@.value, self@.shift)
    }

    /// The mask shifted into register position, as `mask` returns it.
    pub open spec fn placed_mask(&self) -> u64 {
        shl_within::<T>(self@.mask, self@.shift)
    }

    /// The value that `or` returns.
    pub closed spec fn or_spec(self, rhs: Self) -> Self {
        let o = or_bits::<T>(self@, rhs@);
        FieldValue {
            field: Field { mask: T::of_bits(o.mask), shift: T::of_bits(0) },
            value: T::of_bits(o.value),
        }
    }

    /// The value that `and` returns.
    pub closed spec fn and_spec(self, rhs: Self) -> Self {
        let o = and_bits::<T>(self@, rhs@);
        FieldValue {
            field: Field { mask: T::of_bits(o.mask), shift: T::of_bits(0) },
            value: T::of_bits(o.value),
        }
    }

    /// A value for `field`; the bits of `value` outside the field's mask are
    /// dropped.
    pub fn new(field: Field<T>, value: T) -> (r: Self)
        ensures
            r@ == (FieldValueBits {
                mask: field@.mask,
                shift: field@.shift,
                value: value.bits() & field@.mask,
            }),
            r.wf(),
    {
        let v = value.to_bits();
        let m = field.mask.to_bits();
        proof {
            T::lemma_fits(value);
        }
        assert((v & m) <= v && (v & m) & m == v & m) by (bit_vector);
        FieldValue { field, value: T::from_bits(v & m) }
    }

    /// The field's value, right-aligned.
    pub fn value(&self) -> (r: T)
        ensures
            r.bits() == self@.value,
    {
        self.value
    }

    /// The value shifted into register position; 0 where the field's offset
    /// is not inside the register.
    pub fn raw_value(&self) -> (r: T)
        ensures
            r.bits() == self.placed_value(),
    {
        T::from_bits(shl_within_exec::<T>(self.value.to_bits(), self.field.shift.to_bits()))
    }

    /// The field's mask shifted into register position.
    pub fn mask(&self) -> (r: T)
        ensures
            r.bits() == self.placed_mask(),
    {
        self.field.mask()
    }

    /// Both values in one, over the union of both fields, for one write.
    pub fn or(self, rhs: Self) -> (r: Self)
        ensures
            r@ == or_bits::<T>(self@, rhs@),
            r == self.or_spec(rhs),
            self.wf() && rhs.wf() ==> r.wf(),
    {
        let ma = shl_within_exec::<T>(self.field.mask.to_bits(), self.field.shift.to_bits());
        let mb = shl_within_exec::<T>(rhs.field.mask.to_bits(), rhs.field.shift.to_bits());
        let va = shl_within_exec::<T>(self.value.to_bits(), self.field.shift.to_bits());
        let vb = shl_within_exec::<T>(rhs.value.to_bits(), rhs.field.shift.to_bits());
        proof {
            T::lemma_shape();
            lemma_placed_within::<T>(self@.value, self@.mask, self@.shift);
            lemma_placed_within::<T>(rhs@.value, rhs@.mask, rhs@.shift);
        }
        let o = T::all_ones();
        assert((ma | mb) <= o && (va | vb) <= o && ((va & ma == va && vb & mb == vb) ==> (va
            | vb) & (ma | mb) == va | vb)) by (bit_vector)
            requires
                ma <= o,
                mb <= o,
                va <= o,
                vb <= o,
                o == 0xff || o == 0xffff || o == 0xffff_ffff || o == 0xffff_ffff_ffff_ffff,
        ;
        let zero = T::from_bits(0);
        FieldValue { field: Field { mask: T::from_bits(ma | mb), shift: zero }, value: T::from_bits(va | vb) }
    }

    /// Both values in one, over the intersection of both fields.
    pub fn and(self, rhs: Self) -> (r: Self)
        ensures
            r@ == and_bits::<T>(self@, rhs@),
            r == self.and_spec(rhs),
            self.wf() && rhs.wf() ==> r.wf(),
    {
        let ma = shl_within_exec::<T>(self.field.mask.to_bits(), self.field.shift.to_bits());
        let mb = shl_within_exec::<T>(rhs.field.mask.to_bits(), rhs.field.shift.to_bits());
        let va = shl_within_exec::<T>(self.value.to_bits(), self.field.shift.to_bits());
        let vb = shl_within_exec::<T>(rhs.value.to_bits(), rhs.field.shift.to_bits());
        proof {
            lemma_placed_within::<T>(self@.value, self@.mask, self@.shift);
            lemma_placed_within::<T>(rhs@.value, rhs@.mask, rhs@.shift);
        }
        assert((ma & mb) <= ma && (va & vb) <= va && ((va & ma == va && vb & mb == vb) ==> (va
            & vb) & (ma & mb) == va & vb)) by (bit_vector);
        let zero = T::from_bits(0);
        FieldValue { field: Field { mask: T::from_bits(ma & mb), shift: zero }, value: T::from_bits(va & vb) }
    }
}

impl<T: RegisterType> BitOr for FieldValue<T> {
    type Output = FieldValue<T>;

    fn bitor(self, rhs: FieldValue<T>) -> (r: FieldValue<T>) {
        self.or(rhs)
    }
}

impl<T: RegisterType> vstd::std_specs::ops::BitOrSpecImpl for FieldValue<T> {
    open spec fn obeys_bitor_spec() -> bool {
        true
    }

    open spec fn bitor_req(self, rhs: FieldValue<T>) -> bool {
        true
    }

    open spec fn bitor_spec(self, rhs: FieldValue<T>) -> FieldValue<T> {
        self.or_spec(rhs)
    }
}

impl<T: RegisterType> BitAnd for FieldValue<T> {
    type Output = FieldValue<T>;

    fn bitand(self, rhs: FieldValue<T>) -> (r: FieldValue<T>) {
        self.and(rhs)
    }
}

impl<T: RegisterType> vstd::std_specs::ops::BitAndSpecImpl for FieldValue<T> {
    open spec fn obeys_bitand_spec() -> bool {
        true
    }

    open spec fn bitand_req(self, rhs: FieldValue<T>) -> bool {
        true
    }

    open spec fn bitand_spec(self, rhs: FieldValue<T>) -> FieldValue<T> {
        self.and_spec(rhs)
    }
}

/// Two field values are equal when their right-aligned values are; their
/// fields are not compared.
impl<T: RegisterType> PartialEq for FieldValue<T> {
    fn eq(&self, other: &FieldValue<T>) -> (r: bool) {
        self.value.to_bits() == other.value.to_bits()
    }
}

impl<T: RegisterType> vstd::std_specs::cmp::PartialEqSpecImpl for FieldValue<T> {
    open spec fn obeys_eq_spec() -> bool {
        true
    }

    open spec fn eq_spec(&self, other: &FieldValue<T>) -> bool {
        self@.value == other@.value
    }
}

/// Masking a value to its field a second time changes nothing, so that a
/// field value built from another value of the same field is that value.
pub proof fn lemma_mask_idempotent<T: RegisterType>(field: Field<T>, value: T)
    ensures
        (value.bits() & field@.mask) & field@.mask == value.bits() & field@.mask,
{
    let v = value.bits();
    let m = field@.mask;
    assert((v & m) & m == v & m) by (bit_vector);
}

/// A field of one bit is the field of width one at the same offset: both
/// have the mask 1.
pub proof fn lemma_single_bit_is_width_one<T: RegisterType>(offset: T)
    ensures
        (FieldBits { mask: 1, shift: offset.bits() }) == (FieldBits {
            mask: low_bits(1),
            shift: offset.bits(),
        }),
{
    assert(((1u64 << 1u64) - 1) as u64 == 1) by (bit_vector);
}

/// A value inside its mask stays inside the mask when both are shifted into
/// register position.
proof fn lemma_placed_within<T: RegisterType>(v: u64, m: u64, s: u64)
    ensures
        v & m == v ==> shl_within::<T>(v, s) & shl_within::<T>(m, s) == shl_within::<T>(v, s),
{
    T::lemma_shape();
    let o = T::ones();
    if s < T::width() {
        assert(v & m == v ==> ((v << s) & o) & ((m << s) & o) == (v << s) & o) by (bit_vector);
    } else {
        assert(0u64 & 0u64 == 0u64) by (bit_vector);
    }
}

} // verus!

