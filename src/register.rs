//! Reading and writing fields of a register's raw contents.
use crate::field::{field_fits, or_bits, shl_within, Field, FieldBits, FieldValue, FieldValueBits};
use crate::register_type::RegisterType;
use vstd::prelude::*;

verus! {

/// The value of field `f` in the raw contents `raw`, right-aligned.
pub open spec fn field_of<T: RegisterType>(raw: u64, f: FieldBits) -> u64 {
    ((raw & shl_within::<T>(f.mask, f.shift)) >> f.shift) & f.mask
}

/// The raw contents `raw` with the bits under the mask of `fv` replaced by
/// its value, and every other bit kept.
pub open spec fn with_field<T: RegisterType>(raw: u64, fv: FieldValueBits) -> u64 {
    (raw & !shl_within::<T>(fv.mask, fv.shift)) | shl_within::<T>(fv.value, fv.shift)
}

/// The value of `field` in the raw contents `raw`, right-aligned.
pub fn read_field<T: RegisterType>(raw: T, field: Field<T>) -> (r: FieldValue<T>)
    requires
        field@.shift < T::width(),
    ensures
        r.field_bits() == field@,
        r@.value == field_of::<T>(raw.bits(), field@),
        r.wf(),
{
    proof {
        T::lemma_shape();
        T::lemma_fits(raw);
    }
    let x = raw.to_bits();
    let m = field.mask().to_bits();
    let s = field.shift().to_bits();
    let v = (x & m) >> s;
    assert((x & m) >> s <= x) by (bit_vector)
        requires
            s < 64,
    ;
    FieldValue::new(field, T::from_bits(v))
}

/// The raw contents `raw` with the field of `fv` set to its value and every
/// bit outside that field kept.
pub fn write_field<T: RegisterType>(raw: T, fv: FieldValue<T>) -> (r: T)
    ensures
        r.bits() == with_field::<T>(raw.bits(), fv@),
{
    proof {
        T::lemma_shape();
        T::lemma_fits(raw);
    }
    let x = raw.to_bits();
    let mt = fv.mask();
    let vt = fv.raw_value();
    proof {
        T::lemma_fits(vt);
    }
    let m = mt.to_bits();
    let v = vt.to_bits();
    let o = T::all_ones();
    assert((x & !m) | v <= o) by (bit_vector)
        requires
            x <= o,
            v <= o,
            o == 0xff || o == 0xffff || o == 0xffff_ffff || o == 0xffff_ffff_ffff_ffff,
    ;
    T::from_bits((x & !m) | v)
}

/// Raw register contents held in memory, read and written field by field as
/// a hardware register is.
pub struct Register<T: RegisterType> {
    raw: T,
}

impl<T: RegisterType> View for Register<T> {
    type V = u64;

    closed spec fn view(&self) -> u64 {
        self.raw.bits()
    }
}

impl<T: RegisterType> Register<T> {
    /// A register that holds `raw`.
    pub fn new(raw: T) -> (r: Self)
        ensures
            r@ == raw.bits(),
    {
        Register { raw }
    }

    /// The raw contents, every bit as it stands.
    pub fn get_raw(&self) -> (r: T)
        ensures
            r.bits() == self@,
    {
        self.raw
    }

    /// Replaces the raw contents with `raw`, every bit as it stands.
    pub fn set_raw(&mut self, raw: T)
        ensures
            final(self)@ == raw.bits(),
    {
        self.raw = raw;
    }

    /// The value of `field`, right-aligned.
    pub fn read(&self, field: Field<T>) -> (r: FieldValue<T>)
        requires
            field@.shift < T::width(),
        ensures
            r.field_bits() == field@,
            r@.value == field_of::<T>(self@, field@),
            r.wf(),
    {
        read_field(self.raw, field)
    }

    /// Sets the field of `fv` to its value and keeps every other bit.
    pub fn write(&mut self, fv: FieldValue<T>)
        ensures
            final(self)@ == with_field::<T>(old(self)@, fv@),
    {
        self.raw = write_field(self.raw, fv);
    }
}

/// Writing back the value just read from a field leaves the raw contents
/// unchanged.
pub proof fn lemma_write_back_read<T: RegisterType>(raw: T, field: Field<T>)
    requires
        field@.shift < T::width(),
    ensures
        with_field::<T>(
            raw.bits(),
            FieldValueBits {
                mask: field@.mask,
                shift: field@.shift,
                value: field_of::<T>(raw.bits(), field@),
            },
        ) == raw.bits(),
{
    T::lemma_shape();
    T::lemma_fits(raw);
    lemma_bits_write_back(raw.bits(), field@.mask, field@.shift, T::ones(), T::width());
}

/// Two values of disjoint fields that fit the register, combined by `|` and
/// written at once, each read back unchanged from its own field.
pub proof fn lemma_combined_write_reads_back<T: RegisterType>(
    raw: T,
    a: FieldValue<T>,
    b: FieldValue<T>,
)
    requires
        a.wf(),
        b.wf(),
        field_fits::<T>(a.field_bits()),
        field_fits::<T>(b.field_bits()),
        a.placed_mask() & b.placed_mask() == 0,
    ensures
        field_of::<T>(with_field::<T>(raw.bits(), or_bits::<T>(a@, b@)), a.field_bits()) == a@.value,
        field_of::<T>(with_field::<T>(raw.bits(), or_bits::<T>(a@, b@)), b.field_bits()) == b@.value,
{
    T::lemma_shape();
    T::lemma_fits(raw);
    lemma_bits_disjoint_write(
        raw.bits(),
        a@.mask,
        a@.shift,
        a@.value,
        b@.mask,
        b@.shift,
        b@.value,
        T::ones(),
        T::width(),
    );
}

proof fn lemma_bits_write_back(raw: u64, m: u64, s: u64, o: u64, w: u64)
    by (bit_vector)
    requires
        raw <= o,
        s < w,
        (w == 8 && o == 0xff) || (w == 16 && o == 0xffff) || (w == 32 && o == 0xffff_ffff) || (w
            == 64 && o == 0xffff_ffff_ffff_ffff),
    ensures
        (raw & !((m << s) & o)) | (((((raw & ((m << s) & o)) >> s) & m) << s) & o) == raw,
{
}

proof fn lemma_bits_disjoint_write(
    raw: u64,
    ma: u64,
    sa: u64,
    va: u64,
    mb: u64,
    sb: u64,
    vb: u64,
    o: u64,
    w: u64,
)
    requires
        raw <= o,
        sa < w,
        sb < w,
        (w == 8 && o == 0xff) || (w == 16 && o == 0xffff) || (w == 32 && o == 0xffff_ffff) || (w
            == 64 && o == 0xffff_ffff_ffff_ffff),
        va & ma == va,
        vb & mb == vb,
        ((ma << sa) & o) >> sa == ma,
        ((mb << sb) & o) >> sb == mb,
        ((ma << sa) & o) & ((mb << sb) & o) == 0,
    ensures
        (((((raw & !(((((ma << sa) & o) | ((mb << sb) & o)) << 0u64) & o)) | (((((va << sa) & o) | (
        (vb << sb) & o)) << 0u64) & o)) & ((ma << sa) & o)) >> sa) & ma) == va,
        (((((raw & !(((((ma << sa) & o) | ((mb << sb) & o)) << 0u64) & o)) | (((((va << sa) & o) | (
        (vb << sb) & o)) << 0u64) & o)) & ((mb << sb) & o)) >> sb) & mb) == vb,
{
    let pa = (ma << sa) & o;
    let pb = (mb << sb) & o;
    let ra = (va << sa) & o;
    let rb = (vb << sb) & o;
    lemma_bits_placed(va, ma, sa, o, w);
    lemma_bits_placed(vb, mb, sb, o, w);
    lemma_bits_union_in_range(pa, pb, o);
    lemma_bits_union_in_range(ra, rb, o);
    lemma_bits_select(raw, pa, pb, ra, rb);
}

/// A value inside its mask stays inside it in register position, and comes
/// back from there unchanged where the mask does.
proof fn lemma_bits_placed(v: u64, m: u64, s: u64, o: u64, w: u64)
    by (bit_vector)
    requires
        s < w,
        (w == 8 && o == 0xff) || (w == 16 && o == 0xffff) || (w == 32 && o == 0xffff_ffff) || (w
            == 64 && o == 0xffff_ffff_ffff_ffff),
        v & m == v,
        ((m << s) & o) >> s == m,
    ensures
        ((v << s) & o) & ((m << s) & o) == (v << s) & o,
        (((v << s) & o) >> s) & m == v,
        (m << s) & o <= o,
        (v << s) & o <= o,
{
}

proof fn lemma_bits_union_in_range(x: u64, y: u64, o: u64)
    by (bit_vector)
    requires
        x <= o,
        y <= o,
        o == 0xff || o == 0xffff || o == 0xffff_ffff || o == 0xffff_ffff_ffff_ffff,
    ensures
        ((x | y) << 0u64) & o == x | y,
{
}

proof fn lemma_bits_select(raw: u64, pa: u64, pb: u64, ra: u64, rb: u64)
    by (bit_vector)
    requires
        ra & pa == ra,
        rb & pb == rb,
        pa & pb == 0,
    ensures
        ((raw & !(pa | pb)) | (ra | rb)) & pa == ra,
        ((raw & !(pa | pb)) | (ra | rb)) & pb == rb,
{
}

} // verus!

