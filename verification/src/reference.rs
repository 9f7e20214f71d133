//! Packed references: a 31-bit entry id with a one-bit variant selector on top.

use vstd::prelude::*;

verus! {

/// Lowest value that does not fit in the id part of a reference.
pub const ID_LIMIT: u32 = 0x8000_0000;

/// Mask that keeps the id part of a packed reference.
pub const ID_MASK: u32 = 0x7FFF_FFFF;

/// Which rendering of an entry is asked for. The selector bit of a packed
/// reference is clear for `Primary` and set for `Alternate`.
#[derive(Clone, Copy, Debug, PartialEq, Eq, Structural)]
pub enum Variant {
    Primary,
    Alternate,
}

/// A decoded reference.
#[derive(Clone, Copy, Debug, PartialEq, Eq, Structural)]
pub struct Reference {
    pub id: u32,
    pub variant: Variant,
}

impl Reference {
    /// The id fits in 31 bits.
    pub open spec fn wf(self) -> bool {
        self.id < ID_LIMIT
    }
}

/// What a packed value decodes to: the low 31 bits are the id, bit 31 selects the variant.
pub open spec fn decoded(raw: u32) -> Reference {
    Reference {
        id: raw & ID_MASK,
        variant: if (raw >> 31u32) & 1u32 == 1u32 {
            Variant::Alternate
        } else {
            Variant::Primary
        },
    }
}

/// The packed value of a reference.
pub open spec fn encoded(r: Reference) -> u32 {
    match r.variant {
        Variant::Primary => r.id,
        Variant::Alternate => r.id | ID_LIMIT,
    }
}

/// The unsigned 32-bit pattern of a signed parameter (two's complement).
pub open spec fn raw_bits(param: i32) -> int {
    if param >= 0 {
        param as int
    } else {
        param as int + 0x1_0000_0000
    }
}

/// Decodes a packed reference. Every 32-bit value decodes.
pub fn decode(raw: u32) -> (r: Reference)
    ensures
        r == decoded(raw),
        r.wf(),
        r.id as int == raw as int % 0x8000_0000,
        (r.variant == Variant::Alternate) == (raw >= ID_LIMIT),
        encoded(r) == raw,
{
    let id: u32 = raw & ID_MASK;
    let bit: u32 = (raw >> 31u32) & 1u32;
    proof {
        decode_is_well_formed(raw);
        encode_after_decode(raw);
        decoded_by_division(raw);
    }
    let variant = if bit == 1 {
        Variant::Alternate
    } else {
        Variant::Primary
    };
    Reference { id, variant }
}

/// Packs a reference.
pub fn encode(r: Reference) -> (raw: u32)
    requires
        r.wf(),
    ensures
        raw == encoded(r),
        decoded(raw) == r,
        raw as int == r.id + (if r.variant == Variant::Alternate { 0x8000_0000int } else { 0 }),
{
    let id: u32 = r.id;
    proof {
        decode_after_encode(r);
        encoded_by_addition(r);
    }
    match r.variant {
        Variant::Primary => id,
        Variant::Alternate => id | ID_LIMIT,
    }
}

/// The reference packed into a signed request parameter.
pub open spec fn decoded_param(param: i32) -> Reference {
    decoded(raw_bits(param) as u32)
}

/// Reads a signed request parameter as the 32-bit pattern the host packed into it.
pub fn raw_of_param(param: i32) -> (raw: u32)
    ensures
        raw as int == raw_bits(param),
{
    if param >= 0 {
        param as u32
    } else {
        let wide: i64 = param as i64 + 0x1_0000_0000i64;
        wide as u32
    }
}

/// Decodes the reference packed into a signed request parameter.
pub fn decode_param(param: i32) -> (r: Reference)
    ensures
        r == decoded_param(param),
        r.wf(),
        r.id as int == raw_bits(param) % 0x8000_0000,
        (r.variant == Variant::Alternate) == (param < 0),
{
    decode(raw_of_param(param))
}

/// Decoding is total and lands in the valid references: the id of every
/// decoded value is below 2^31.
pub proof fn decode_is_well_formed(raw: u32)
    ensures
        decoded(raw).wf(),
{
    assert(raw & 0x7FFF_FFFFu32 < 0x8000_0000u32) by (bit_vector);
}

/// Packing what was decoded gives the packed value back: no two packed
/// values decode to the same reference.
pub proof fn encode_after_decode(raw: u32)
    ensures
        encoded(decoded(raw)) == raw,
{
    assert(((raw >> 31u32) & 1u32 == 1u32) ==> ((raw & 0x7FFF_FFFFu32) | 0x8000_0000u32) == raw)
        by (bit_vector);
    assert(((raw >> 31u32) & 1u32 != 1u32) ==> (raw & 0x7FFF_FFFFu32) == raw) by (bit_vector);
}

/// Decoding what was packed gives the reference back: every valid
/// reference is the decoding of some packed value.
pub proof fn decode_after_encode(r: Reference)
    requires
        r.wf(),
    ensures
        decoded(encoded(r)) == r,
{
    let id = r.id;
    assert(id < 0x8000_0000u32 ==> (id & 0x7FFF_FFFFu32) == id) by (bit_vector);
    assert(id < 0x8000_0000u32 ==> (id >> 31u32) & 1u32 == 0u32) by (bit_vector);
    assert(id < 0x8000_0000u32 ==> ((id | 0x8000_0000u32) & 0x7FFF_FFFFu32) == id)
        by (bit_vector);
    assert(id < 0x8000_0000u32 ==> ((id | 0x8000_0000u32) >> 31u32) & 1u32 == 1u32)
        by (bit_vector);
}

/// The id of a decoded value is the value modulo 2^31, and the variant
/// is the alternate one exactly from 2^31 on.
pub proof fn decoded_by_division(raw: u32)
    ensures
        decoded(raw).id as int == raw as int % 0x8000_0000,
        (decoded(raw).variant == Variant::Alternate) == (raw >= ID_LIMIT),
{
    assert(raw & 0x7FFF_FFFFu32 == raw % 0x8000_0000u32) by (bit_vector);
    assert(((raw >> 31u32) & 1u32 == 1u32) == (raw >= 0x8000_0000u32)) by (bit_vector);
}

/// The packed value of a valid reference is its id, plus 2^31 for the
/// alternate variant.
pub proof fn encoded_by_addition(r: Reference)
    requires
        r.wf(),
    ensures
        encoded(r) as int == r.id + (if r.variant == Variant::Alternate {
            0x8000_0000int
        } else {
            0
        }),
{
    let id = r.id;
    assert(id < 0x8000_0000u32 ==> (id | 0x8000_0000u32) == id + 0x8000_0000u32) by (bit_vector);
}

/// Decoding is one-to-one.
pub proof fn decode_is_injective(a: u32, b: u32)
    requires
        decoded(a) == decoded(b),
    ensures
        a == b,
{
    encode_after_decode(a);
    encode_after_decode(b);
}

} // verus!
