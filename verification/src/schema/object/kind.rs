//! The primitive field kinds and how each is laid out in a machine word.
//!
//! A value of a primitive kind is modelled as a mathematical integer: a
//! boolean as 0 or 1, a float or double as its IEEE-754 bit pattern. The
//! stored word is type-erased, so reading a word through another kind's
//! accessor reinterprets it and never fails.

use crate::schema::object::model::{clamp_count, scalar_value, slot, EntryView, ValueView, Wire};
use crate::schema::FieldId;
use vstd::prelude::*;

verus! {

/// The primitive kinds a field slot can hold.
#[derive(Clone, Copy, Debug, PartialEq, Eq, Structural)]
pub enum Kind {
    Bool,
    Int32,
    Int64,
    Uint32,
    Uint64,
    Sint32,
    Sint64,
    Fixed32,
    Fixed64,
    Sfixed32,
    Sfixed64,
    Float,
    Double,
    EntityId,
    Enum,
}

/// The low 32 bits of `bits`, read as a two's-complement number.
pub open spec fn signed_32(bits: u64) -> int {
    let low = bits as int % 0x1_0000_0000;
    if low < 0x8000_0000 {
        low
    } else {
        low - 0x1_0000_0000
    }
}

/// `bits` read as a two's-complement number.
pub open spec fn signed_64(bits: u64) -> int {
    if bits < 0x8000_0000_0000_0000 {
        bits as int
    } else {
        bits - 0x1_0000_0000_0000_0000
    }
}

/// The inverse of the zigzag mapping: even words are the non-negative
/// numbers, odd words the negative ones.
pub open spec fn unzigzag(z: int) -> int {
    if z % 2 == 0 {
        z / 2
    } else {
        -(z / 2) - 1
    }
}

impl Kind {
    /// The wire class that values of this kind are stored in.
    pub open spec fn wire(self) -> Wire {
        match self {
            Kind::Fixed32 | Kind::Sfixed32 | Kind::Float => Wire::Fixed32,
            Kind::Fixed64 | Kind::Sfixed64 | Kind::Double => Wire::Fixed64,
            _ => Wire::Varint,
        }
    }

    /// The numbers that are values of this kind.
    pub open spec fn holds(self, value: int) -> bool {
        match self {
            Kind::Bool => value == 0 || value == 1,
            Kind::Int32 | Kind::Sint32 | Kind::Sfixed32 => -0x8000_0000 <= value < 0x8000_0000,
            Kind::Int64 | Kind::Sint64 | Kind::Sfixed64 | Kind::EntityId => {
                -0x8000_0000_0000_0000 <= value < 0x8000_0000_0000_0000
            },
            Kind::Uint32 | Kind::Fixed32 | Kind::Float | Kind::Enum => 0 <= value < 0x1_0000_0000,
            Kind::Uint64 | Kind::Fixed64 | Kind::Double => 0 <= value < 0x1_0000_0000_0000_0000,
        }
    }

    /// The word that stores `value`. Signed kinds are stored in two's
    /// complement, widened to 64 bits where the wire class is a
    /// variable-length integer; the zigzag kinds interleave negative and
    /// non-negative numbers.
    pub open spec fn encode(self, value: int) -> u64 {
        match self {
            Kind::Int32 | Kind::Int64 | Kind::Sfixed64 | Kind::EntityId => if value >= 0 {
                value as u64
            } else {
                (value + 0x1_0000_0000_0000_0000) as u64
            },
            Kind::Sfixed32 => if value >= 0 {
                value as u64
            } else {
                (value + 0x1_0000_0000) as u64
            },
            Kind::Sint32 | Kind::Sint64 => if value >= 0 {
                (2 * value) as u64
            } else {
                (-2 * value - 1) as u64
            },
            _ => value as u64,
        }
    }

    /// The value that a stored word stands for when read as this kind.
    pub open spec fn decode(self, bits: u64) -> int {
        match self {
            Kind::Bool => if bits != 0 {
                1
            } else {
                0
            },
            Kind::Int32 | Kind::Sfixed32 => signed_32(bits),
            Kind::Int64 | Kind::Sfixed64 | Kind::EntityId => signed_64(bits),
            Kind::Uint32 | Kind::Fixed32 | Kind::Float | Kind::Enum => bits as int % 0x1_0000_0000,
            Kind::Uint64 | Kind::Fixed64 | Kind::Double => bits as int,
            Kind::Sint32 => unzigzag(bits as int % 0x1_0000_0000),
            Kind::Sint64 => unzigzag(bits as int),
        }
    }
}

/// A boolean as a value of kind `Bool`.
pub open spec fn bool_value(b: bool) -> int {
    if b {
        1
    } else {
        0
    }
}

/// The entry that stores `value` as kind `kind` under `field_id`.
pub open spec fn scalar_entry(field_id: FieldId, kind: Kind, value: int) -> EntryView {
    EntryView { field_id, value: scalar_value(kind.wire(), kind.encode(value)) }
}

/// What an object holds under `field_id` when read as kind `kind`: every
/// value of the kind's wire class, decoded, in insertion order.
pub open spec fn values(entries: Seq<EntryView>, kind: Kind, field_id: FieldId) -> Seq<int> {
    slot(entries, field_id, kind.wire()).map_values(|v: ValueView| kind.decode(v.bits()))
}

/// What a single-value read of kind `kind` gives under `field_id`: the value
/// added last, or zero when the field holds none. Earlier values stay in the
/// field and are read by index or as a list.
pub open spec fn current_value(entries: Seq<EntryView>, kind: Kind, field_id: FieldId) -> int {
    if values(entries, kind, field_id).len() > 0 {
        values(entries, kind, field_id).last()
    } else {
        0
    }
}

/// The entries that store `values`, in order, as kind `kind` under
/// `field_id`.
pub open spec fn scalar_entries(field_id: FieldId, kind: Kind, values: Seq<int>) -> Seq<EntryView> {
    values.map_values(|v: int| scalar_entry(field_id, kind, v))
}

/// Whether `numbers` are, one for one, what the caller's conversion gives
/// for the enum values `values`.
pub open spec fn converted<E>(values: Seq<E>, numbers: Seq<u32>) -> bool where
    for<'a> &'a E: Into<u32>,
{
    &&& numbers.len() == values.len()
    &&& forall|j: int|
        0 <= j < numbers.len() ==> call_ensures(
            <&E as Into<u32>>::into,
            (&values[j],),
            #[trigger] numbers[j],
        )
}

/// Booleans as values of kind `Bool`.
pub open spec fn ints_of_bool(list: Seq<bool>) -> Seq<int> {
    list.map_values(|b: bool| bool_value(b))
}

pub open spec fn ints_of_i32(list: Seq<i32>) -> Seq<int> {
    list.map_values(|v: i32| v as int)
}

pub open spec fn ints_of_i64(list: Seq<i64>) -> Seq<int> {
    list.map_values(|v: i64| v as int)
}

pub open spec fn ints_of_u32(list: Seq<u32>) -> Seq<int> {
    list.map_values(|v: u32| v as int)
}

pub open spec fn ints_of_u64(list: Seq<u64>) -> Seq<int> {
    list.map_values(|v: u64| v as int)
}

/// Decoding what was encoded gives the value back, for every kind and every
/// value of that kind; the encoded word of a 32-bit wire class fits in 32
/// bits.
pub proof fn lemma_decode_encode(kind: Kind, value: int)
    requires
        kind.holds(value),
    ensures
        kind.decode(kind.encode(value)) == value,
        kind.wire() == Wire::Fixed32 ==> kind.encode(value) < 0x1_0000_0000,
{
}

/// A length as a 32-bit count.
pub(crate) fn clamp(n: usize) -> (count: u32)
    ensures
        count == clamp_count(n as nat),
{
    if n > 0xffff_ffff {
        0xffff_ffff
    } else {
        n as u32
    }
}

pub(crate) fn encode_bool(value: bool) -> (bits: u64)
    ensures
        bits == Kind::Bool.encode(bool_value(value)),
{
    if value {
        1
    } else {
        0
    }
}

pub(crate) fn decode_bool(bits: u64) -> (value: bool)
    ensures
        bool_value(value) == Kind::Bool.decode(bits),
{
    bits != 0
}

/// Two's complement of a signed 64-bit number.
pub(crate) fn encode_signed_64(value: i64) -> (bits: u64)
    ensures
        bits == Kind::Int64.encode(value as int),
        signed_64(bits) == value,
{
    if value >= 0 {
        value as u64
    } else {
        u64::MAX - ((-(value + 1)) as u64)
    }
}

pub(crate) fn decode_signed_64(bits: u64) -> (value: i64)
    ensures
        value == signed_64(bits),
{
    if bits < 0x8000_0000_0000_0000 {
        bits as i64
    } else {
        ((bits - 0x8000_0000_0000_0000) as i64) + i64::MIN
    }
}

/// Two's complement of a signed 32-bit number, widened to 64 bits.
pub(crate) fn encode_int32(value: i32) -> (bits: u64)
    ensures
        bits == Kind::Int32.encode(value as int),
{
    encode_signed_64(value as i64)
}

/// Two's complement of a signed 32-bit number, in 32 bits.
pub(crate) fn encode_sfixed32(value: i32) -> (bits: u64)
    ensures
        bits == Kind::Sfixed32.encode(value as int),
{
    if value >= 0 {
        value as u64
    } else {
        ((value as i64) + 0x1_0000_0000) as u64
    }
}

pub(crate) fn decode_signed_32(bits: u64) -> (value: i32)
    ensures
        value == signed_32(bits),
{
    let low: u64 = bits % 0x1_0000_0000;
    if low < 0x8000_0000 {
        low as i32
    } else {
        ((low as i64) - 0x1_0000_0000) as i32
    }
}

pub(crate) fn decode_unsigned_32(bits: u64) -> (value: u32)
    ensures
        value == bits as int % 0x1_0000_0000,
{
    (bits % 0x1_0000_0000) as u32
}

pub(crate) fn encode_sint32(value: i32) -> (bits: u64)
    ensures
        bits == Kind::Sint32.encode(value as int),
{
    if value >= 0 {
        2 * (value as u64)
    } else {
        let below: i64 = -(value as i64) - 1;
        (2 * below + 1) as u64
    }
}

pub(crate) fn decode_sint32(bits: u64) -> (value: i32)
    ensures
        value == Kind::Sint32.decode(bits),
{
    let low: u64 = bits % 0x1_0000_0000;
    if low % 2 == 0 {
        (low / 2) as i32
    } else {
        (-((low / 2) as i64) - 1) as i32
    }
}

pub(crate) fn encode_sint64(value: i64) -> (bits: u64)
    ensures
        bits == Kind::Sint64.encode(value as int),
{
    if value >= 0 {
        2 * (value as u64)
    } else {
        2 * ((-(value + 1)) as u64) + 1
    }
}

pub(crate) fn decode_sint64(bits: u64) -> (value: i64)
    ensures
        value == Kind::Sint64.decode(bits),
{
    if bits % 2 == 0 {
        (bits / 2) as i64
    } else {
        -((bits / 2) as i64) - 1
    }
}

} // verus!
