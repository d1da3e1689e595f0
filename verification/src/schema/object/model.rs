//! The mathematical model of a schema object.
//!
//! An object is a sequence of entries in insertion order. Each entry names the
//! field it belongs to and carries one value. A value records only its wire
//! class (variable-length integer, 32-bit word, 64-bit word, byte span or
//! nested object): the format has no per-field type tag, so every accessor of a
//! given wire class sees every value of that class stored under the field.

use crate::schema::FieldId;
use vstd::prelude::*;

verus! {

/// The wire class of a stored value.
#[derive(Clone, Copy, Debug, PartialEq, Eq, Structural)]
pub enum Wire {
    Varint,
    Fixed32,
    Fixed64,
    Bytes,
    Object,
}

/// One stored value, as the contracts see it.
pub enum ValueView {
    Varint(u64),
    Fixed32(u32),
    Fixed64(u64),
    Bytes(Seq<u8>),
    Object(Seq<EntryView>),
}

/// One entry of an object: a field id and the value stored under it.
pub struct EntryView {
    pub field_id: FieldId,
    pub value: ValueView,
}

impl Wire {
    /// The classes that hold a plain machine word.
    pub open spec fn is_scalar(self) -> bool {
        self == Wire::Varint || self == Wire::Fixed32 || self == Wire::Fixed64
    }
}

impl ValueView {
    pub open spec fn wire(self) -> Wire {
        match self {
            ValueView::Varint(_) => Wire::Varint,
            ValueView::Fixed32(_) => Wire::Fixed32,
            ValueView::Fixed64(_) => Wire::Fixed64,
            ValueView::Bytes(_) => Wire::Bytes,
            ValueView::Object(_) => Wire::Object,
        }
    }

    /// The machine word of a scalar value, zero for the other classes.
    pub open spec fn bits(self) -> u64 {
        match self {
            ValueView::Varint(w) => w,
            ValueView::Fixed32(w) => w as u64,
            ValueView::Fixed64(w) => w,
            _ => 0,
        }
    }

    /// The bytes of a byte span, empty for the other classes.
    pub open spec fn bytes(self) -> Seq<u8> {
        match self {
            ValueView::Bytes(b) => b,
            _ => Seq::empty(),
        }
    }

    /// The entries of a nested object, empty for the other classes.
    pub open spec fn object(self) -> Seq<EntryView> {
        match self {
            ValueView::Object(o) => o,
            _ => Seq::empty(),
        }
    }
}

/// The scalar value of class `wire` that holds the word `bits`. A 32-bit
/// class keeps the low 32 bits.
pub open spec fn scalar_value(wire: Wire, bits: u64) -> ValueView {
    match wire {
        Wire::Fixed32 => ValueView::Fixed32((bits as int % 0x1_0000_0000) as u32),
        Wire::Fixed64 => ValueView::Fixed64(bits),
        _ => ValueView::Varint(bits),
    }
}

/// Whether `entry` belongs to field `field_id` and has wire class `wire`.
pub open spec fn in_slot(entry: EntryView, field_id: FieldId, wire: Wire) -> bool {
    entry.field_id == field_id && entry.value.wire() == wire
}

/// The values of wire class `wire` stored under `field_id`, in insertion
/// order.
pub open spec fn slot(entries: Seq<EntryView>, field_id: FieldId, wire: Wire) -> Seq<ValueView>
    decreases entries.len(),
{
    if entries.len() == 0 {
        Seq::empty()
    } else {
        let front = slot(entries.drop_last(), field_id, wire);
        if in_slot(entries.last(), field_id, wire) {
            front.push(entries.last().value)
        } else {
            front
        }
    }
}

/// The entries that remain when everything stored under `field_id` is taken
/// out.
pub open spec fn without_field(entries: Seq<EntryView>, field_id: FieldId) -> Seq<EntryView>
    decreases entries.len(),
{
    if entries.len() == 0 {
        Seq::empty()
    } else {
        let front = without_field(entries.drop_last(), field_id);
        if entries.last().field_id == field_id {
            front
        } else {
            front.push(entries.last())
        }
    }
}

/// The entries with the `n`-th value of the slot (`field_id`, `wire`) replaced
/// by `value`. Nothing changes when the slot has no `n`-th value.
pub open spec fn with_nth(
    entries: Seq<EntryView>,
    field_id: FieldId,
    wire: Wire,
    n: int,
    value: ValueView,
) -> Seq<EntryView>
    decreases entries.len(),
{
    if entries.len() == 0 {
        Seq::empty()
    } else {
        let front = entries.drop_last();
        if in_slot(entries.last(), field_id, wire) && slot(front, field_id, wire).len() == n {
            front.push(EntryView { field_id, value })
        } else {
            with_nth(front, field_id, wire, n, value).push(entries.last())
        }
    }
}

/// A count as the 32-bit accessors report it: exact up to `u32::MAX`, and
/// `u32::MAX` beyond.
pub open spec fn clamp_count(n: nat) -> u32 {
    if n <= u32::MAX {
        n as u32
    } else {
        u32::MAX
    }
}

/// The words of a sequence of values.
pub open spec fn bits_of(values: Seq<ValueView>) -> Seq<u64> {
    values.map_values(|v: ValueView| v.bits())
}

/// The byte spans of a sequence of values.
pub open spec fn bytes_of(values: Seq<ValueView>) -> Seq<Seq<u8>> {
    values.map_values(|v: ValueView| v.bytes())
}

/// The byte spans stored under `field_id`, in insertion order.
pub open spec fn byte_values(entries: Seq<EntryView>, field_id: FieldId) -> Seq<Seq<u8>> {
    bytes_of(slot(entries, field_id, Wire::Bytes))
}

/// The nested objects stored under `field_id`, in insertion order.
pub open spec fn objects(entries: Seq<EntryView>, field_id: FieldId) -> Seq<Seq<EntryView>> {
    slot(entries, field_id, Wire::Object).map_values(|v: ValueView| v.object())
}

/// What a single-value read of bytes gives under `field_id`: the byte span
/// added last, empty when the field holds none.
pub open spec fn current_bytes(entries: Seq<EntryView>, field_id: FieldId) -> Seq<u8> {
    if byte_values(entries, field_id).len() > 0 {
        byte_values(entries, field_id).last()
    } else {
        Seq::empty()
    }
}

/// What a single-value read of an object gives under `field_id`: the nested
/// object added last, empty when the field holds none.
pub open spec fn current_object(entries: Seq<EntryView>, field_id: FieldId) -> Seq<EntryView> {
    if objects(entries, field_id).len() > 0 {
        objects(entries, field_id).last()
    } else {
        Seq::empty()
    }
}

/// The entries that store `spans`, in order, as byte spans under `field_id`.
pub open spec fn bytes_entries(field_id: FieldId, spans: Seq<Seq<u8>>) -> Seq<EntryView> {
    spans.map_values(|b: Seq<u8>| EntryView { field_id, value: ValueView::Bytes(b) })
}

/// Appending one entry extends the slot it belongs to and no other.
pub proof fn lemma_slot_push(
    entries: Seq<EntryView>,
    entry: EntryView,
    field_id: FieldId,
    wire: Wire,
)
    ensures
        slot(entries.push(entry), field_id, wire) == if in_slot(entry, field_id, wire) {
            slot(entries, field_id, wire).push(entry.value)
        } else {
            slot(entries, field_id, wire)
        },
{
    assert(entries.push(entry).drop_last() =~= entries);
}

/// The slot of a concatenation is the concatenation of the slots.
pub proof fn lemma_slot_concat(a: Seq<EntryView>, b: Seq<EntryView>, field_id: FieldId, wire: Wire)
    ensures
        slot(a + b, field_id, wire) == slot(a, field_id, wire) + slot(b, field_id, wire),
    decreases b.len(),
{
    if b.len() == 0 {
        assert(a + b =~= a);
        assert(slot(a, field_id, wire) + slot(b, field_id, wire) =~= slot(a, field_id, wire));
    } else {
        lemma_slot_concat(a, b.drop_last(), field_id, wire);
        assert((a + b).drop_last() =~= a + b.drop_last());
        assert((a + b).last() == b.last());
        if in_slot(b.last(), field_id, wire) {
            assert(slot(a, field_id, wire) + slot(b, field_id, wire) =~= (slot(a, field_id, wire)
                + slot(b.drop_last(), field_id, wire)).push(b.last().value));
        }
    }
}

/// The entry at position `p` is the `n`-th value of its slot when exactly `n`
/// values of the slot stand before it.
pub proof fn lemma_slot_at(entries: Seq<EntryView>, field_id: FieldId, wire: Wire, p: int)
    requires
        0 <= p < entries.len(),
        in_slot(entries[p], field_id, wire),
    ensures
        slot(entries.take(p), field_id, wire).len() < slot(entries, field_id, wire).len(),
        slot(entries, field_id, wire)[slot(entries.take(p), field_id, wire).len() as int]
            == entries[p].value,
{
    let before = entries.take(p);
    let after = entries.skip(p + 1);
    assert(entries =~= before.push(entries[p]) + after);
    lemma_slot_concat(before.push(entries[p]), after, field_id, wire);
    lemma_slot_push(before, entries[p], field_id, wire);
}

/// Clearing a field empties its slots and leaves every other slot as it was.
pub proof fn lemma_slot_without_field(
    entries: Seq<EntryView>,
    cleared: FieldId,
    field_id: FieldId,
    wire: Wire,
)
    ensures
        slot(without_field(entries, cleared), field_id, wire) == if field_id == cleared {
            Seq::<ValueView>::empty()
        } else {
            slot(entries, field_id, wire)
        },
    decreases entries.len(),
{
    if entries.len() > 0 {
        lemma_slot_without_field(entries.drop_last(), cleared, field_id, wire);
        if entries.last().field_id != cleared {
            lemma_slot_push(
                without_field(entries.drop_last(), cleared),
                entries.last(),
                field_id,
                wire,
            );
        }
    }
}

/// Clearing a field twice is clearing it once.
pub proof fn lemma_without_field_idempotent(entries: Seq<EntryView>, field_id: FieldId)
    ensures
        without_field(without_field(entries, field_id), field_id) == without_field(
            entries,
            field_id,
        ),
    decreases entries.len(),
{
    if entries.len() > 0 {
        lemma_without_field_idempotent(entries.drop_last(), field_id);
        if entries.last().field_id != field_id {
            let front = without_field(entries.drop_last(), field_id);
            assert(front.push(entries.last()).drop_last() =~= front);
        }
    }
}

/// Replacing the value at position `p`, the `n`-th of its slot, is what
/// `with_nth` describes.
pub proof fn lemma_with_nth_is_update(
    entries: Seq<EntryView>,
    field_id: FieldId,
    wire: Wire,
    p: int,
    value: ValueView,
)
    requires
        0 <= p < entries.len(),
        in_slot(entries[p], field_id, wire),
    ensures
        with_nth(
            entries,
            field_id,
            wire,
            slot(entries.take(p), field_id, wire).len() as int,
            value,
        ) == entries.update(p, EntryView { field_id, value }),
    decreases entries.len(),
{
    let n = slot(entries.take(p), field_id, wire).len() as int;
    let front = entries.drop_last();
    if p == entries.len() - 1 {
        assert(entries.take(p) =~= front);
        assert(entries.update(p, EntryView { field_id, value }) =~= front.push(
            EntryView { field_id, value },
        ));
    } else {
        assert(front.take(p) =~= entries.take(p));
        lemma_with_nth_is_update(front, field_id, wire, p, value);
        lemma_slot_at(front, field_id, wire, p);
        assert(entries.update(p, EntryView { field_id, value }) =~= front.update(
            p,
            EntryView { field_id, value },
        ).push(entries.last()));
    }
}

/// Replacing the `n`-th value of a slot by one of the same wire class changes
/// that one value of the slot and nothing else in the object.
pub proof fn lemma_slot_with_nth(
    entries: Seq<EntryView>,
    field_id: FieldId,
    wire: Wire,
    n: int,
    value: ValueView,
    other_field: FieldId,
    other_wire: Wire,
)
    requires
        0 <= n < slot(entries, field_id, wire).len(),
        value.wire() == wire,
    ensures
        with_nth(entries, field_id, wire, n, value).len() == entries.len(),
        slot(with_nth(entries, field_id, wire, n, value), other_field, other_wire) == if other_field
            == field_id && other_wire == wire {
            slot(entries, field_id, wire).update(n, value)
        } else {
            slot(entries, other_field, other_wire)
        },
    decreases entries.len(),
{
    let front = entries.drop_last();
    let last = entries.last();
    let replaced = EntryView { field_id, value };
    if in_slot(last, field_id, wire) && slot(front, field_id, wire).len() == n {
        lemma_slot_push(front, replaced, other_field, other_wire);
        if other_field == field_id && other_wire == wire {
            assert(slot(front, field_id, wire).push(value) =~= slot(entries, field_id, wire).update(
                n,
                value,
            ));
        }
    } else {
        lemma_slot_with_nth(front, field_id, wire, n, value, other_field, other_wire);
        lemma_slot_push(with_nth(front, field_id, wire, n, value), last, other_field, other_wire);
        if other_field == field_id && other_wire == wire && in_slot(last, field_id, wire) {
            assert(slot(front, field_id, wire).update(n, value).push(last.value) =~= slot(
                entries,
                field_id,
                wire,
            ).update(n, value));
        }
    }
}

} // verus!
