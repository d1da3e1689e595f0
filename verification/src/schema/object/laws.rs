//! What holds of every schema object, whatever was written to it.

use crate::schema::object::kind::{
    current_value, lemma_decode_encode, scalar_entries, scalar_entry, values, Kind,
};
use crate::schema::object::model::{
    byte_values, bytes_entries, clamp_count, current_bytes, current_object, lemma_slot_push,
    lemma_slot_with_nth, lemma_slot_without_field, lemma_without_field_idempotent, objects, slot,
    with_nth, without_field, EntryView, ValueView, Wire,
};
use crate::schema::object::text::spells;
use crate::schema::FieldId;
use vstd::prelude::*;
use vstd::utf8::{encode_utf8, encode_utf8_decode_utf8, encode_utf8_valid_utf8};

verus! {

/// Adding one value of a kind appends it to what a read as that kind finds
/// under the field.
pub proof fn law_add_appends(entries: Seq<EntryView>, kind: Kind, field_id: FieldId, value: int)
    requires
        kind.holds(value),
    ensures
        values(entries.push(scalar_entry(field_id, kind, value)), kind, field_id) == values(
            entries,
            kind,
            field_id,
        ).push(value),
{
    let entry = scalar_entry(field_id, kind, value);
    lemma_decode_encode(kind, value);
    lemma_slot_push(entries, entry, field_id, kind.wire());
    assert(kind.decode(entry.value.bits()) == value);
    assert(values(entries.push(entry), kind, field_id) =~= values(entries, kind, field_id).push(
        value,
    ));
}

/// Single-value round trip: a value that is added is the value that is
/// read, for every kind, field and value, on a freshly created object and on
/// any other. On an object that held nothing of the kind's wire class under
/// the field, the field then holds that one value.
pub proof fn law_add_then_get(entries: Seq<EntryView>, kind: Kind, field_id: FieldId, value: int)
    requires
        kind.holds(value),
    ensures
        current_value(entries.push(scalar_entry(field_id, kind, value)), kind, field_id) == value,
        slot(entries, field_id, kind.wire()).len() == 0 ==> values(
            entries.push(scalar_entry(field_id, kind, value)),
            kind,
            field_id,
        ) == seq![value],
{
    law_add_appends(entries, kind, field_id, value);
    if slot(entries, field_id, kind.wire()).len() == 0 {
        assert(values(entries, kind, field_id).push(value) =~= seq![value]);
    }
}

/// Adding a list of values of a kind appends them, in order, to what a read
/// as that kind finds under the field.
pub proof fn law_add_list_appends(
    entries: Seq<EntryView>,
    kind: Kind,
    field_id: FieldId,
    list: Seq<int>,
)
    requires
        forall|i: int| 0 <= i < list.len() ==> kind.holds(#[trigger] list[i]),
    ensures
        values(entries + scalar_entries(field_id, kind, list), kind, field_id) == values(
            entries,
            kind,
            field_id,
        ) + list,
    decreases list.len(),
{
    if list.len() == 0 {
        assert(entries + scalar_entries(field_id, kind, list) =~= entries);
        assert(values(entries, kind, field_id) + list =~= values(entries, kind, field_id));
    } else {
        let front = list.drop_last();
        let before = entries + scalar_entries(field_id, kind, front);
        law_add_list_appends(entries, kind, field_id, front);
        law_add_appends(before, kind, field_id, list.last());
        assert(entries + scalar_entries(field_id, kind, list) =~= before.push(
            scalar_entry(field_id, kind, list.last()),
        ));
        assert(values(entries, kind, field_id) + list =~= (values(entries, kind, field_id)
            + front).push(list.last()));
    }
}

/// List round trip: on an object that holds nothing of the kind's wire class
/// under the field, a list that is added is the list that is read, in the
/// same order, and the count is its length.
pub proof fn law_add_list_then_get_list(
    entries: Seq<EntryView>,
    kind: Kind,
    field_id: FieldId,
    list: Seq<int>,
)
    requires
        forall|i: int| 0 <= i < list.len() ==> kind.holds(#[trigger] list[i]),
        slot(entries, field_id, kind.wire()).len() == 0,
    ensures
        values(entries + scalar_entries(field_id, kind, list), kind, field_id) == list,
        list.len() <= u32::MAX ==> clamp_count(
            values(entries + scalar_entries(field_id, kind, list), kind, field_id).len(),
        ) == list.len(),
{
    law_add_list_appends(entries, kind, field_id, list);
    assert(values(entries, kind, field_id) + list =~= list);
}

/// Byte spans round trip: the spans that are added are the spans that are
/// read, in the same order, after those the field already held.
pub proof fn law_add_bytes_list_appends(
    entries: Seq<EntryView>,
    field_id: FieldId,
    spans: Seq<Seq<u8>>,
)
    ensures
        byte_values(entries + bytes_entries(field_id, spans), field_id) == byte_values(
            entries,
            field_id,
        ) + spans,
    decreases spans.len(),
{
    if spans.len() == 0 {
        assert(entries + bytes_entries(field_id, spans) =~= entries);
        assert(byte_values(entries, field_id) + spans =~= byte_values(entries, field_id));
    } else {
        let front = spans.drop_last();
        let before = entries + bytes_entries(field_id, front);
        let entry = EntryView { field_id, value: ValueView::Bytes(spans.last()) };
        law_add_bytes_list_appends(entries, field_id, front);
        lemma_slot_push(before, entry, field_id, Wire::Bytes);
        assert(entries + bytes_entries(field_id, spans) =~= before.push(entry));
        assert(byte_values(before.push(entry), field_id) =~= byte_values(before, field_id).push(
            spans.last(),
        ));
        assert(byte_values(entries, field_id) + spans =~= (byte_values(entries, field_id)
            + front).push(spans.last()));
    }
}

/// A byte span that is added is the span that a single-value read gives
/// back.
pub proof fn law_add_bytes_then_get(entries: Seq<EntryView>, field_id: FieldId, span: Seq<u8>)
    ensures
        current_bytes(
            entries.push(EntryView { field_id, value: ValueView::Bytes(span) }),
            field_id,
        ) == span,
{
    lemma_slot_push(
        entries,
        EntryView { field_id, value: ValueView::Bytes(span) },
        field_id,
        Wire::Bytes,
    );
}

/// A string that is added reads back as the same string: its stored bytes
/// are well-formed and spell it.
pub proof fn law_add_string_then_get(entries: Seq<EntryView>, field_id: FieldId, text: Seq<char>)
    ensures
        spells(
            current_bytes(
                entries.push(EntryView { field_id, value: ValueView::Bytes(encode_utf8(text)) }),
                field_id,
            ),
            text,
        ),
{
    law_add_bytes_then_get(entries, field_id, encode_utf8(text));
    encode_utf8_valid_utf8(text);
    encode_utf8_decode_utf8(text);
}

/// A nested object that is added is the object that a single-value read
/// gives a view of.
pub proof fn law_add_object_then_get(
    entries: Seq<EntryView>,
    field_id: FieldId,
    child: Seq<EntryView>,
)
    ensures
        current_object(
            entries.push(EntryView { field_id, value: ValueView::Object(child) }),
            field_id,
        ) == child,
{
    lemma_slot_push(
        entries,
        EntryView { field_id, value: ValueView::Object(child) },
        field_id,
        Wire::Object,
    );
}

/// After a field is cleared every count under it is zero, whatever kind it
/// is read as; what the other fields hold is as before.
pub proof fn law_clear_field_then_count(
    entries: Seq<EntryView>,
    field_id: FieldId,
    kind: Kind,
    other: FieldId,
)
    ensures
        values(without_field(entries, field_id), kind, field_id).len() == 0,
        byte_values(without_field(entries, field_id), field_id).len() == 0,
        objects(without_field(entries, field_id), field_id).len() == 0,
        other != field_id ==> {
            &&& values(without_field(entries, field_id), kind, other) == values(
                entries,
                kind,
                other,
            )
            &&& byte_values(without_field(entries, field_id), other) == byte_values(entries, other)
            &&& objects(without_field(entries, field_id), other) == objects(entries, other)
        },
{
    lemma_slot_without_field(entries, field_id, field_id, kind.wire());
    lemma_slot_without_field(entries, field_id, field_id, Wire::Bytes);
    lemma_slot_without_field(entries, field_id, field_id, Wire::Object);
    lemma_slot_without_field(entries, field_id, other, kind.wire());
    lemma_slot_without_field(entries, field_id, other, Wire::Bytes);
    lemma_slot_without_field(entries, field_id, other, Wire::Object);
}

/// Clearing a field is idempotent.
pub proof fn law_clear_field_idempotent(entries: Seq<EntryView>, field_id: FieldId)
    ensures
        without_field(without_field(entries, field_id), field_id) == without_field(
            entries,
            field_id,
        ),
{
    lemma_without_field_idempotent(entries, field_id);
}

/// A field that holds nothing reads as the zero of every kind, as the empty
/// byte span, as the empty string and as the empty object.
pub proof fn law_unset_field_reads_default(
    entries: Seq<EntryView>,
    field_id: FieldId,
    kind: Kind,
)
    requires
        forall|wire: Wire| (#[trigger] slot(entries, field_id, wire)).len() == 0,
    ensures
        values(entries, kind, field_id) == Seq::<int>::empty(),
        current_value(entries, kind, field_id) == 0,
        current_bytes(entries, field_id) == Seq::<u8>::empty(),
        spells(current_bytes(entries, field_id), Seq::<char>::empty()),
        current_object(entries, field_id) == Seq::<EntryView>::empty(),
{
    assert(slot(entries, field_id, kind.wire()).len() == 0);
    assert(slot(entries, field_id, Wire::Bytes).len() == 0);
    assert(slot(entries, field_id, Wire::Object).len() == 0);
    assert(values(entries, kind, field_id) =~= Seq::<int>::empty());
    assert(byte_values(entries, field_id).len() == 0);
    reveal_with_fuel(vstd::utf8::valid_utf8, 1);
    reveal_with_fuel(vstd::utf8::decode_utf8, 1);
    assert(vstd::utf8::decode_utf8(Seq::<u8>::empty()) =~= Seq::<char>::empty());
}

/// A read never fails to give a value of the kind it reads as, whatever
/// word is stored: a word written as another kind is reinterpreted.
pub proof fn law_read_is_total(kind: Kind, bits: u64)
    ensures
        kind.holds(kind.decode(bits)),
{
}

/// Writing through the view of a nested object changes that object where it
/// is stored in its parent, and nothing else: the parent has as many
/// entries as before, the nested object at that position is what the view
/// was left as, and every other value of every field is as it was.
pub proof fn law_view_aliases_parent(
    entries: Seq<EntryView>,
    field_id: FieldId,
    index: int,
    written: Seq<EntryView>,
    other_field: FieldId,
    kind: Kind,
)
    requires
        0 <= index < objects(entries, field_id).len(),
    ensures
        ({
            let after = with_nth(
                entries,
                field_id,
                Wire::Object,
                index,
                ValueView::Object(written),
            );
            &&& after.len() == entries.len()
            &&& objects(after, field_id) == objects(entries, field_id).update(index, written)
            &&& other_field != field_id ==> objects(after, other_field) == objects(
                entries,
                other_field,
            )
            &&& values(after, kind, other_field) == values(entries, kind, other_field)
            &&& byte_values(after, other_field) == byte_values(entries, other_field)
        }),
{
    let value = ValueView::Object(written);
    let after = with_nth(entries, field_id, Wire::Object, index, value);
    lemma_slot_with_nth(entries, field_id, Wire::Object, index, value, field_id, Wire::Object);
    lemma_slot_with_nth(entries, field_id, Wire::Object, index, value, other_field, Wire::Object);
    lemma_slot_with_nth(entries, field_id, Wire::Object, index, value, other_field, kind.wire());
    lemma_slot_with_nth(entries, field_id, Wire::Object, index, value, other_field, Wire::Bytes);
    assert(objects(after, field_id) =~= objects(entries, field_id).update(index, written));
}

/// A freshly created object holds nothing under any field.
pub proof fn law_fresh_object_is_unset(field_id: FieldId, wire: Wire)
    ensures
        slot(Seq::<EntryView>::empty(), field_id, wire).len() == 0,
{
}

} // verus!
