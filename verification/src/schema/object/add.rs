use crate::schema::object::kind::{
    bool_value, encode_bool, encode_int32, encode_sfixed32, encode_signed_64, encode_sint32,
    encode_sint64, scalar_entry, Kind,
};
use crate::schema::object::model::{EntryView, ValueView, Wire};
use crate::schema::object::Object;
use crate::schema::{EntityId, FieldId};
use vstd::prelude::*;
use vstd::utf8::encode_utf8;

verus! {

impl Object {
    /// Appends one boolean to the values stored under `field_id`.
    pub fn add_bool(&mut self, field_id: FieldId, value: bool)
        ensures
            final(self)@ == old(self)@.push(scalar_entry(field_id, Kind::Bool, bool_value(value))),
            final(self).buffers() == old(self).buffers(),
    {
        self.put_scalar(field_id, Wire::Varint, encode_bool(value));
    }

    /// Appends one 32-bit float, as its bit pattern, to the values stored
    /// under `field_id`.
    pub fn add_float(&mut self, field_id: FieldId, value: u32)
        ensures
            final(self)@ == old(self)@.push(scalar_entry(field_id, Kind::Float, value as int)),
            final(self).buffers() == old(self).buffers(),
    {
        self.put_scalar(field_id, Wire::Fixed32, value as u64);
    }

    /// Appends one 64-bit float, as its bit pattern, to the values stored
    /// under `field_id`.
    pub fn add_double(&mut self, field_id: FieldId, value: u64)
        ensures
            final(self)@ == old(self)@.push(scalar_entry(field_id, Kind::Double, value as int)),
            final(self).buffers() == old(self).buffers(),
    {
        self.put_scalar(field_id, Wire::Fixed64, value);
    }

    /// Appends one signed 32-bit integer to the values stored under
    /// `field_id`.
    pub fn add_int32(&mut self, field_id: FieldId, value: i32)
        ensures
            final(self)@ == old(self)@.push(scalar_entry(field_id, Kind::Int32, value as int)),
            final(self).buffers() == old(self).buffers(),
    {
        self.put_scalar(field_id, Wire::Varint, encode_int32(value));
    }

    /// Appends one signed 64-bit integer to the values stored under
    /// `field_id`.
    pub fn add_int64(&mut self, field_id: FieldId, value: i64)
        ensures
            final(self)@ == old(self)@.push(scalar_entry(field_id, Kind::Int64, value as int)),
            final(self).buffers() == old(self).buffers(),
    {
        self.put_scalar(field_id, Wire::Varint, encode_signed_64(value));
    }

    /// Appends one unsigned 32-bit integer to the values stored under
    /// `field_id`.
    pub fn add_uint32(&mut self, field_id: FieldId, value: u32)
        ensures
            final(self)@ == old(self)@.push(scalar_entry(field_id, Kind::Uint32, value as int)),
            final(self).buffers() == old(self).buffers(),
    {
        self.put_scalar(field_id, Wire::Varint, value as u64);
    }

    /// Appends one unsigned 64-bit integer to the values stored under
    /// `field_id`.
    pub fn add_uint64(&mut self, field_id: FieldId, value: u64)
        ensures
            final(self)@ == old(self)@.push(scalar_entry(field_id, Kind::Uint64, value as int)),
            final(self).buffers() == old(self).buffers(),
    {
        self.put_scalar(field_id, Wire::Varint, value);
    }

    /// Appends one zigzag-coded signed 32-bit integer to the values stored
    /// under `field_id`.
    pub fn add_sint32(&mut self, field_id: FieldId, value: i32)
        ensures
            final(self)@ == old(self)@.push(scalar_entry(field_id, Kind::Sint32, value as int)),
            final(self).buffers() == old(self).buffers(),
    {
        self.put_scalar(field_id, Wire::Varint, encode_sint32(value));
    }

    /// Appends one zigzag-coded signed 64-bit integer to the values stored
    /// under `field_id`.
    pub fn add_sint64(&mut self, field_id: FieldId, value: i64)
        ensures
            final(self)@ == old(self)@.push(scalar_entry(field_id, Kind::Sint64, value as int)),
            final(self).buffers() == old(self).buffers(),
    {
        self.put_scalar(field_id, Wire::Varint, encode_sint64(value));
    }

    /// Appends one fixed-width unsigned 32-bit integer to the values stored
    /// under `field_id`.
    pub fn add_fixed32(&mut self, field_id: FieldId, value: u32)
        ensures
            final(self)@ == old(self)@.push(scalar_entry(field_id, Kind::Fixed32, value as int)),
            final(self).buffers() == old(self).buffers(),
    {
        self.put_scalar(field_id, Wire::Fixed32, value as u64);
    }

    /// Appends one fixed-width unsigned 64-bit integer to the values stored
    /// under `field_id`.
    pub fn add_fixed64(&mut self, field_id: FieldId, value: u64)
        ensures
            final(self)@ == old(self)@.push(scalar_entry(field_id, Kind::Fixed64, value as int)),
            final(self).buffers() == old(self).buffers(),
    {
        self.put_scalar(field_id, Wire::Fixed64, value);
    }

    /// Appends one fixed-width signed 32-bit integer to the values stored
    /// under `field_id`.
    pub fn add_sfixed32(&mut self, field_id: FieldId, value: i32)
        ensures
            final(self)@ == old(self)@.push(scalar_entry(field_id, Kind::Sfixed32, value as int)),
            final(self).buffers() == old(self).buffers(),
    {
        self.put_scalar(field_id, Wire::Fixed32, encode_sfixed32(value));
    }

    /// Appends one fixed-width signed 64-bit integer to the values stored
    /// under `field_id`.
    pub fn add_sfixed64(&mut self, field_id: FieldId, value: i64)
        ensures
            final(self)@ == old(self)@.push(scalar_entry(field_id, Kind::Sfixed64, value as int)),
            final(self).buffers() == old(self).buffers(),
    {
        self.put_scalar(field_id, Wire::Fixed64, encode_signed_64(value));
    }

    /// Appends one entity id to the values stored under `field_id`.
    pub fn add_entity_id(&mut self, field_id: FieldId, value: EntityId)
        ensures
            final(self)@ == old(self)@.push(scalar_entry(field_id, Kind::EntityId, value as int)),
            final(self).buffers() == old(self).buffers(),
    {
        self.put_scalar(field_id, Wire::Varint, encode_signed_64(value));
    }

    /// Appends one enum value, stored as the unsigned 32-bit number that the
    /// caller's conversion gives for it.
    pub fn add_enum<E: Into<u32>>(&mut self, field_id: FieldId, value: E)
        ensures
            (exists|number: u32|
                call_ensures(E::into, (value,), number) && final(self)@ == old(self)@.push(
                    #[trigger] scalar_entry(field_id, Kind::Enum, number as int),
                )),
            final(self).buffers() == old(self).buffers(),
    {
        let number: u32 = value.into();
        self.put_scalar(field_id, Wire::Varint, number as u64);
        assert(self@ == old(self)@.push(scalar_entry(field_id, Kind::Enum, number as int)));
    }

    /// Appends a copy of `value` to the byte spans stored under `field_id`.
    pub fn add_bytes(&mut self, field_id: FieldId, value: &[u8])
        ensures
            final(self)@ == old(self)@.push(
                EntryView { field_id, value: ValueView::Bytes(value@) },
            ),
            final(self).buffers() == old(self).buffers(),
    {
        self.put_bytes(field_id, value);
    }

    /// Appends the UTF-8 bytes of `value` to the byte spans stored under
    /// `field_id`.
    pub fn add_string(&mut self, field_id: FieldId, value: &str)
        ensures
            final(self)@ == old(self)@.push(
                EntryView { field_id, value: ValueView::Bytes(encode_utf8(value@)) },
            ),
            final(self).buffers() == old(self).buffers(),
    {
        self.put_bytes(field_id, value.as_bytes());
    }

    /// Appends an empty nested object under `field_id` and returns a view of
    /// it. The view aliases this object's storage: what is written through it
    /// is what this object then holds.
    pub fn add_object(&mut self, field_id: FieldId) -> (child: &mut Object)
        ensures
            child@ == Seq::<EntryView>::empty(),
            final(self)@ == old(self)@.push(
                EntryView { field_id, value: ValueView::Object(final(child)@) },
            ),
            final(self).buffers() == old(self).buffers(),
    {
        self.put_object(field_id)
    }
}

} // verus!
