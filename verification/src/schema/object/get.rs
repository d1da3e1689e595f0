use crate::schema::object::kind::{
    bool_value, clamp, current_value, decode_bool, decode_signed_32, decode_signed_64,
    decode_sint32, decode_sint64, decode_unsigned_32, Kind,
};
use crate::schema::object::model::{
    clamp_count, current_bytes, current_object, objects, with_nth, ValueView, Wire,
};
use crate::schema::object::text::{decode_text, spells};
use crate::schema::object::{Object, SchemaError};
use crate::schema::{EntityId, FieldId};
use vstd::prelude::*;
use vstd::utf8::valid_utf8;

verus! {

impl Object {
    /// The boolean added last under `field_id`, or `false` when the field
    /// holds none.
    pub fn get_bool(&self, field_id: FieldId) -> (value: bool)
        ensures
            bool_value(value) == current_value(self@, Kind::Bool, field_id),
    {
        match self.scalar_latest(field_id, Wire::Varint) {
            Some(bits) => decode_bool(bits),
            None => false,
        }
    }

    /// The 32-bit float, as its bit pattern, added last under `field_id`, or
    /// zero when the field holds none.
    pub fn get_float(&self, field_id: FieldId) -> (value: u32)
        ensures
            value as int == current_value(self@, Kind::Float, field_id),
    {
        match self.scalar_latest(field_id, Wire::Fixed32) {
            Some(bits) => decode_unsigned_32(bits),
            None => 0,
        }
    }

    /// The 64-bit float, as its bit pattern, added last under `field_id`, or
    /// zero when the field holds none.
    pub fn get_double(&self, field_id: FieldId) -> (value: u64)
        ensures
            value as int == current_value(self@, Kind::Double, field_id),
    {
        match self.scalar_latest(field_id, Wire::Fixed64) {
            Some(bits) => bits,
            None => 0,
        }
    }

    /// The signed 32-bit integer added last under `field_id`, or zero when the
    /// field holds none.
    pub fn get_int32(&self, field_id: FieldId) -> (value: i32)
        ensures
            value as int == current_value(self@, Kind::Int32, field_id),
    {
        match self.scalar_latest(field_id, Wire::Varint) {
            Some(bits) => decode_signed_32(bits),
            None => 0,
        }
    }

    /// The signed 64-bit integer added last under `field_id`, or zero when the
    /// field holds none.
    pub fn get_int64(&self, field_id: FieldId) -> (value: i64)
        ensures
            value as int == current_value(self@, Kind::Int64, field_id),
    {
        match self.scalar_latest(field_id, Wire::Varint) {
            Some(bits) => decode_signed_64(bits),
            None => 0,
        }
    }

    /// The unsigned 32-bit integer added last under `field_id`, or zero when
    /// the field holds none.
    pub fn get_uint32(&self, field_id: FieldId) -> (value: u32)
        ensures
            value as int == current_value(self@, Kind::Uint32, field_id),
    {
        match self.scalar_latest(field_id, Wire::Varint) {
            Some(bits) => decode_unsigned_32(bits),
            None => 0,
        }
    }

    /// The unsigned 64-bit integer added last under `field_id`, or zero when
    /// the field holds none.
    pub fn get_uint64(&self, field_id: FieldId) -> (value: u64)
        ensures
            value as int == current_value(self@, Kind::Uint64, field_id),
    {
        match self.scalar_latest(field_id, Wire::Varint) {
            Some(bits) => bits,
            None => 0,
        }
    }

    /// The zigzag-coded signed 32-bit integer added last under `field_id`, or
    /// zero when the field holds none.
    pub fn get_sint32(&self, field_id: FieldId) -> (value: i32)
        ensures
            value as int == current_value(self@, Kind::Sint32, field_id),
    {
        match self.scalar_latest(field_id, Wire::Varint) {
            Some(bits) => decode_sint32(bits),
            None => 0,
        }
    }

    /// The zigzag-coded signed 64-bit integer added last under `field_id`, or
    /// zero when the field holds none.
    pub fn get_sint64(&self, field_id: FieldId) -> (value: i64)
        ensures
            value as int == current_value(self@, Kind::Sint64, field_id),
    {
        match self.scalar_latest(field_id, Wire::Varint) {
            Some(bits) => decode_sint64(bits),
            None => 0,
        }
    }

    /// The fixed-width unsigned 32-bit integer added last under `field_id`, or
    /// zero when the field holds none.
    pub fn get_fixed32(&self, field_id: FieldId) -> (value: u32)
        ensures
            value as int == current_value(self@, Kind::Fixed32, field_id),
    {
        match self.scalar_latest(field_id, Wire::Fixed32) {
            Some(bits) => decode_unsigned_32(bits),
            None => 0,
        }
    }

    /// The fixed-width unsigned 64-bit integer added last under `field_id`, or
    /// zero when the field holds none.
    pub fn get_fixed64(&self, field_id: FieldId) -> (value: u64)
        ensures
            value as int == current_value(self@, Kind::Fixed64, field_id),
    {
        match self.scalar_latest(field_id, Wire::Fixed64) {
            Some(bits) => bits,
            None => 0,
        }
    }

    /// The fixed-width signed 32-bit integer added last under `field_id`, or
    /// zero when the field holds none.
    pub fn get_sfixed32(&self, field_id: FieldId) -> (value: i32)
        ensures
            value as int == current_value(self@, Kind::Sfixed32, field_id),
    {
        match self.scalar_latest(field_id, Wire::Fixed32) {
            Some(bits) => decode_signed_32(bits),
            None => 0,
        }
    }

    /// The fixed-width signed 64-bit integer added last under `field_id`, or
    /// zero when the field holds none.
    pub fn get_sfixed64(&self, field_id: FieldId) -> (value: i64)
        ensures
            value as int == current_value(self@, Kind::Sfixed64, field_id),
    {
        match self.scalar_latest(field_id, Wire::Fixed64) {
            Some(bits) => decode_signed_64(bits),
            None => 0,
        }
    }

    /// The entity id added last under `field_id`, or zero when the field holds
    /// none.
    pub fn get_entity_id(&self, field_id: FieldId) -> (value: EntityId)
        ensures
            value as int == current_value(self@, Kind::EntityId, field_id),
    {
        match self.scalar_latest(field_id, Wire::Varint) {
            Some(bits) => decode_signed_64(bits),
            None => 0,
        }
    }

    /// The enum value added last under `field_id`, or the value for number
    /// zero when the field holds none, mapped by the caller's conversion from
    /// the stored unsigned 32-bit number.
    pub fn get_enum<E: From<u32>>(&self, field_id: FieldId) -> (value: E)
        ensures
            call_ensures(E::from, (current_value(self@, Kind::Enum, field_id) as u32,), value),
    {
        E::from(self.get_uint32(field_id))
    }

    /// A view of the nested object added last under `field_id`. The view
    /// aliases this object's storage: what is written through it is what this
    /// object then holds. When the field holds no object the view is of an
    /// empty object that belongs to no field, and this object's entries stay
    /// as they are.
    pub fn get_object(&mut self, field_id: FieldId) -> (child: &mut Object)
        ensures
            child@ == current_object(old(self)@, field_id),
            final(self)@ == if objects(old(self)@, field_id).len() > 0 {
                with_nth(
                    old(self)@,
                    field_id,
                    Wire::Object,
                    objects(old(self)@, field_id).len() - 1,
                    ValueView::Object(final(child)@),
                )
            } else {
                old(self)@
            },
            final(self).buffers() == old(self).buffers(),
    {
        let count = self.slot_len(field_id, Wire::Object);
        if count > 0 {
            match self.object_at(field_id, count - 1) {
                Some(child) => child,
                None => unreached(),
            }
        } else {
            self.detached_object()
        }
    }

    /// A copy of the byte span added last under `field_id`, empty when the
    /// field holds none.
    pub fn get_bytes(&self, field_id: FieldId) -> (data: Vec<u8>)
        ensures
            data@ == current_bytes(self@, field_id),
    {
        let count = self.slot_len(field_id, Wire::Bytes);
        if count == 0 {
            return Vec::new();
        }
        match self.bytes_at(field_id, count - 1) {
            Some(data) => data,
            None => Vec::new(),
        }
    }

    /// The length of the byte span added last under `field_id`, zero when the
    /// field holds none.
    pub fn get_bytes_length(&self, field_id: FieldId) -> (length: u32)
        ensures
            length == clamp_count(current_bytes(self@, field_id).len()),
    {
        let count = self.slot_len(field_id, Wire::Bytes);
        if count == 0 {
            return 0;
        }
        match self.bytes_len_at(field_id, count - 1) {
            Some(length) => clamp(length),
            None => 0,
        }
    }

    /// The byte span added last under `field_id`, read as text. An unset field
    /// reads as the empty string. Bytes that are not well-formed UTF-8 are an
    /// `Encoding` error, never a shortened string.
    pub fn get_string(&self, field_id: FieldId) -> (r: Result<String, SchemaError>)
        ensures
            match r {
                Ok(text) => spells(current_bytes(self@, field_id), text@),
                Err(e) => e == SchemaError::Encoding && !valid_utf8(current_bytes(self@, field_id)),
            },
    {
        match decode_text(self.get_bytes(field_id)) {
            Some(text) => Ok(text),
            None => Err(SchemaError::Encoding),
        }
    }
}

} // verus!
