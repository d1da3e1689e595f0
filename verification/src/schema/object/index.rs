use crate::schema::object::kind::{
    bool_value, clamp, decode_bool, decode_signed_32, decode_signed_64, decode_sint32,
    decode_sint64, decode_unsigned_32, values, Kind,
};
use crate::schema::object::model::{byte_values, clamp_count, objects, with_nth, ValueView, Wire};
use crate::schema::object::text::{decode_text, spells};
use crate::schema::object::{Object, SchemaError};
use crate::schema::{EntityId, FieldId};
use vstd::prelude::*;
use vstd::utf8::valid_utf8;

verus! {

impl Object {
    /// The boolean at position `index` under `field_id`, counted from zero.
    pub fn index_bool(&self, field_id: FieldId, index: u32) -> (r: Result<bool, SchemaError>)
        ensures
            match r {
                Ok(value) => index < values(self@, Kind::Bool, field_id).len() && bool_value(value)
                    == values(self@, Kind::Bool, field_id)[index as int],
                Err(e) => e == SchemaError::IndexOutOfRange && values(
                    self@,
                    Kind::Bool,
                    field_id,
                ).len() <= index,
            },
    {
        match self.scalar_at(field_id, Wire::Varint, index as usize) {
            Some(bits) => Ok(decode_bool(bits)),
            None => Err(SchemaError::IndexOutOfRange),
        }
    }

    /// The 32-bit float, as its bit pattern, at position `index` under
    /// `field_id`, counted from zero.
    pub fn index_float(&self, field_id: FieldId, index: u32) -> (r: Result<u32, SchemaError>)
        ensures
            match r {
                Ok(value) => index < values(self@, Kind::Float, field_id).len() && value as int
                    == values(self@, Kind::Float, field_id)[index as int],
                Err(e) => e == SchemaError::IndexOutOfRange && values(
                    self@,
                    Kind::Float,
                    field_id,
                ).len() <= index,
            },
    {
        match self.scalar_at(field_id, Wire::Fixed32, index as usize) {
            Some(bits) => Ok(decode_unsigned_32(bits)),
            None => Err(SchemaError::IndexOutOfRange),
        }
    }

    /// The 64-bit float, as its bit pattern, at position `index` under
    /// `field_id`, counted from zero.
    pub fn index_double(&self, field_id: FieldId, index: u32) -> (r: Result<u64, SchemaError>)
        ensures
            match r {
                Ok(value) => index < values(self@, Kind::Double, field_id).len() && value as int
                    == values(self@, Kind::Double, field_id)[index as int],
                Err(e) => e == SchemaError::IndexOutOfRange && values(
                    self@,
                    Kind::Double,
                    field_id,
                ).len() <= index,
            },
    {
        match self.scalar_at(field_id, Wire::Fixed64, index as usize) {
            Some(bits) => Ok(bits),
            None => Err(SchemaError::IndexOutOfRange),
        }
    }

    /// The signed 32-bit integer at position `index` under `field_id`, counted
    /// from zero.
    pub fn index_int32(&self, field_id: FieldId, index: u32) -> (r: Result<i32, SchemaError>)
        ensures
            match r {
                Ok(value) => index < values(self@, Kind::Int32, field_id).len() && value as int
                    == values(self@, Kind::Int32, field_id)[index as int],
                Err(e) => e == SchemaError::IndexOutOfRange && values(
                    self@,
                    Kind::Int32,
                    field_id,
                ).len() <= index,
            },
    {
        match self.scalar_at(field_id, Wire::Varint, index as usize) {
            Some(bits) => Ok(decode_signed_32(bits)),
            None => Err(SchemaError::IndexOutOfRange),
        }
    }

    /// The signed 64-bit integer at position `index` under `field_id`, counted
    /// from zero.
    pub fn index_int64(&self, field_id: FieldId, index: u32) -> (r: Result<i64, SchemaError>)
        ensures
            match r {
                Ok(value) => index < values(self@, Kind::Int64, field_id).len() && value as int
                    == values(self@, Kind::Int64, field_id)[index as int],
                Err(e) => e == SchemaError::IndexOutOfRange && values(
                    self@,
                    Kind::Int64,
                    field_id,
                ).len() <= index,
            },
    {
        match self.scalar_at(field_id, Wire::Varint, index as usize) {
            Some(bits) => Ok(decode_signed_64(bits)),
            None => Err(SchemaError::IndexOutOfRange),
        }
    }

    /// The unsigned 32-bit integer at position `index` under `field_id`,
    /// counted from zero.
    pub fn index_uint32(&self, field_id: FieldId, index: u32) -> (r: Result<u32, SchemaError>)
        ensures
            match r {
                Ok(value) => index < values(self@, Kind::Uint32, field_id).len() && value as int
                    == values(self@, Kind::Uint32, field_id)[index as int],
                Err(e) => e == SchemaError::IndexOutOfRange && values(
                    self@,
                    Kind::Uint32,
                    field_id,
                ).len() <= index,
            },
    {
        match self.scalar_at(field_id, Wire::Varint, index as usize) {
            Some(bits) => Ok(decode_unsigned_32(bits)),
            None => Err(SchemaError::IndexOutOfRange),
        }
    }

    /// The unsigned 64-bit integer at position `index` under `field_id`,
    /// counted from zero.
    pub fn index_uint64(&self, field_id: FieldId, index: u32) -> (r: Result<u64, SchemaError>)
        ensures
            match r {
                Ok(value) => index < values(self@, Kind::Uint64, field_id).len() && value as int
                    == values(self@, Kind::Uint64, field_id)[index as int],
                Err(e) => e == SchemaError::IndexOutOfRange && values(
                    self@,
                    Kind::Uint64,
                    field_id,
                ).len() <= index,
            },
    {
        match self.scalar_at(field_id, Wire::Varint, index as usize) {
            Some(bits) => Ok(bits),
            None => Err(SchemaError::IndexOutOfRange),
        }
    }

    /// The zigzag-coded signed 32-bit integer at position `index` under
    /// `field_id`, counted from zero.
    pub fn index_sint32(&self, field_id: FieldId, index: u32) -> (r: Result<i32, SchemaError>)
        ensures
            match r {
                Ok(value) => index < values(self@, Kind::Sint32, field_id).len() && value as int
                    == values(self@, Kind::Sint32, field_id)[index as int],
                Err(e) => e == SchemaError::IndexOutOfRange && values(
                    self@,
                    Kind::Sint32,
                    field_id,
                ).len() <= index,
            },
    {
        match self.scalar_at(field_id, Wire::Varint, index as usize) {
            Some(bits) => Ok(decode_sint32(bits)),
            None => Err(SchemaError::IndexOutOfRange),
        }
    }

    /// The zigzag-coded signed 64-bit integer at position `index` under
    /// `field_id`, counted from zero.
    pub fn index_sint64(&self, field_id: FieldId, index: u32) -> (r: Result<i64, SchemaError>)
        ensures
            match r {
                Ok(value) => index < values(self@, Kind::Sint64, field_id).len() && value as int
                    == values(self@, Kind::Sint64, field_id)[index as int],
                Err(e) => e == SchemaError::IndexOutOfRange && values(
                    self@,
                    Kind::Sint64,
                    field_id,
                ).len() <= index,
            },
    {
        match self.scalar_at(field_id, Wire::Varint, index as usize) {
            Some(bits) => Ok(decode_sint64(bits)),
            None => Err(SchemaError::IndexOutOfRange),
        }
    }

    /// The fixed-width unsigned 32-bit integer at position `index` under
    /// `field_id`, counted from zero.
    pub fn index_fixed32(&self, field_id: FieldId, index: u32) -> (r: Result<u32, SchemaError>)
        ensures
            match r {
                Ok(value) => index < values(self@, Kind::Fixed32, field_id).len() && value as int
                    == values(self@, Kind::Fixed32, field_id)[index as int],
                Err(e) => e == SchemaError::IndexOutOfRange && values(
                    self@,
                    Kind::Fixed32,
                    field_id,
                ).len() <= index,
            },
    {
        match self.scalar_at(field_id, Wire::Fixed32, index as usize) {
            Some(bits) => Ok(decode_unsigned_32(bits)),
            None => Err(SchemaError::IndexOutOfRange),
        }
    }

    /// The fixed-width unsigned 64-bit integer at position `index` under
    /// `field_id`, counted from zero.
    pub fn index_fixed64(&self, field_id: FieldId, index: u32) -> (r: Result<u64, SchemaError>)
        ensures
            match r {
                Ok(value) => index < values(self@, Kind::Fixed64, field_id).len() && value as int
                    == values(self@, Kind::Fixed64, field_id)[index as int],
                Err(e) => e == SchemaError::IndexOutOfRange && values(
                    self@,
                    Kind::Fixed64,
                    field_id,
                ).len() <= index,
            },
    {
        match self.scalar_at(field_id, Wire::Fixed64, index as usize) {
            Some(bits) => Ok(bits),
            None => Err(SchemaError::IndexOutOfRange),
        }
    }

    /// The fixed-width signed 32-bit integer at position `index` under
    /// `field_id`, counted from zero.
    pub fn index_sfixed32(&self, field_id: FieldId, index: u32) -> (r: Result<i32, SchemaError>)
        ensures
            match r {
                Ok(value) => index < values(self@, Kind::Sfixed32, field_id).len() && value as int
                    == values(self@, Kind::Sfixed32, field_id)[index as int],
                Err(e) => e == SchemaError::IndexOutOfRange && values(
                    self@,
                    Kind::Sfixed32,
                    field_id,
                ).len() <= index,
            },
    {
        match self.scalar_at(field_id, Wire::Fixed32, index as usize) {
            Some(bits) => Ok(decode_signed_32(bits)),
            None => Err(SchemaError::IndexOutOfRange),
        }
    }

    /// The fixed-width signed 64-bit integer at position `index` under
    /// `field_id`, counted from zero.
    pub fn index_sfixed64(&self, field_id: FieldId, index: u32) -> (r: Result<i64, SchemaError>)
        ensures
            match r {
                Ok(value) => index < values(self@, Kind::Sfixed64, field_id).len() && value as int
                    == values(self@, Kind::Sfixed64, field_id)[index as int],
                Err(e) => e == SchemaError::IndexOutOfRange && values(
                    self@,
                    Kind::Sfixed64,
                    field_id,
                ).len() <= index,
            },
    {
        match self.scalar_at(field_id, Wire::Fixed64, index as usize) {
            Some(bits) => Ok(decode_signed_64(bits)),
            None => Err(SchemaError::IndexOutOfRange),
        }
    }

    /// The entity id at position `index` under `field_id`, counted from zero.
    pub fn index_entity_id(&self, field_id: FieldId, index: u32) -> (r: Result<
        EntityId,
        SchemaError,
    >)
        ensures
            match r {
                Ok(value) => index < values(self@, Kind::EntityId, field_id).len() && value as int
                    == values(self@, Kind::EntityId, field_id)[index as int],
                Err(e) => e == SchemaError::IndexOutOfRange && values(
                    self@,
                    Kind::EntityId,
                    field_id,
                ).len() <= index,
            },
    {
        match self.scalar_at(field_id, Wire::Varint, index as usize) {
            Some(bits) => Ok(decode_signed_64(bits)),
            None => Err(SchemaError::IndexOutOfRange),
        }
    }

    /// The enum value at position `index` under `field_id`, mapped by the
    /// caller's conversion from the stored unsigned 32-bit number.
    pub fn index_enum<E: From<u32>>(&self, field_id: FieldId, index: u32) -> (r: Result<
        E,
        SchemaError,
    >)
        ensures
            match r {
                Ok(value) => index < values(self@, Kind::Enum, field_id).len() && call_ensures(
                    E::from,
                    (values(self@, Kind::Enum, field_id)[index as int] as u32,),
                    value,
                ),
                Err(e) => e == SchemaError::IndexOutOfRange && values(
                    self@,
                    Kind::Enum,
                    field_id,
                ).len() <= index,
            },
    {
        match self.index_uint32(field_id, index) {
            Ok(number) => Ok(E::from(number)),
            Err(e) => Err(e),
        }
    }

    /// A view of the nested object at position `index` under `field_id`. The
    /// view aliases this object's storage: what is written through it is what
    /// this object then holds.
    pub fn index_object(&mut self, field_id: FieldId, index: u32) -> (r: Result<
        &mut Object,
        SchemaError,
    >)
        ensures
            match r {
                Ok(child) => {
                    &&& index < objects(old(self)@, field_id).len()
                    &&& child@ == objects(old(self)@, field_id)[index as int]
                    &&& final(self)@ == with_nth(
                        old(self)@,
                        field_id,
                        Wire::Object,
                        index as int,
                        ValueView::Object(final(child)@),
                    )
                },
                Err(e) => {
                    &&& e == SchemaError::IndexOutOfRange
                    &&& objects(old(self)@, field_id).len() <= index
                    &&& final(self)@ == old(self)@
                },
            },
            final(self).buffers() == old(self).buffers(),
    {
        match self.object_at(field_id, index as usize) {
            Some(child) => Ok(child),
            None => Err(SchemaError::IndexOutOfRange),
        }
    }

    /// The length of the byte span at position `index` under `field_id`.
    pub fn index_bytes_length(&self, field_id: FieldId, index: u32) -> (r: Result<
        u32,
        SchemaError,
    >)
        ensures
            match r {
                Ok(length) => index < byte_values(self@, field_id).len() && length == clamp_count(
                    byte_values(self@, field_id)[index as int].len(),
                ),
                Err(e) => e == SchemaError::IndexOutOfRange && byte_values(self@, field_id).len()
                    <= index,
            },
    {
        match self.bytes_len_at(field_id, index as usize) {
            Some(length) => Ok(clamp(length)),
            None => Err(SchemaError::IndexOutOfRange),
        }
    }

    /// A copy of the byte span at position `index` under `field_id`.
    pub fn index_bytes(&self, field_id: FieldId, index: u32) -> (r: Result<Vec<u8>, SchemaError>)
        ensures
            match r {
                Ok(data) => index < byte_values(self@, field_id).len() && data@ == byte_values(
                    self@,
                    field_id,
                )[index as int],
                Err(e) => e == SchemaError::IndexOutOfRange && byte_values(self@, field_id).len()
                    <= index,
            },
    {
        match self.bytes_at(field_id, index as usize) {
            Some(data) => Ok(data),
            None => Err(SchemaError::IndexOutOfRange),
        }
    }

    /// The byte span at position `index` under `field_id`, read as text. An
    /// index past the end is `IndexOutOfRange`; bytes that are not well-formed
    /// UTF-8 are `Encoding`.
    pub fn index_string(&self, field_id: FieldId, index: u32) -> (r: Result<String, SchemaError>)
        ensures
            match r {
                Ok(text) => {
                    &&& index < byte_values(self@, field_id).len()
                    &&& spells(byte_values(self@, field_id)[index as int], text@)
                },
                Err(SchemaError::IndexOutOfRange) => byte_values(self@, field_id).len() <= index,
                Err(SchemaError::Encoding) => {
                    &&& index < byte_values(self@, field_id).len()
                    &&& !valid_utf8(byte_values(self@, field_id)[index as int])
                },
            },
    {
        match self.bytes_at(field_id, index as usize) {
            Some(data) => match decode_text(data) {
                Some(text) => Ok(text),
                None => Err(SchemaError::Encoding),
            },
            None => Err(SchemaError::IndexOutOfRange),
        }
    }
}

} // verus!
