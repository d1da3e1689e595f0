use crate::schema::object::kind::{clamp, values, Kind};
use crate::schema::object::model::{byte_values, clamp_count, objects, Wire};
use crate::schema::object::Object;
use crate::schema::FieldId;
use vstd::prelude::*;

verus! {

impl Object {
    /// How many values a read as `bool` finds under `field_id`.
    pub fn get_bool_count(&self, field_id: FieldId) -> (count: u32)
        ensures
            count == clamp_count(values(self@, Kind::Bool, field_id).len()),
    {
        clamp(self.slot_len(field_id, Wire::Varint))
    }

    /// How many values a read as `float` finds under `field_id`.
    pub fn get_float_count(&self, field_id: FieldId) -> (count: u32)
        ensures
            count == clamp_count(values(self@, Kind::Float, field_id).len()),
    {
        clamp(self.slot_len(field_id, Wire::Fixed32))
    }

    /// How many values a read as `double` finds under `field_id`.
    pub fn get_double_count(&self, field_id: FieldId) -> (count: u32)
        ensures
            count == clamp_count(values(self@, Kind::Double, field_id).len()),
    {
        clamp(self.slot_len(field_id, Wire::Fixed64))
    }

    /// How many values a read as `int32` finds under `field_id`.
    pub fn get_int32_count(&self, field_id: FieldId) -> (count: u32)
        ensures
            count == clamp_count(values(self@, Kind::Int32, field_id).len()),
    {
        clamp(self.slot_len(field_id, Wire::Varint))
    }

    /// How many values a read as `int64` finds under `field_id`.
    pub fn get_int64_count(&self, field_id: FieldId) -> (count: u32)
        ensures
            count == clamp_count(values(self@, Kind::Int64, field_id).len()),
    {
        clamp(self.slot_len(field_id, Wire::Varint))
    }

    /// How many values a read as `uint32` finds under `field_id`.
    pub fn get_uint32_count(&self, field_id: FieldId) -> (count: u32)
        ensures
            count == clamp_count(values(self@, Kind::Uint32, field_id).len()),
    {
        clamp(self.slot_len(field_id, Wire::Varint))
    }

    /// How many values a read as `uint64` finds under `field_id`.
    pub fn get_uint64_count(&self, field_id: FieldId) -> (count: u32)
        ensures
            count == clamp_count(values(self@, Kind::Uint64, field_id).len()),
    {
        clamp(self.slot_len(field_id, Wire::Varint))
    }

    /// How many values a read as `sint32` finds under `field_id`.
    pub fn get_sint32_count(&self, field_id: FieldId) -> (count: u32)
        ensures
            count == clamp_count(values(self@, Kind::Sint32, field_id).len()),
    {
        clamp(self.slot_len(field_id, Wire::Varint))
    }

    /// How many values a read as `sint64` finds under `field_id`.
    pub fn get_sint64_count(&self, field_id: FieldId) -> (count: u32)
        ensures
            count == clamp_count(values(self@, Kind::Sint64, field_id).len()),
    {
        clamp(self.slot_len(field_id, Wire::Varint))
    }

    /// How many values a read as `fixed32` finds under `field_id`.
    pub fn get_fixed32_count(&self, field_id: FieldId) -> (count: u32)
        ensures
            count == clamp_count(values(self@, Kind::Fixed32, field_id).len()),
    {
        clamp(self.slot_len(field_id, Wire::Fixed32))
    }

    /// How many values a read as `fixed64` finds under `field_id`.
    pub fn get_fixed64_count(&self, field_id: FieldId) -> (count: u32)
        ensures
            count == clamp_count(values(self@, Kind::Fixed64, field_id).len()),
    {
        clamp(self.slot_len(field_id, Wire::Fixed64))
    }

    /// How many values a read as `sfixed32` finds under `field_id`.
    pub fn get_sfixed32_count(&self, field_id: FieldId) -> (count: u32)
        ensures
            count == clamp_count(values(self@, Kind::Sfixed32, field_id).len()),
    {
        clamp(self.slot_len(field_id, Wire::Fixed32))
    }

    /// How many values a read as `sfixed64` finds under `field_id`.
    pub fn get_sfixed64_count(&self, field_id: FieldId) -> (count: u32)
        ensures
            count == clamp_count(values(self@, Kind::Sfixed64, field_id).len()),
    {
        clamp(self.slot_len(field_id, Wire::Fixed64))
    }

    /// How many values a read as `entity_id` finds under `field_id`.
    pub fn get_entity_id_count(&self, field_id: FieldId) -> (count: u32)
        ensures
            count == clamp_count(values(self@, Kind::EntityId, field_id).len()),
    {
        clamp(self.slot_len(field_id, Wire::Varint))
    }

    /// How many enum values are stored under `field_id`.
    pub fn get_enum_count(&self, field_id: FieldId) -> (count: u32)
        ensures
            count == clamp_count(values(self@, Kind::Enum, field_id).len()),
    {
        clamp(self.slot_len(field_id, Wire::Varint))
    }

    /// How many nested objects are stored under `field_id`.
    pub fn get_object_count(&self, field_id: FieldId) -> (count: u32)
        ensures
            count == clamp_count(objects(self@, field_id).len()),
    {
        clamp(self.slot_len(field_id, Wire::Object))
    }

    /// How many byte spans are stored under `field_id`. Strings are byte
    /// spans.
    pub fn get_bytes_count(&self, field_id: FieldId) -> (count: u32)
        ensures
            count == clamp_count(byte_values(self@, field_id).len()),
    {
        clamp(self.slot_len(field_id, Wire::Bytes))
    }
}

} // verus!
