use crate::schema::object::kind::{
    converted, ints_of_bool, ints_of_i32, ints_of_i64, ints_of_u32, ints_of_u64, scalar_entries,
    Kind,
};
use crate::schema::object::model::bytes_entries;
use crate::schema::object::Object;
use crate::schema::{EntityId, FieldId};
use vstd::prelude::*;
use vstd::utf8::encode_utf8;

verus! {

impl Object {
    /// Appends `values`, in order, to the values stored under `field_id`.
    pub fn add_bool_list(&mut self, field_id: FieldId, values: &[bool])
        ensures
            final(self)@ == old(self)@ + scalar_entries(
                field_id,
                Kind::Bool,
                ints_of_bool(values@),
            ),
            final(self).buffers() == old(self).buffers(),
    {
        let mut i: usize = 0;
        assert(self@ =~= old(self)@ + scalar_entries(
            field_id,
            Kind::Bool,
            ints_of_bool(values@.take(0)),
        ));
        while i < values.len()
            invariant
                i <= values@.len(),
                self@ == old(self)@ + scalar_entries(
                    field_id,
                    Kind::Bool,
                    ints_of_bool(values@.take(i as int)),
                ),
                self.buffers() == old(self).buffers(),
            decreases values@.len() - i,
        {
            self.add_bool(field_id, values[i]);
            assert(self@ =~= old(self)@ + scalar_entries(
                field_id,
                Kind::Bool,
                ints_of_bool(values@.take(i + 1)),
            ));
            i = i + 1;
        }
        assert(values@.take(i as int) =~= values@);
    }

    /// Appends `values`, in order, to the values stored under `field_id`.
    pub fn add_float_list(&mut self, field_id: FieldId, values: &[u32])
        ensures
            final(self)@ == old(self)@ + scalar_entries(
                field_id,
                Kind::Float,
                ints_of_u32(values@),
            ),
            final(self).buffers() == old(self).buffers(),
    {
        let mut i: usize = 0;
        assert(self@ =~= old(self)@ + scalar_entries(
            field_id,
            Kind::Float,
            ints_of_u32(values@.take(0)),
        ));
        while i < values.len()
            invariant
                i <= values@.len(),
                self@ == old(self)@ + scalar_entries(
                    field_id,
                    Kind::Float,
                    ints_of_u32(values@.take(i as int)),
                ),
                self.buffers() == old(self).buffers(),
            decreases values@.len() - i,
        {
            self.add_float(field_id, values[i]);
            assert(self@ =~= old(self)@ + scalar_entries(
                field_id,
                Kind::Float,
                ints_of_u32(values@.take(i + 1)),
            ));
            i = i + 1;
        }
        assert(values@.take(i as int) =~= values@);
    }

    /// Appends `values`, in order, to the values stored under `field_id`.
    pub fn add_double_list(&mut self, field_id: FieldId, values: &[u64])
        ensures
            final(self)@ == old(self)@ + scalar_entries(
                field_id,
                Kind::Double,
                ints_of_u64(values@),
            ),
            final(self).buffers() == old(self).buffers(),
    {
        let mut i: usize = 0;
        assert(self@ =~= old(self)@ + scalar_entries(
            field_id,
            Kind::Double,
            ints_of_u64(values@.take(0)),
        ));
        while i < values.len()
            invariant
                i <= values@.len(),
                self@ == old(self)@ + scalar_entries(
                    field_id,
                    Kind::Double,
                    ints_of_u64(values@.take(i as int)),
                ),
                self.buffers() == old(self).buffers(),
            decreases values@.len() - i,
        {
            self.add_double(field_id, values[i]);
            assert(self@ =~= old(self)@ + scalar_entries(
                field_id,
                Kind::Double,
                ints_of_u64(values@.take(i + 1)),
            ));
            i = i + 1;
        }
        assert(values@.take(i as int) =~= values@);
    }

    /// Appends `values`, in order, to the values stored under `field_id`.
    pub fn add_int32_list(&mut self, field_id: FieldId, values: &[i32])
        ensures
            final(self)@ == old(self)@ + scalar_entries(
                field_id,
                Kind::Int32,
                ints_of_i32(values@),
            ),
            final(self).buffers() == old(self).buffers(),
    {
        let mut i: usize = 0;
        assert(self@ =~= old(self)@ + scalar_entries(
            field_id,
            Kind::Int32,
            ints_of_i32(values@.take(0)),
        ));
        while i < values.len()
            invariant
                i <= values@.len(),
                self@ == old(self)@ + scalar_entries(
                    field_id,
                    Kind::Int32,
                    ints_of_i32(values@.take(i as int)),
                ),
                self.buffers() == old(self).buffers(),
            decreases values@.len() - i,
        {
            self.add_int32(field_id, values[i]);
            assert(self@ =~= old(self)@ + scalar_entries(
                field_id,
                Kind::Int32,
                ints_of_i32(values@.take(i + 1)),
            ));
            i = i + 1;
        }
        assert(values@.take(i as int) =~= values@);
    }

    /// Appends `values`, in order, to the values stored under `field_id`.
    pub fn add_int64_list(&mut self, field_id: FieldId, values: &[i64])
        ensures
            final(self)@ == old(self)@ + scalar_entries(
                field_id,
                Kind::Int64,
                ints_of_i64(values@),
            ),
            final(self).buffers() == old(self).buffers(),
    {
        let mut i: usize = 0;
        assert(self@ =~= old(self)@ + scalar_entries(
            field_id,
            Kind::Int64,
            ints_of_i64(values@.take(0)),
        ));
        while i < values.len()
            invariant
                i <= values@.len(),
                self@ == old(self)@ + scalar_entries(
                    field_id,
                    Kind::Int64,
                    ints_of_i64(values@.take(i as int)),
                ),
                self.buffers() == old(self).buffers(),
            decreases values@.len() - i,
        {
            self.add_int64(field_id, values[i]);
            assert(self@ =~= old(self)@ + scalar_entries(
                field_id,
                Kind::Int64,
                ints_of_i64(values@.take(i + 1)),
            ));
            i = i + 1;
        }
        assert(values@.take(i as int) =~= values@);
    }

    /// Appends `values`, in order, to the values stored under `field_id`.
    pub fn add_uint32_list(&mut self, field_id: FieldId, values: &[u32])
        ensures
            final(self)@ == old(self)@ + scalar_entries(
                field_id,
                Kind::Uint32,
                ints_of_u32(values@),
            ),
            final(self).buffers() == old(self).buffers(),
    {
        let mut i: usize = 0;
        assert(self@ =~= old(self)@ + scalar_entries(
            field_id,
            Kind::Uint32,
            ints_of_u32(values@.take(0)),
        ));
        while i < values.len()
            invariant
                i <= values@.len(),
                self@ == old(self)@ + scalar_entries(
                    field_id,
                    Kind::Uint32,
                    ints_of_u32(values@.take(i as int)),
                ),
                self.buffers() == old(self).buffers(),
            decreases values@.len() - i,
        {
            self.add_uint32(field_id, values[i]);
            assert(self@ =~= old(self)@ + scalar_entries(
                field_id,
                Kind::Uint32,
                ints_of_u32(values@.take(i + 1)),
            ));
            i = i + 1;
        }
        assert(values@.take(i as int) =~= values@);
    }

    /// Appends `values`, in order, to the values stored under `field_id`.
    pub fn add_uint64_list(&mut self, field_id: FieldId, values: &[u64])
        ensures
            final(self)@ == old(self)@ + scalar_entries(
                field_id,
                Kind::Uint64,
                ints_of_u64(values@),
            ),
            final(self).buffers() == old(self).buffers(),
    {
        let mut i: usize = 0;
        assert(self@ =~= old(self)@ + scalar_entries(
            field_id,
            Kind::Uint64,
            ints_of_u64(values@.take(0)),
        ));
        while i < values.len()
            invariant
                i <= values@.len(),
                self@ == old(self)@ + scalar_entries(
                    field_id,
                    Kind::Uint64,
                    ints_of_u64(values@.take(i as int)),
                ),
                self.buffers() == old(self).buffers(),
            decreases values@.len() - i,
        {
            self.add_uint64(field_id, values[i]);
            assert(self@ =~= old(self)@ + scalar_entries(
                field_id,
                Kind::Uint64,
                ints_of_u64(values@.take(i + 1)),
            ));
            i = i + 1;
        }
        assert(values@.take(i as int) =~= values@);
    }

    /// Appends `values`, in order, to the values stored under `field_id`.
    pub fn add_sint32_list(&mut self, field_id: FieldId, values: &[i32])
        ensures
            final(self)@ == old(self)@ + scalar_entries(
                field_id,
                Kind::Sint32,
                ints_of_i32(values@),
            ),
            final(self).buffers() == old(self).buffers(),
    {
        let mut i: usize = 0;
        assert(self@ =~= old(self)@ + scalar_entries(
            field_id,
            Kind::Sint32,
            ints_of_i32(values@.take(0)),
        ));
        while i < values.len()
            invariant
                i <= values@.len(),
                self@ == old(self)@ + scalar_entries(
                    field_id,
                    Kind::Sint32,
                    ints_of_i32(values@.take(i as int)),
                ),
                self.buffers() == old(self).buffers(),
            decreases values@.len() - i,
        {
            self.add_sint32(field_id, values[i]);
            assert(self@ =~= old(self)@ + scalar_entries(
                field_id,
                Kind::Sint32,
                ints_of_i32(values@.take(i + 1)),
            ));
            i = i + 1;
        }
        assert(values@.take(i as int) =~= values@);
    }

    /// Appends `values`, in order, to the values stored under `field_id`.
    pub fn add_sint64_list(&mut self, field_id: FieldId, values: &[i64])
        ensures
            final(self)@ == old(self)@ + scalar_entries(
                field_id,
                Kind::Sint64,
                ints_of_i64(values@),
            ),
            final(self).buffers() == old(self).buffers(),
    {
        let mut i: usize = 0;
        assert(self@ =~= old(self)@ + scalar_entries(
            field_id,
            Kind::Sint64,
            ints_of_i64(values@.take(0)),
        ));
        while i < values.len()
            invariant
                i <= values@.len(),
                self@ == old(self)@ + scalar_entries(
                    field_id,
                    Kind::Sint64,
                    ints_of_i64(values@.take(i as int)),
                ),
                self.buffers() == old(self).buffers(),
            decreases values@.len() - i,
        {
            self.add_sint64(field_id, values[i]);
            assert(self@ =~= old(self)@ + scalar_entries(
                field_id,
                Kind::Sint64,
                ints_of_i64(values@.take(i + 1)),
            ));
            i = i + 1;
        }
        assert(values@.take(i as int) =~= values@);
    }

    /// Appends `values`, in order, to the values stored under `field_id`.
    pub fn add_fixed32_list(&mut self, field_id: FieldId, values: &[u32])
        ensures
            final(self)@ == old(self)@ + scalar_entries(
                field_id,
                Kind::Fixed32,
                ints_of_u32(values@),
            ),
            final(self).buffers() == old(self).buffers(),
    {
        let mut i: usize = 0;
        assert(self@ =~= old(self)@ + scalar_entries(
            field_id,
            Kind::Fixed32,
            ints_of_u32(values@.take(0)),
        ));
        while i < values.len()
            invariant
                i <= values@.len(),
                self@ == old(self)@ + scalar_entries(
                    field_id,
                    Kind::Fixed32,
                    ints_of_u32(values@.take(i as int)),
                ),
                self.buffers() == old(self).buffers(),
            decreases values@.len() - i,
        {
            self.add_fixed32(field_id, values[i]);
            assert(self@ =~= old(self)@ + scalar_entries(
                field_id,
                Kind::Fixed32,
                ints_of_u32(values@.take(i + 1)),
            ));
            i = i + 1;
        }
        assert(values@.take(i as int) =~= values@);
    }

    /// Appends `values`, in order, to the values stored under `field_id`.
    pub fn add_fixed64_list(&mut self, field_id: FieldId, values: &[u64])
        ensures
            final(self)@ == old(self)@ + scalar_entries(
                field_id,
                Kind::Fixed64,
                ints_of_u64(values@),
            ),
            final(self).buffers() == old(self).buffers(),
    {
        let mut i: usize = 0;
        assert(self@ =~= old(self)@ + scalar_entries(
            field_id,
            Kind::Fixed64,
            ints_of_u64(values@.take(0)),
        ));
        while i < values.len()
            invariant
                i <= values@.len(),
                self@ == old(self)@ + scalar_entries(
                    field_id,
                    Kind::Fixed64,
                    ints_of_u64(values@.take(i as int)),
                ),
                self.buffers() == old(self).buffers(),
            decreases values@.len() - i,
        {
            self.add_fixed64(field_id, values[i]);
            assert(self@ =~= old(self)@ + scalar_entries(
                field_id,
                Kind::Fixed64,
                ints_of_u64(values@.take(i + 1)),
            ));
            i = i + 1;
        }
        assert(values@.take(i as int) =~= values@);
    }

    /// Appends `values`, in order, to the values stored under `field_id`.
    pub fn add_sfixed32_list(&mut self, field_id: FieldId, values: &[i32])
        ensures
            final(self)@ == old(self)@ + scalar_entries(
                field_id,
                Kind::Sfixed32,
                ints_of_i32(values@),
            ),
            final(self).buffers() == old(self).buffers(),
    {
        let mut i: usize = 0;
        assert(self@ =~= old(self)@ + scalar_entries(
            field_id,
            Kind::Sfixed32,
            ints_of_i32(values@.take(0)),
        ));
        while i < values.len()
            invariant
                i <= values@.len(),
                self@ == old(self)@ + scalar_entries(
                    field_id,
                    Kind::Sfixed32,
                    ints_of_i32(values@.take(i as int)),
                ),
                self.buffers() == old(self).buffers(),
            decreases values@.len() - i,
        {
            self.add_sfixed32(field_id, values[i]);
            assert(self@ =~= old(self)@ + scalar_entries(
                field_id,
                Kind::Sfixed32,
                ints_of_i32(values@.take(i + 1)),
            ));
            i = i + 1;
        }
        assert(values@.take(i as int) =~= values@);
    }

    /// Appends `values`, in order, to the values stored under `field_id`.
    pub fn add_sfixed64_list(&mut self, field_id: FieldId, values: &[i64])
        ensures
            final(self)@ == old(self)@ + scalar_entries(
                field_id,
                Kind::Sfixed64,
                ints_of_i64(values@),
            ),
            final(self).buffers() == old(self).buffers(),
    {
        let mut i: usize = 0;
        assert(self@ =~= old(self)@ + scalar_entries(
            field_id,
            Kind::Sfixed64,
            ints_of_i64(values@.take(0)),
        ));
        while i < values.len()
            invariant
                i <= values@.len(),
                self@ == old(self)@ + scalar_entries(
                    field_id,
                    Kind::Sfixed64,
                    ints_of_i64(values@.take(i as int)),
                ),
                self.buffers() == old(self).buffers(),
            decreases values@.len() - i,
        {
            self.add_sfixed64(field_id, values[i]);
            assert(self@ =~= old(self)@ + scalar_entries(
                field_id,
                Kind::Sfixed64,
                ints_of_i64(values@.take(i + 1)),
            ));
            i = i + 1;
        }
        assert(values@.take(i as int) =~= values@);
    }

    /// Appends `values`, in order, to the values stored under `field_id`.
    pub fn add_entity_id_list(&mut self, field_id: FieldId, values: &[EntityId])
        ensures
            final(self)@ == old(self)@ + scalar_entries(
                field_id,
                Kind::EntityId,
                ints_of_i64(values@),
            ),
            final(self).buffers() == old(self).buffers(),
    {
        let mut i: usize = 0;
        assert(self@ =~= old(self)@ + scalar_entries(
            field_id,
            Kind::EntityId,
            ints_of_i64(values@.take(0)),
        ));
        while i < values.len()
            invariant
                i <= values@.len(),
                self@ == old(self)@ + scalar_entries(
                    field_id,
                    Kind::EntityId,
                    ints_of_i64(values@.take(i as int)),
                ),
                self.buffers() == old(self).buffers(),
            decreases values@.len() - i,
        {
            self.add_entity_id(field_id, values[i]);
            assert(self@ =~= old(self)@ + scalar_entries(
                field_id,
                Kind::EntityId,
                ints_of_i64(values@.take(i + 1)),
            ));
            i = i + 1;
        }
        assert(values@.take(i as int) =~= values@);
    }

    /// Appends `values`, in order, to the enum values stored under `field_id`,
    /// each as the unsigned 32-bit number that the caller's conversion gives
    /// for it.
    pub fn add_enum_list<E>(&mut self, field_id: FieldId, values: &[E]) where
        for<'a> &'a E: Into<u32>,
        ensures
            (exists|numbers: Seq<u32>|
                converted(values@, numbers) && final(self)@ == old(self)@
                    + #[trigger] scalar_entries(field_id, Kind::Enum, ints_of_u32(numbers))),
            final(self).buffers() == old(self).buffers(),
    {
        let mut i: usize = 0;
        let ghost mut numbers: Seq<u32> = Seq::empty();
        assert(self@ =~= old(self)@ + scalar_entries(field_id, Kind::Enum, ints_of_u32(numbers)));
        while i < values.len()
            invariant
                i <= values@.len(),
                numbers.len() == i,
                forall|j: int|
                    0 <= j < i ==> call_ensures(
                        <&E as Into<u32>>::into,
                        (&values@[j],),
                        #[trigger] numbers[j],
                    ),
                self@ == old(self)@ + scalar_entries(field_id, Kind::Enum, ints_of_u32(numbers)),
                self.buffers() == old(self).buffers(),
            decreases values@.len() - i,
        {
            let number: u32 = (&values[i]).into();
            self.add_uint32(field_id, number);
            proof {
                assert(self@ =~= old(self)@ + scalar_entries(
                    field_id,
                    Kind::Enum,
                    ints_of_u32(numbers.push(number)),
                ));
                numbers = numbers.push(number);
            }
            i = i + 1;
        }
        assert(converted(values@, numbers));
    }

    /// Appends a copy of each of `values`, in order, to the byte spans stored
    /// under `field_id`.
    pub fn add_bytes_list(&mut self, field_id: FieldId, values: &[&[u8]])
        ensures
            final(self)@ == old(self)@ + bytes_entries(
                field_id,
                values@.map_values(|span: &[u8]| span@),
            ),
            final(self).buffers() == old(self).buffers(),
    {
        let mut i: usize = 0;
        assert(self@ =~= old(self)@ + bytes_entries(
            field_id,
            values@.take(0).map_values(|span: &[u8]| span@),
        ));
        while i < values.len()
            invariant
                i <= values@.len(),
                self@ == old(self)@ + bytes_entries(
                    field_id,
                    values@.take(i as int).map_values(|span: &[u8]| span@),
                ),
                self.buffers() == old(self).buffers(),
            decreases values@.len() - i,
        {
            self.add_bytes(field_id, values[i]);
            assert(self@ =~= old(self)@ + bytes_entries(
                field_id,
                values@.take(i + 1).map_values(|span: &[u8]| span@),
            ));
            i = i + 1;
        }
        assert(values@.take(i as int) =~= values@);
    }

    /// Appends the UTF-8 bytes of each of `values`, in order, to the byte
    /// spans stored under `field_id`.
    pub fn add_string_list(&mut self, field_id: FieldId, values: &[String])
        ensures
            final(self)@ == old(self)@ + bytes_entries(
                field_id,
                values@.map_values(|text: String| encode_utf8(text@)),
            ),
            final(self).buffers() == old(self).buffers(),
    {
        let mut i: usize = 0;
        assert(self@ =~= old(self)@ + bytes_entries(
            field_id,
            values@.take(0).map_values(|text: String| encode_utf8(text@)),
        ));
        while i < values.len()
            invariant
                i <= values@.len(),
                self@ == old(self)@ + bytes_entries(
                    field_id,
                    values@.take(i as int).map_values(|text: String| encode_utf8(text@)),
                ),
                self.buffers() == old(self).buffers(),
            decreases values@.len() - i,
        {
            self.add_string(field_id, values[i].as_str());
            assert(self@ =~= old(self)@ + bytes_entries(
                field_id,
                values@.take(i + 1).map_values(|text: String| encode_utf8(text@)),
            ));
            i = i + 1;
        }
        assert(values@.take(i as int) =~= values@);
    }
}

} // verus!
