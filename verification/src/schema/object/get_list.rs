use crate::schema::object::kind::{
    bool_value, decode_bool, decode_signed_32, decode_signed_64, decode_sint32, decode_sint64,
    decode_unsigned_32, ints_of_bool, ints_of_i32, ints_of_i64, ints_of_u32, ints_of_u64, values,
    Kind,
};
use crate::schema::object::model::{byte_values, Wire};
use crate::schema::object::text::{decode_text, spells};
use crate::schema::object::{Object, SchemaError};
use crate::schema::{EntityId, FieldId};
use vstd::prelude::*;
use vstd::slice::slice_to_vec;
use vstd::utf8::valid_utf8;

verus! {

impl Object {
    /// Every value that a read as `bool` finds under `field_id`, in insertion
    /// order.
    pub fn get_bool_list(&self, field_id: FieldId) -> (list: Vec<bool>)
        ensures
            ints_of_bool(list@) == values(self@, Kind::Bool, field_id),
    {
        let raw = self.scalars(field_id, Wire::Varint);
        let mut list: Vec<bool> = Vec::new();
        let mut i: usize = 0;
        while i < raw.len()
            invariant
                i <= raw@.len(),
                list@.len() == i,
                forall|j: int| 0 <= j < i ==> bool_value(list@[j]) == Kind::Bool.decode(raw@[j]),
            decreases raw@.len() - i,
        {
            list.push(decode_bool(raw[i]));
            i = i + 1;
        }
        assert(ints_of_bool(list@) =~= values(self@, Kind::Bool, field_id));
        list
    }

    /// Every value that a read as `float` finds under `field_id`, in insertion
    /// order.
    pub fn get_float_list(&self, field_id: FieldId) -> (list: Vec<u32>)
        ensures
            ints_of_u32(list@) == values(self@, Kind::Float, field_id),
    {
        let raw = self.scalars(field_id, Wire::Fixed32);
        let mut list: Vec<u32> = Vec::new();
        let mut i: usize = 0;
        while i < raw.len()
            invariant
                i <= raw@.len(),
                list@.len() == i,
                forall|j: int| 0 <= j < i ==> list@[j] as int == Kind::Float.decode(raw@[j]),
            decreases raw@.len() - i,
        {
            list.push(decode_unsigned_32(raw[i]));
            i = i + 1;
        }
        assert(ints_of_u32(list@) =~= values(self@, Kind::Float, field_id));
        list
    }

    /// Every value that a read as `double` finds under `field_id`, in
    /// insertion order.
    pub fn get_double_list(&self, field_id: FieldId) -> (list: Vec<u64>)
        ensures
            ints_of_u64(list@) == values(self@, Kind::Double, field_id),
    {
        let raw = self.scalars(field_id, Wire::Fixed64);
        let mut list: Vec<u64> = Vec::new();
        let mut i: usize = 0;
        while i < raw.len()
            invariant
                i <= raw@.len(),
                list@.len() == i,
                forall|j: int| 0 <= j < i ==> list@[j] as int == Kind::Double.decode(raw@[j]),
            decreases raw@.len() - i,
        {
            list.push(raw[i]);
            i = i + 1;
        }
        assert(ints_of_u64(list@) =~= values(self@, Kind::Double, field_id));
        list
    }

    /// Every value that a read as `int32` finds under `field_id`, in insertion
    /// order.
    pub fn get_int32_list(&self, field_id: FieldId) -> (list: Vec<i32>)
        ensures
            ints_of_i32(list@) == values(self@, Kind::Int32, field_id),
    {
        let raw = self.scalars(field_id, Wire::Varint);
        let mut list: Vec<i32> = Vec::new();
        let mut i: usize = 0;
        while i < raw.len()
            invariant
                i <= raw@.len(),
                list@.len() == i,
                forall|j: int| 0 <= j < i ==> list@[j] as int == Kind::Int32.decode(raw@[j]),
            decreases raw@.len() - i,
        {
            list.push(decode_signed_32(raw[i]));
            i = i + 1;
        }
        assert(ints_of_i32(list@) =~= values(self@, Kind::Int32, field_id));
        list
    }

    /// Every value that a read as `int64` finds under `field_id`, in insertion
    /// order.
    pub fn get_int64_list(&self, field_id: FieldId) -> (list: Vec<i64>)
        ensures
            ints_of_i64(list@) == values(self@, Kind::Int64, field_id),
    {
        let raw = self.scalars(field_id, Wire::Varint);
        let mut list: Vec<i64> = Vec::new();
        let mut i: usize = 0;
        while i < raw.len()
            invariant
                i <= raw@.len(),
                list@.len() == i,
                forall|j: int| 0 <= j < i ==> list@[j] as int == Kind::Int64.decode(raw@[j]),
            decreases raw@.len() - i,
        {
            list.push(decode_signed_64(raw[i]));
            i = i + 1;
        }
        assert(ints_of_i64(list@) =~= values(self@, Kind::Int64, field_id));
        list
    }

    /// Every value that a read as `uint32` finds under `field_id`, in
    /// insertion order.
    pub fn get_uint32_list(&self, field_id: FieldId) -> (list: Vec<u32>)
        ensures
            ints_of_u32(list@) == values(self@, Kind::Uint32, field_id),
    {
        let raw = self.scalars(field_id, Wire::Varint);
        let mut list: Vec<u32> = Vec::new();
        let mut i: usize = 0;
        while i < raw.len()
            invariant
                i <= raw@.len(),
                list@.len() == i,
                forall|j: int| 0 <= j < i ==> list@[j] as int == Kind::Uint32.decode(raw@[j]),
            decreases raw@.len() - i,
        {
            list.push(decode_unsigned_32(raw[i]));
            i = i + 1;
        }
        assert(ints_of_u32(list@) =~= values(self@, Kind::Uint32, field_id));
        list
    }

    /// Every value that a read as `uint64` finds under `field_id`, in
    /// insertion order.
    pub fn get_uint64_list(&self, field_id: FieldId) -> (list: Vec<u64>)
        ensures
            ints_of_u64(list@) == values(self@, Kind::Uint64, field_id),
    {
        let raw = self.scalars(field_id, Wire::Varint);
        let mut list: Vec<u64> = Vec::new();
        let mut i: usize = 0;
        while i < raw.len()
            invariant
                i <= raw@.len(),
                list@.len() == i,
                forall|j: int| 0 <= j < i ==> list@[j] as int == Kind::Uint64.decode(raw@[j]),
            decreases raw@.len() - i,
        {
            list.push(raw[i]);
            i = i + 1;
        }
        assert(ints_of_u64(list@) =~= values(self@, Kind::Uint64, field_id));
        list
    }

    /// Every value that a read as `sint32` finds under `field_id`, in
    /// insertion order.
    pub fn get_sint32_list(&self, field_id: FieldId) -> (list: Vec<i32>)
        ensures
            ints_of_i32(list@) == values(self@, Kind::Sint32, field_id),
    {
        let raw = self.scalars(field_id, Wire::Varint);
        let mut list: Vec<i32> = Vec::new();
        let mut i: usize = 0;
        while i < raw.len()
            invariant
                i <= raw@.len(),
                list@.len() == i,
                forall|j: int| 0 <= j < i ==> list@[j] as int == Kind::Sint32.decode(raw@[j]),
            decreases raw@.len() - i,
        {
            list.push(decode_sint32(raw[i]));
            i = i + 1;
        }
        assert(ints_of_i32(list@) =~= values(self@, Kind::Sint32, field_id));
        list
    }

    /// Every value that a read as `sint64` finds under `field_id`, in
    /// insertion order.
    pub fn get_sint64_list(&self, field_id: FieldId) -> (list: Vec<i64>)
        ensures
            ints_of_i64(list@) == values(self@, Kind::Sint64, field_id),
    {
        let raw = self.scalars(field_id, Wire::Varint);
        let mut list: Vec<i64> = Vec::new();
        let mut i: usize = 0;
        while i < raw.len()
            invariant
                i <= raw@.len(),
                list@.len() == i,
                forall|j: int| 0 <= j < i ==> list@[j] as int == Kind::Sint64.decode(raw@[j]),
            decreases raw@.len() - i,
        {
            list.push(decode_sint64(raw[i]));
            i = i + 1;
        }
        assert(ints_of_i64(list@) =~= values(self@, Kind::Sint64, field_id));
        list
    }

    /// Every value that a read as `fixed32` finds under `field_id`, in
    /// insertion order.
    pub fn get_fixed32_list(&self, field_id: FieldId) -> (list: Vec<u32>)
        ensures
            ints_of_u32(list@) == values(self@, Kind::Fixed32, field_id),
    {
        let raw = self.scalars(field_id, Wire::Fixed32);
        let mut list: Vec<u32> = Vec::new();
        let mut i: usize = 0;
        while i < raw.len()
            invariant
                i <= raw@.len(),
                list@.len() == i,
                forall|j: int| 0 <= j < i ==> list@[j] as int == Kind::Fixed32.decode(raw@[j]),
            decreases raw@.len() - i,
        {
            list.push(decode_unsigned_32(raw[i]));
            i = i + 1;
        }
        assert(ints_of_u32(list@) =~= values(self@, Kind::Fixed32, field_id));
        list
    }

    /// Every value that a read as `fixed64` finds under `field_id`, in
    /// insertion order.
    pub fn get_fixed64_list(&self, field_id: FieldId) -> (list: Vec<u64>)
        ensures
            ints_of_u64(list@) == values(self@, Kind::Fixed64, field_id),
    {
        let raw = self.scalars(field_id, Wire::Fixed64);
        let mut list: Vec<u64> = Vec::new();
        let mut i: usize = 0;
        while i < raw.len()
            invariant
                i <= raw@.len(),
                list@.len() == i,
                forall|j: int| 0 <= j < i ==> list@[j] as int == Kind::Fixed64.decode(raw@[j]),
            decreases raw@.len() - i,
        {
            list.push(raw[i]);
            i = i + 1;
        }
        assert(ints_of_u64(list@) =~= values(self@, Kind::Fixed64, field_id));
        list
    }

    /// Every value that a read as `sfixed32` finds under `field_id`, in
    /// insertion order.
    pub fn get_sfixed32_list(&self, field_id: FieldId) -> (list: Vec<i32>)
        ensures
            ints_of_i32(list@) == values(self@, Kind::Sfixed32, field_id),
    {
        let raw = self.scalars(field_id, Wire::Fixed32);
        let mut list: Vec<i32> = Vec::new();
        let mut i: usize = 0;
        while i < raw.len()
            invariant
                i <= raw@.len(),
                list@.len() == i,
                forall|j: int| 0 <= j < i ==> list@[j] as int == Kind::Sfixed32.decode(raw@[j]),
            decreases raw@.len() - i,
        {
            list.push(decode_signed_32(raw[i]));
            i = i + 1;
        }
        assert(ints_of_i32(list@) =~= values(self@, Kind::Sfixed32, field_id));
        list
    }

    /// Every value that a read as `sfixed64` finds under `field_id`, in
    /// insertion order.
    pub fn get_sfixed64_list(&self, field_id: FieldId) -> (list: Vec<i64>)
        ensures
            ints_of_i64(list@) == values(self@, Kind::Sfixed64, field_id),
    {
        let raw = self.scalars(field_id, Wire::Fixed64);
        let mut list: Vec<i64> = Vec::new();
        let mut i: usize = 0;
        while i < raw.len()
            invariant
                i <= raw@.len(),
                list@.len() == i,
                forall|j: int| 0 <= j < i ==> list@[j] as int == Kind::Sfixed64.decode(raw@[j]),
            decreases raw@.len() - i,
        {
            list.push(decode_signed_64(raw[i]));
            i = i + 1;
        }
        assert(ints_of_i64(list@) =~= values(self@, Kind::Sfixed64, field_id));
        list
    }

    /// Every value that a read as `entity_id` finds under `field_id`, in
    /// insertion order.
    pub fn get_entity_id_list(&self, field_id: FieldId) -> (list: Vec<EntityId>)
        ensures
            ints_of_i64(list@) == values(self@, Kind::EntityId, field_id),
    {
        let raw = self.scalars(field_id, Wire::Varint);
        let mut list: Vec<EntityId> = Vec::new();
        let mut i: usize = 0;
        while i < raw.len()
            invariant
                i <= raw@.len(),
                list@.len() == i,
                forall|j: int| 0 <= j < i ==> list@[j] as int == Kind::EntityId.decode(raw@[j]),
            decreases raw@.len() - i,
        {
            list.push(decode_signed_64(raw[i]));
            i = i + 1;
        }
        assert(ints_of_i64(list@) =~= values(self@, Kind::EntityId, field_id));
        list
    }

    /// Every enum value stored under `field_id`, in insertion order, each
    /// mapped by the caller's conversion from the stored unsigned 32-bit
    /// number.
    pub fn get_enum_list<E: From<u32>>(&self, field_id: FieldId) -> (list: Vec<E>)
        ensures
            list@.len() == values(self@, Kind::Enum, field_id).len(),
            forall|j: int|
                0 <= j < list@.len() ==> call_ensures(
                    E::from,
                    (values(self@, Kind::Enum, field_id)[j] as u32,),
                    #[trigger] list@[j],
                ),
    {
        let raw = self.get_uint32_list(field_id);
        assert(values(self@, Kind::Enum, field_id) =~= values(self@, Kind::Uint32, field_id));
        let mut list: Vec<E> = Vec::new();
        let mut i: usize = 0;
        while i < raw.len()
            invariant
                i <= raw@.len(),
                list@.len() == i,
                forall|j: int|
                    0 <= j < i ==> call_ensures(E::from, (raw@[j],), #[trigger] list@[j]),
            decreases raw@.len() - i,
        {
            list.push(E::from(raw[i]));
            i = i + 1;
        }
        assert forall|j: int| 0 <= j < list@.len() implies call_ensures(
            E::from,
            (values(self@, Kind::Enum, field_id)[j] as u32,),
            #[trigger] list@[j],
        ) by {
            assert(ints_of_u32(raw@)[j] == raw@[j] as int);
        }
        list
    }

    /// Copies of the byte spans stored under `field_id`, in insertion order.
    pub fn get_bytes_list(&self, field_id: FieldId) -> (list: Vec<Vec<u8>>)
        ensures
            list@.len() == byte_values(self@, field_id).len(),
            forall|j: int|
                0 <= j < list@.len() ==> (#[trigger] list@[j])@ == byte_values(self@, field_id)[j],
    {
        self.byte_spans(field_id)
    }

    /// The byte spans stored under `field_id`, each read as text, in insertion
    /// order. One span that is not well-formed UTF-8 fails the read of the
    /// whole field with `Encoding`.
    pub fn get_string_list(&self, field_id: FieldId) -> (r: Result<Vec<String>, SchemaError>)
        ensures
            match r {
                Ok(list) => {
                    &&& list@.len() == byte_values(self@, field_id).len()
                    &&& forall|j: int|
                        0 <= j < list@.len() ==> spells(
                            byte_values(self@, field_id)[j],
                            (#[trigger] list@[j])@,
                        )
                },
                Err(e) => {
                    &&& e == SchemaError::Encoding
                    &&& exists|j: int|
                        0 <= j < byte_values(self@, field_id).len() && !valid_utf8(
                            #[trigger] byte_values(self@, field_id)[j],
                        )
                },
            },
    {
        let spans = self.byte_spans(field_id);
        let mut list: Vec<String> = Vec::new();
        let mut i: usize = 0;
        while i < spans.len()
            invariant
                i <= spans@.len(),
                list@.len() == i,
                spans@.len() == byte_values(self@, field_id).len(),
                forall|j: int|
                    0 <= j < spans@.len() ==> (#[trigger] spans@[j])@ == byte_values(
                        self@,
                        field_id,
                    )[j],
                forall|j: int|
                    0 <= j < i ==> spells(byte_values(self@, field_id)[j], (#[trigger] list@[j])@),
            decreases spans@.len() - i,
        {
            let ghost span = byte_values(self@, field_id)[i as int];
            assert(spans@[i as int]@ == span);
            match decode_text(slice_to_vec(spans[i].as_slice())) {
                Some(text) => list.push(text),
                None => {
                    assert(!valid_utf8(byte_values(self@, field_id)[i as int]));
                    return Err(SchemaError::Encoding);
                },
            }
            i = i + 1;
        }
        Ok(list)
    }

    /// The doubles stored under `field_id` (as IEEE-754 bit patterns), or
    /// nothing when the field holds none.
    pub fn get_optional_double_list(&self, field_id: FieldId) -> (r: Option<Vec<u64>>)
        ensures
            match r {
                Some(list) => values(self@, Kind::Double, field_id).len() > 0 && ints_of_u64(list@)
                    == values(self@, Kind::Double, field_id),
                None => values(self@, Kind::Double, field_id).len() == 0,
            },
    {
        if self.get_double_count(field_id) > 0 {
            Some(self.get_double_list(field_id))
        } else {
            None
        }
    }

    /// The unsigned 32-bit integers stored under `field_id`, or nothing when
    /// the field holds none.
    pub fn get_optional_uint32_list(&self, field_id: FieldId) -> (r: Option<Vec<u32>>)
        ensures
            match r {
                Some(list) => values(self@, Kind::Uint32, field_id).len() > 0 && ints_of_u32(list@)
                    == values(self@, Kind::Uint32, field_id),
                None => values(self@, Kind::Uint32, field_id).len() == 0,
            },
    {
        if self.get_uint32_count(field_id) > 0 {
            Some(self.get_uint32_list(field_id))
        } else {
            None
        }
    }

    /// Copies of the byte spans stored under `field_id`, or nothing when the
    /// field holds no byte span.
    pub fn get_optional_bytes_list(&self, field_id: FieldId) -> (r: Option<Vec<Vec<u8>>>)
        ensures
            match r {
                Some(list) => {
                    &&& byte_values(self@, field_id).len() > 0
                    &&& list@.len() == byte_values(self@, field_id).len()
                    &&& forall|j: int|
                        0 <= j < list@.len() ==> (#[trigger] list@[j])@ == byte_values(
                            self@,
                            field_id,
                        )[j]
                },
                None => byte_values(self@, field_id).len() == 0,
            },
    {
        if self.get_bytes_count(field_id) > 0 {
            Some(self.get_bytes_list(field_id))
        } else {
            None
        }
    }

    /// The byte spans stored under `field_id`, each read as text, or nothing
    /// when the field holds no byte span. One span that is not well-formed
    /// UTF-8 fails the read with `Encoding`.
    pub fn get_optional_string_list(&self, field_id: FieldId) -> (r: Result<
        Option<Vec<String>>,
        SchemaError,
    >)
        ensures
            match r {
                Ok(Some(list)) => {
                    &&& list@.len() > 0
                    &&& list@.len() == byte_values(self@, field_id).len()
                    &&& forall|j: int|
                        0 <= j < list@.len() ==> spells(
                            byte_values(self@, field_id)[j],
                            (#[trigger] list@[j])@,
                        )
                },
                Ok(None) => byte_values(self@, field_id).len() == 0,
                Err(e) => {
                    &&& e == SchemaError::Encoding
                    &&& exists|j: int|
                        0 <= j < byte_values(self@, field_id).len() && !valid_utf8(
                            #[trigger] byte_values(self@, field_id)[j],
                        )
                },
            },
    {
        if self.get_bytes_count(field_id) > 0 {
            match self.get_string_list(field_id) {
                Ok(list) => Ok(Some(list)),
                Err(e) => Err(e),
            }
        } else {
            Ok(None)
        }
    }
}

} // verus!
