use spatialos::schema::object::{AllocatedBuffer, Object, SchemaError};
use spatialos::schema::{
    CommandRequest, CommandResponse, ComponentData, ComponentUpdate, MAP_KEY_FIELD_ID,
    MAP_VALUE_FIELD_ID,
};

#[derive(Debug, Clone, Copy, PartialEq, Eq)]
enum Colour {
    Red,
    Green,
    Blue,
}

impl From<u32> for Colour {
    fn from(number: u32) -> Self {
        match number {
            1 => Colour::Green,
            2 => Colour::Blue,
            _ => Colour::Red,
        }
    }
}

impl From<Colour> for u32 {
    fn from(colour: Colour) -> u32 {
        match colour {
            Colour::Red => 0,
            Colour::Green => 1,
            Colour::Blue => 2,
        }
    }
}

impl From<&Colour> for u32 {
    fn from(colour: &Colour) -> u32 {
        u32::from(*colour)
    }
}

#[test]
fn int32_single_value_round_trip() {
    let mut object = Object::new();
    object.add_int32(1, -42);
    assert_eq!(object.get_int32(1), -42);
    assert_eq!(object.get_int32_count(1), 1);
}

#[test]
fn every_scalar_kind_round_trips_on_a_fresh_object() {
    let mut object = Object::new();
    object.add_bool(1, true);
    object.add_float(2, 1.5f32.to_bits());
    object.add_double(3, (-2.25f64).to_bits());
    object.add_int32(4, i32::MIN);
    object.add_int64(5, i64::MIN);
    object.add_uint32(6, u32::MAX);
    object.add_uint64(7, u64::MAX);
    object.add_sint32(8, -1);
    object.add_sint64(9, i64::MAX);
    object.add_fixed32(10, 0xdead_beef);
    object.add_fixed64(11, 0x0123_4567_89ab_cdef);
    object.add_sfixed32(12, -7);
    object.add_sfixed64(13, -9_000_000_000);
    object.add_entity_id(14, 5);
    object.add_enum(15, Colour::Blue);

    assert!(object.get_bool(1));
    assert_eq!(f32::from_bits(object.get_float(2)), 1.5);
    assert_eq!(f64::from_bits(object.get_double(3)), -2.25);
    assert_eq!(object.get_int32(4), i32::MIN);
    assert_eq!(object.get_int64(5), i64::MIN);
    assert_eq!(object.get_uint32(6), u32::MAX);
    assert_eq!(object.get_uint64(7), u64::MAX);
    assert_eq!(object.get_sint32(8), -1);
    assert_eq!(object.get_sint64(9), i64::MAX);
    assert_eq!(object.get_fixed32(10), 0xdead_beef);
    assert_eq!(object.get_fixed64(11), 0x0123_4567_89ab_cdef);
    assert_eq!(object.get_sfixed32(12), -7);
    assert_eq!(object.get_sfixed64(13), -9_000_000_000);
    assert_eq!(object.get_entity_id(14), 5);
    assert_eq!(object.get_enum::<Colour>(15), Colour::Blue);
}

#[test]
fn extreme_values_of_signed_kinds_round_trip() {
    let mut object = Object::new();
    object.add_sint32_list(1, &[i32::MIN, -1, 0, 1, i32::MAX]);
    object.add_sint64_list(2, &[i64::MIN, -1, 0, 1, i64::MAX]);
    object.add_int32_list(3, &[i32::MIN, -1, 0, 1, i32::MAX]);
    object.add_sfixed64_list(4, &[i64::MIN, -1, 0, 1, i64::MAX]);
    object.add_sfixed32_list(5, &[i32::MIN, -1, 0, 1, i32::MAX]);
    assert_eq!(object.get_sint32_list(1), vec![i32::MIN, -1, 0, 1, i32::MAX]);
    assert_eq!(object.get_sint64_list(2), vec![i64::MIN, -1, 0, 1, i64::MAX]);
    assert_eq!(object.get_int32_list(3), vec![i32::MIN, -1, 0, 1, i32::MAX]);
    assert_eq!(object.get_sfixed64_list(4), vec![i64::MIN, -1, 0, 1, i64::MAX]);
    assert_eq!(object.get_sfixed32_list(5), vec![i32::MIN, -1, 0, 1, i32::MAX]);
}

#[test]
fn lists_keep_order_and_duplicates() {
    let mut object = Object::new();
    object.add_uint32_list(3, &[9, 1, 9, 4]);
    assert_eq!(object.get_uint32_list(3), vec![9, 1, 9, 4]);
    assert_eq!(object.get_uint32_count(3), 4);
    assert_eq!(object.index_uint32(3, 0), Ok(9));
    assert_eq!(object.index_uint32(3, 3), Ok(4));
}

#[test]
fn every_list_kind_round_trips() {
    let mut object = Object::new();
    object.add_bool_list(1, &[true, false, true]);
    object.add_float_list(2, &[0.5f32.to_bits(), 2.0f32.to_bits()]);
    object.add_double_list(3, &[0.25f64.to_bits()]);
    object.add_int64_list(4, &[-3, 3]);
    object.add_uint64_list(5, &[0, u64::MAX]);
    object.add_fixed32_list(6, &[1, 2, 3]);
    object.add_fixed64_list(7, &[4, 5]);
    object.add_entity_id_list(8, &[10, 11, 12]);
    object.add_enum_list(9, &[Colour::Green, Colour::Red]);
    object.add_bytes_list(10, &[&[1u8, 2][..], &[][..], &[3u8][..]]);
    object.add_string_list(11, &["a".to_string(), "bc".to_string()]);

    assert_eq!(object.get_bool_list(1), vec![true, false, true]);
    assert_eq!(object.get_bool_count(1), 3);
    assert_eq!(object.get_float_list(2), vec![0.5f32.to_bits(), 2.0f32.to_bits()]);
    assert_eq!(object.get_float_count(2), 2);
    assert_eq!(object.get_double_list(3), vec![0.25f64.to_bits()]);
    assert_eq!(object.get_double_count(3), 1);
    assert_eq!(object.get_int64_list(4), vec![-3, 3]);
    assert_eq!(object.get_uint64_list(5), vec![0, u64::MAX]);
    assert_eq!(object.get_fixed32_list(6), vec![1, 2, 3]);
    assert_eq!(object.get_fixed64_list(7), vec![4, 5]);
    assert_eq!(object.get_entity_id_list(8), vec![10, 11, 12]);
    assert_eq!(object.get_entity_id_count(8), 3);
    assert_eq!(object.get_enum_list::<Colour>(9), vec![Colour::Green, Colour::Red]);
    assert_eq!(object.get_enum_count(9), 2);
    assert_eq!(object.get_bytes_list(10), vec![vec![1u8, 2], vec![], vec![3u8]]);
    assert_eq!(object.get_bytes_count(10), 3);
    assert_eq!(object.get_string_list(11), Ok(vec!["a".to_string(), "bc".to_string()]));
}

#[test]
fn add_appends_and_never_replaces() {
    let mut object = Object::new();
    object.add_int64(2, 10);
    object.add_int64(2, 20);
    object.add_int64_list(2, &[30, 40]);
    assert_eq!(object.get_int64(2), 40);
    assert_eq!(object.get_int64_list(2), vec![10, 20, 30, 40]);
    assert_eq!(object.get_int64_count(2), 4);
    assert_eq!(object.index_int64(2, 1), Ok(20));
}

#[test]
fn unset_field_reads_as_default() {
    let mut object = Object::new();
    assert!(!object.get_bool(1));
    assert_eq!(object.get_float(1), 0);
    assert_eq!(object.get_double(1), 0);
    assert_eq!(object.get_int32(1), 0);
    assert_eq!(object.get_int64(1), 0);
    assert_eq!(object.get_uint32(1), 0);
    assert_eq!(object.get_uint64(1), 0);
    assert_eq!(object.get_sint32(1), 0);
    assert_eq!(object.get_sint64(1), 0);
    assert_eq!(object.get_fixed32(1), 0);
    assert_eq!(object.get_fixed64(1), 0);
    assert_eq!(object.get_sfixed32(1), 0);
    assert_eq!(object.get_sfixed64(1), 0);
    assert_eq!(object.get_entity_id(1), 0);
    assert_eq!(object.get_enum::<Colour>(1), Colour::Red);
    assert_eq!(object.get_bytes(1), Vec::<u8>::new());
    assert_eq!(object.get_bytes_length(1), 0);
    assert_eq!(object.get_string(1), Ok(String::new()));
    assert_eq!(object.get_int32_list(1), Vec::<i32>::new());
    assert_eq!(object.get_bytes_list(1), Vec::<Vec<u8>>::new());
    assert_eq!(object.get_string_list(1), Ok(Vec::new()));
    assert_eq!(object.get_int32_count(1), 0);
    assert_eq!(object.get_object_count(1), 0);
    assert_eq!(object.get_object(1).get_int32(1), 0);
    assert_eq!(object.get_object_count(1), 0);
}

#[test]
fn writing_to_the_object_of_an_unset_field_leaves_the_parent_as_it_is() {
    let mut object = Object::new();
    object.get_object(4).add_int32(1, 7);
    assert_eq!(object.get_object_count(4), 0);
    assert_eq!(object.get_object(4).get_int32(1), 0);
}

#[test]
fn clear_field_empties_the_field_for_every_kind() {
    let mut object = Object::new();
    object.add_int32(1, 5);
    object.add_fixed32(1, 6);
    object.add_double(1, 7);
    object.add_bytes(1, &[1, 2, 3]);
    object.add_object(1).add_bool(1, true);
    object.add_int32(2, 8);
    object.clear_field(1);
    assert_eq!(object.get_int32_count(1), 0);
    assert_eq!(object.get_uint64_count(1), 0);
    assert_eq!(object.get_fixed32_count(1), 0);
    assert_eq!(object.get_float_count(1), 0);
    assert_eq!(object.get_double_count(1), 0);
    assert_eq!(object.get_bytes_count(1), 0);
    assert_eq!(object.get_object_count(1), 0);
    assert_eq!(object.get_int32(1), 0);
    assert_eq!(object.get_int32(2), 8);
    object.clear_field(1);
    assert_eq!(object.get_int32_count(1), 0);
    assert_eq!(object.get_int32(2), 8);
}

#[test]
fn clear_empties_the_object_and_is_idempotent() {
    let mut object = Object::new();
    object.add_string(1, "text");
    object.add_uint64(2, 9);
    object.clear();
    assert_eq!(object.get_bytes_count(1), 0);
    assert_eq!(object.get_uint64_count(2), 0);
    object.clear();
    assert_eq!(object.get_uint64_count(2), 0);
    object.add_uint64(2, 3);
    assert_eq!(object.get_uint64(2), 3);
}

#[test]
fn index_past_the_end_is_index_out_of_range() {
    let mut object = Object::new();
    object.add_int32_list(1, &[1, 2]);
    object.add_bytes(2, &[9]);
    object.add_object(3);
    assert_eq!(object.index_int32(1, 1), Ok(2));
    assert_eq!(object.index_int32(1, 2), Err(SchemaError::IndexOutOfRange));
    assert_eq!(object.index_bool(1, 5), Err(SchemaError::IndexOutOfRange));
    assert_eq!(object.index_float(9, 0), Err(SchemaError::IndexOutOfRange));
    assert_eq!(object.index_double(9, 0), Err(SchemaError::IndexOutOfRange));
    assert_eq!(object.index_int64(1, 2), Err(SchemaError::IndexOutOfRange));
    assert_eq!(object.index_uint32(1, 2), Err(SchemaError::IndexOutOfRange));
    assert_eq!(object.index_uint64(1, 2), Err(SchemaError::IndexOutOfRange));
    assert_eq!(object.index_sint32(1, 2), Err(SchemaError::IndexOutOfRange));
    assert_eq!(object.index_sint64(1, 2), Err(SchemaError::IndexOutOfRange));
    assert_eq!(object.index_fixed32(1, 0), Err(SchemaError::IndexOutOfRange));
    assert_eq!(object.index_fixed64(1, 0), Err(SchemaError::IndexOutOfRange));
    assert_eq!(object.index_sfixed32(1, 0), Err(SchemaError::IndexOutOfRange));
    assert_eq!(object.index_sfixed64(1, 0), Err(SchemaError::IndexOutOfRange));
    assert_eq!(object.index_entity_id(1, 2), Err(SchemaError::IndexOutOfRange));
    assert_eq!(object.index_enum::<Colour>(1, 2), Err(SchemaError::IndexOutOfRange));
    assert_eq!(object.index_bytes(2, 1), Err(SchemaError::IndexOutOfRange));
    assert_eq!(object.index_bytes_length(2, 1), Err(SchemaError::IndexOutOfRange));
    assert_eq!(object.index_string(2, 1), Err(SchemaError::IndexOutOfRange));
    assert!(matches!(object.index_object(3, 1), Err(SchemaError::IndexOutOfRange)));
    assert!(object.index_object(3, 0).is_ok());
}

#[test]
fn strings_are_validated_utf8() {
    let mut object = Object::new();
    object.add_string(1, "grüße");
    object.add_bytes(2, &[0xff, 0xfe]);
    object.add_string(3, "ok");
    object.add_bytes(3, &[0xc0]);
    assert_eq!(object.get_string(1), Ok("grüße".to_string()));
    assert_eq!(object.get_bytes(1), "grüße".as_bytes().to_vec());
    assert_eq!(object.get_bytes_length(1), 7);
    assert_eq!(object.get_string(2), Err(SchemaError::Encoding));
    assert_eq!(object.get_string(3), Err(SchemaError::Encoding));
    assert_eq!(object.index_string(3, 0), Ok("ok".to_string()));
    assert_eq!(object.index_string(3, 1), Err(SchemaError::Encoding));
    assert_eq!(object.get_string_list(3), Err(SchemaError::Encoding));
    assert_eq!(object.get_optional_string_list(3), Err(SchemaError::Encoding));
    assert_eq!(object.get_optional_string_list(1), Ok(Some(vec!["grüße".to_string()])));
    assert_eq!(object.get_optional_string_list(9), Ok(None));
    assert_eq!(object.get_int32(1), 0);
}

#[test]
fn bytes_are_copied_with_their_length() {
    let mut object = Object::new();
    object.add_bytes(1, &[]);
    object.add_bytes(1, &[1, 2, 3]);
    assert_eq!(object.get_bytes(1), vec![1, 2, 3]);
    assert_eq!(object.get_bytes_length(1), 3);
    assert_eq!(object.index_bytes(1, 0), Ok(vec![]));
    assert_eq!(object.index_bytes_length(1, 0), Ok(0));
    assert_eq!(object.index_bytes_length(1, 1), Ok(3));
}

#[test]
fn nested_objects_are_views_into_the_parent() {
    let mut object = Object::new();
    {
        let child = object.add_object(1);
        child.add_int32(1, 11);
    }
    object.add_object(1).add_int32(1, 22);
    object.get_object(1).add_int32(2, 33);
    assert_eq!(object.get_object_count(1), 2);
    assert_eq!(object.get_object(1).get_int32(1), 22);
    assert_eq!(object.get_object(1).get_int32(2), 33);
    assert_eq!(object.index_object(1, 0).unwrap().get_int32(1), 11);
    assert_eq!(object.index_object(1, 0).unwrap().get_int32_count(2), 0);
    let second = object.index_object(1, 1).unwrap();
    assert_eq!(second.get_int32(1), 22);
    second.add_string(3, "deep");
    second.add_object(4).add_bool(1, true);
    assert_eq!(object.index_object(1, 1).unwrap().get_string(3), Ok("deep".to_string()));
    assert!(object.index_object(1, 1).unwrap().get_object(4).get_bool(1));
    assert_eq!(object.index_object(1, 0).unwrap().get_bytes_count(3), 0);
}

#[test]
fn map_fields_are_lists_of_key_value_objects() {
    let mut object = Object::new();
    for (key, value) in [(1u32, "one"), (2u32, "two")] {
        let entry = object.add_object(7);
        entry.add_uint32(MAP_KEY_FIELD_ID, key);
        entry.add_string(MAP_VALUE_FIELD_ID, value);
    }
    assert_eq!(MAP_KEY_FIELD_ID, 1);
    assert_eq!(MAP_VALUE_FIELD_ID, 2);
    assert_eq!(object.get_object_count(7), 2);
    let entry = object.index_object(7, 1).unwrap();
    assert_eq!(entry.get_uint32(MAP_KEY_FIELD_ID), 2);
    assert_eq!(entry.get_string(MAP_VALUE_FIELD_ID), Ok("two".to_string()));
}

#[test]
fn reading_through_another_kind_reinterprets_and_never_fails() {
    let mut object = Object::new();
    object.add_int32(1, -1);
    assert_eq!(object.get_uint64(1), u64::MAX);
    assert_eq!(object.get_uint32(1), u32::MAX);
    assert!(object.get_bool(1));
    assert_eq!(object.get_sint32(1), i32::MIN);
    object.add_sfixed32(2, -1);
    assert_eq!(object.get_fixed32(2), u32::MAX);
    assert_eq!(object.get_float(2), u32::MAX);
    assert_eq!(object.get_int32_count(2), 0);
    assert_eq!(object.get_fixed64_count(2), 0);
}

#[test]
fn zigzag_words_interleave_signs() {
    let mut object = Object::new();
    object.add_sint32_list(1, &[0, -1, 1, -2, 2]);
    assert_eq!(object.get_uint32_list(1), vec![0, 1, 2, 3, 4]);
    object.add_sint64(2, i64::MIN);
    assert_eq!(object.get_uint64(2), u64::MAX);
}

#[test]
fn optional_lists_are_absent_when_the_field_is_unset() {
    let mut object = Object::new();
    assert_eq!(object.get_optional_double_list(1), None);
    assert_eq!(object.get_optional_uint32_list(1), None);
    assert_eq!(object.get_optional_bytes_list(1), None);
    object.add_double(1, 3.0f64.to_bits());
    object.add_uint32(2, 4);
    assert_eq!(object.get_optional_double_list(1), Some(vec![3.0f64.to_bits()]));
    assert_eq!(object.get_optional_uint32_list(2), Some(vec![4]));
    assert_eq!(object.get_optional_double_list(2), None);
}

#[test]
fn optional_bytes_list_is_present_when_the_field_holds_a_span() {
    let mut object = Object::new();
    object.add_bytes_list(3, &[&[7u8][..]]);
    assert_eq!(object.get_optional_bytes_list(3), Some(vec![vec![7u8]]));
    object.add_double(1, 0);
    assert_eq!(object.get_optional_bytes_list(1), None);
    object.add_bytes(1, &[]);
    object.add_bytes(1, &[1, 2]);
    assert_eq!(object.get_optional_bytes_list(1), Some(vec![vec![], vec![1u8, 2]]));
    object.clear_field(3);
    assert_eq!(object.get_optional_bytes_list(3), None);
}

#[test]
fn allocated_buffers_live_as_long_as_the_object() {
    let mut object = Object::new();
    let first = object.allocate_buffer(&[1, 2, 3]);
    let second = object.allocate_buffer(&[]);
    object.add_int32(1, 1);
    object.clear();
    assert_eq!(first, AllocatedBuffer { inner: 0 });
    assert_eq!(second.inner, 1);
    assert_eq!(object.get_buffer(&first), Some(vec![1, 2, 3]));
    assert_eq!(object.get_buffer(&second), Some(vec![]));
    assert_eq!(object.get_buffer(&AllocatedBuffer { inner: 2 }), None);
    assert_eq!(object.get_int32_count(1), 0);
}

#[test]
fn clone_is_a_deep_copy() {
    let mut object = Object::new();
    object.add_object(1).add_int32(1, 5);
    object.add_string(2, "s");
    let buffer = object.allocate_buffer(&[7]);
    let mut copy = object.clone();
    copy.get_object(1).add_int32(1, 6);
    copy.add_string(2, "t");
    assert_eq!(object.get_object(1).get_int32_list(1), vec![5]);
    assert_eq!(copy.get_object(1).get_int32_list(1), vec![5, 6]);
    assert_eq!(object.get_bytes_count(2), 1);
    assert_eq!(copy.get_bytes_count(2), 2);
    assert_eq!(copy.get_buffer(&buffer), Some(vec![7]));
}

#[test]
fn component_data_owns_its_fields() {
    let mut data = ComponentData::new();
    assert_eq!(data.fields().get_int32_count(1), 0);
    data.get_fields().add_int32(1, 3);
    data.get_fields().add_string(2, "name");
    assert_eq!(data.fields().get_int32(1), 3);
    let copy = data.clone();
    data.get_fields().clear();
    assert_eq!(copy.fields().get_string(2), Ok("name".to_string()));
    assert_eq!(data.fields().get_int32_count(1), 0);
    let mut fields = Object::new();
    fields.add_bool(1, true);
    assert!(ComponentData::from_fields(fields).fields().get_bool(1));
}

#[test]
fn component_update_tracks_cleared_fields_and_events() {
    let mut update = ComponentUpdate::new();
    assert_eq!(update.get_cleared_field_count(), 0);
    update.add_cleared_field(4);
    update.add_cleared_field(9);
    update.add_cleared_field(4);
    assert_eq!(update.get_cleared_field_count(), 2);
    assert!(update.is_field_cleared(4));
    assert!(update.is_field_cleared(9));
    assert!(!update.is_field_cleared(5));
    assert_eq!(update.index_cleared_field(0), Some(4));
    assert_eq!(update.index_cleared_field(1), Some(9));
    assert_eq!(update.index_cleared_field(2), None);
    update.get_fields().add_int32(1, 1);
    update.get_events().add_object(1).add_int32(1, 10);
    update.get_events().add_object(1).add_int32(1, 20);
    assert_eq!(update.get_events().get_object_count(1), 2);
    assert_eq!(update.get_events().index_object(1, 1).unwrap().get_int32(1), 20);
    assert_eq!(update.get_fields().get_int32(1), 1);
    let mut copy = update.clone();
    update.clear_cleared_fields();
    assert_eq!(update.get_cleared_field_count(), 0);
    assert!(!update.is_field_cleared(4));
    assert_eq!(copy.get_cleared_field_count(), 2);
    assert_eq!(copy.get_events().get_object_count(1), 2);
}

#[test]
fn command_payloads_own_their_objects() {
    let mut request = CommandRequest::new();
    request.get_object().add_uint32(1, 8);
    assert_eq!(request.object().get_uint32(1), 8);
    assert_eq!(request.clone().object().get_uint32(1), 8);
    let mut response = CommandResponse::new();
    response.get_object().add_string(1, "done");
    assert_eq!(response.object().get_string(1), Ok("done".to_string()));
    assert_eq!(response.clone().object().get_bytes_count(1), 1);
}

#[test]
fn single_value_read_gives_the_value_added_last() {
    let mut object = Object::new();
    object.add_uint32_list(1, &[1, 2, 3]);
    object.add_string(2, "old");
    object.add_string(2, "new");
    object.add_bool_list(3, &[true, false]);
    assert_eq!(object.get_uint32(1), 3);
    assert_eq!(object.index_uint32(1, 0), Ok(1));
    assert_eq!(object.get_string(2), Ok("new".to_string()));
    assert_eq!(object.index_string(2, 0), Ok("old".to_string()));
    assert!(!object.get_bool(3));
    assert_eq!(object.get_enum::<Colour>(1), Colour::Red);
    object.add_uint32(1, 2);
    assert_eq!(object.get_enum::<Colour>(1), Colour::Blue);
}

#[test]
fn reserved_spans_live_in_the_owner_of_the_object() {
    let mut data = ComponentData::new();
    let first = data.get_fields().allocate_buffer(&[1, 2]);
    data.get_fields().add_int32(1, 5);
    let second = data.get_fields().allocate_buffer(&[3]);
    data.get_fields().clear();
    assert_eq!(data.get_fields().get_buffer(&first), Some(vec![1, 2]));
    assert_eq!(data.fields().get_buffer(&second), Some(vec![3]));
    let copy = data.clone();
    assert_eq!(copy.fields().get_buffer(&first), Some(vec![1, 2]));
    assert_eq!(copy.fields().get_buffer(&second), Some(vec![3]));

    let mut update = ComponentUpdate::new();
    let in_fields = update.get_fields().allocate_buffer(&[4]);
    let in_events = update.get_events().allocate_buffer(&[5, 6]);
    update.add_cleared_field(1);
    assert_eq!(update.get_fields().get_buffer(&in_fields), Some(vec![4]));
    assert_eq!(update.get_events().get_buffer(&in_events), Some(vec![5, 6]));
    let mut copy = update.clone();
    assert_eq!(copy.get_events().get_buffer(&in_events), Some(vec![5, 6]));

    let mut request = CommandRequest::new();
    let span = request.get_object().allocate_buffer(&[7]);
    assert_eq!(request.object().get_buffer(&span), Some(vec![7]));
    assert_eq!(request.clone().object().get_buffer(&span), Some(vec![7]));
    let mut response = CommandResponse::new();
    let span = response.get_object().allocate_buffer(&[8]);
    assert_eq!(response.object().get_buffer(&span), Some(vec![8]));
    assert_eq!(response.clone().object().get_buffer(&span), Some(vec![8]));
    assert_eq!(CommandResponse::new().object().get_buffer(&span), None);
}
