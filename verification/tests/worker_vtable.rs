use spatialos::schema;
use spatialos::worker::component_vtable::{
    deserialize_outcome, Callback, ComponentVtable, Dispatch, HandleKind, Inbound, Operation,
    Outbound, VtableRegistry,
};
use spatialos::worker::handles::{LifetimeError, SharedHandles};
use spatialos::worker::{DecodeError, Handle};

fn vtable(component_id: u32, base: u32) -> ComponentVtable {
    let mut vtable = ComponentVtable::empty(component_id);
    vtable.user_data = base as u64;
    vtable.component_data_free = Some(Callback { id: base });
    vtable.component_data_copy = Some(Callback { id: base + 1 });
    vtable.component_data_deserialize = Some(Callback { id: base + 2 });
    vtable.component_data_serialize = Some(Callback { id: base + 3 });
    vtable
}

#[test]
fn empty_vtable_has_no_callback() {
    let vtable = ComponentVtable::empty(54);
    assert_eq!(vtable.component_id, 54);
    for kind in [
        HandleKind::CommandRequest,
        HandleKind::CommandResponse,
        HandleKind::ComponentData,
        HandleKind::ComponentUpdate,
    ] {
        for operation in
            [Operation::Free, Operation::Copy, Operation::Deserialize, Operation::Serialize]
        {
            assert_eq!(vtable.callback(kind, operation), None);
        }
    }
}

#[test]
fn each_slot_is_its_own() {
    let mut vtable = ComponentVtable::empty(1);
    vtable.command_request_free = Some(Callback { id: 1 });
    vtable.command_request_copy = Some(Callback { id: 2 });
    vtable.command_request_deserialize = Some(Callback { id: 3 });
    vtable.command_request_serialize = Some(Callback { id: 4 });
    vtable.command_response_free = Some(Callback { id: 5 });
    vtable.command_response_copy = Some(Callback { id: 6 });
    vtable.command_response_deserialize = Some(Callback { id: 7 });
    vtable.command_response_serialize = Some(Callback { id: 8 });
    vtable.component_data_free = Some(Callback { id: 9 });
    vtable.component_data_copy = Some(Callback { id: 10 });
    vtable.component_data_deserialize = Some(Callback { id: 11 });
    vtable.component_data_serialize = Some(Callback { id: 12 });
    vtable.component_update_free = Some(Callback { id: 13 });
    vtable.component_update_copy = Some(Callback { id: 14 });
    vtable.component_update_deserialize = Some(Callback { id: 15 });
    vtable.component_update_serialize = Some(Callback { id: 16 });
    let mut expected = 1;
    for kind in [
        HandleKind::CommandRequest,
        HandleKind::CommandResponse,
        HandleKind::ComponentData,
        HandleKind::ComponentUpdate,
    ] {
        for operation in
            [Operation::Free, Operation::Copy, Operation::Deserialize, Operation::Serialize]
        {
            assert_eq!(vtable.callback(kind, operation), Some(Callback { id: expected }));
            expected += 1;
        }
    }
}

#[test]
fn registered_vtable_wins_over_the_default() {
    let registry =
        VtableRegistry::new(vec![vtable(54, 100), vtable(58, 200)], Some(vtable(0, 900)));
    assert_eq!(registry.resolve(54), Some(vtable(54, 100)));
    assert_eq!(registry.resolve(58), Some(vtable(58, 200)));
    assert_eq!(registry.resolve(60), Some(vtable(0, 900)));
    assert_eq!(
        registry.dispatch(58, HandleKind::ComponentData, Operation::Deserialize),
        Dispatch::Call { callback: Callback { id: 202 }, user_data: 200 }
    );
    assert_eq!(
        registry.dispatch(60, HandleKind::ComponentData, Operation::Copy),
        Dispatch::Call { callback: Callback { id: 901 }, user_data: 900 }
    );
}

#[test]
fn the_first_registration_of_a_component_applies() {
    let registry = VtableRegistry::new(vec![vtable(54, 100), vtable(54, 200)], None);
    assert_eq!(registry.resolve(54), Some(vtable(54, 100)));
}

#[test]
fn empty_slot_falls_back_to_passthrough_and_not_to_the_default() {
    let registry = VtableRegistry::new(vec![vtable(54, 100)], Some(vtable(0, 900)));
    assert_eq!(
        registry.dispatch(54, HandleKind::ComponentUpdate, Operation::Deserialize),
        Dispatch::Passthrough
    );
    let registry = VtableRegistry::new(vec![vtable(54, 100)], None);
    assert_eq!(registry.resolve(60), None);
    assert_eq!(
        registry.dispatch(60, HandleKind::ComponentData, Operation::Serialize),
        Dispatch::Passthrough
    );
}

#[test]
fn component_data_round_trips_through_a_passthrough_vtable() {
    let sender = VtableRegistry::new(Vec::new(), Some(ComponentVtable::empty(0)));
    let receiver = VtableRegistry::new(Vec::new(), Some(ComponentVtable::empty(0)));
    let mut data = schema::ComponentData::new();
    data.get_fields().add_int32(1, -5);
    data.get_fields().add_string(2, "name");
    data.get_fields().add_double_list(3, &[1.5f64.to_bits(), 2.5f64.to_bits()]);
    data.get_fields().add_object(4).add_bool(1, true);
    let sent = data.clone();

    let wire = match sender.outbound(54, HandleKind::ComponentData, Some(data), None) {
        Outbound::Raw(wire) => wire,
        _ => panic!("not sent raw"),
    };
    let mut arrived = match receiver.inbound(54, HandleKind::ComponentData, wire) {
        Inbound::Raw(arrived) => arrived,
        _ => panic!("not delivered raw"),
    };
    assert_eq!(arrived.fields().get_int32_list(1), sent.fields().get_int32_list(1));
    assert_eq!(arrived.fields().get_int32(1), -5);
    assert_eq!(arrived.fields().get_string(2), Ok("name".to_string()));
    assert_eq!(arrived.fields().get_double_list(3), vec![1.5f64.to_bits(), 2.5f64.to_bits()]);
    assert_eq!(arrived.get_fields().get_object_count(4), 1);
    assert!(arrived.get_fields().get_object(4).get_bool(1));
    assert_eq!(arrived.fields().get_bytes_count(1), 0);
}

#[test]
fn handles_leave_through_the_serialize_callback() {
    let registry = VtableRegistry::new(vec![vtable(54, 100)], None);
    let handle = Handle { id: 3 };
    match registry.outbound::<schema::ComponentData>(
        54,
        HandleKind::ComponentData,
        None,
        Some(handle),
    ) {
        Outbound::Serialize { callback, user_data, handle: sent } => {
            assert_eq!(callback, Callback { id: 103 });
            assert_eq!(user_data, 100);
            assert_eq!(sent, handle);
        }
        _ => panic!("not serialized"),
    }
    assert!(matches!(
        registry.outbound::<schema::ComponentData>(
            58,
            HandleKind::ComponentData,
            None,
            Some(handle)
        ),
        Outbound::Unsendable
    ));
    assert!(matches!(
        registry.outbound::<schema::ComponentData>(54, HandleKind::ComponentData, None, None),
        Outbound::Unsendable
    ));
    assert!(matches!(
        registry.outbound(
            54,
            HandleKind::ComponentData,
            Some(schema::ComponentData::new()),
            Some(handle)
        ),
        Outbound::Raw(_)
    ));
}

#[test]
fn schema_data_arrives_through_the_deserialize_callback() {
    let registry = VtableRegistry::new(vec![vtable(54, 100)], None);
    match registry.inbound(54, HandleKind::ComponentData, schema::ComponentData::new()) {
        Inbound::Deserialize { callback, user_data, .. } => {
            assert_eq!(callback, Callback { id: 102 });
            assert_eq!(user_data, 100);
        }
        _ => panic!("not deserialized"),
    }
    assert!(matches!(
        registry.inbound(54, HandleKind::ComponentUpdate, schema::ComponentUpdate::new()),
        Inbound::Raw(_)
    ));
}

#[test]
fn deserialize_failure_is_a_typed_error() {
    assert_eq!(deserialize_outcome(1, Handle { id: 9 }), Ok(Handle { id: 9 }));
    assert_eq!(deserialize_outcome(255, Handle { id: 9 }), Ok(Handle { id: 9 }));
    assert_eq!(deserialize_outcome(0, Handle { id: 9 }), Err(DecodeError::Deserialize));
}

#[test]
fn two_copies_and_a_free_for_each_keep_the_resource_until_the_last_free() {
    let mut store: SharedHandles<String> = SharedHandles::new();
    let handle = store.produce("resource".to_string());
    assert_eq!(store.ref_count(handle), 1);
    let first = store.copy(handle).unwrap();
    let second = store.copy(handle).unwrap();
    assert_eq!(first, handle);
    assert_eq!(second, handle);
    assert_eq!(store.ref_count(handle), 3);

    // The owner gives its own reference back; the copies keep the value.
    assert_eq!(store.free(handle), Ok(None));
    assert!(store.is_alive(handle));
    assert_eq!(store.free(first), Ok(None));
    assert!(store.is_alive(handle));
    assert_eq!(store.get(second), Some(&"resource".to_string()));
    assert_eq!(store.free(second), Ok(Some("resource".to_string())));
    assert!(!store.is_alive(handle));
    assert_eq!(store.ref_count(handle), 0);
    assert_eq!(store.get(handle), None);

    // One free too many is flagged, not ignored.
    assert_eq!(store.free(handle), Err(LifetimeError::NotAlive));
    assert_eq!(store.copy(handle), Err(LifetimeError::NotAlive));
    assert!(!store.is_alive(handle));
}

#[test]
fn handles_are_independent_of_one_another() {
    let mut store: SharedHandles<u32> = SharedHandles::new();
    let a = store.produce(1);
    let b = store.produce(2);
    assert_eq!(a, Handle { id: 0 });
    assert_eq!(b, Handle { id: 1 });
    assert_eq!(store.free(a), Ok(Some(1)));
    assert_eq!(store.get(b), Some(&2));
    assert_eq!(store.free(Handle { id: 2 }), Err(LifetimeError::NotAlive));
    assert_eq!(store.free(Handle { id: u64::MAX }), Err(LifetimeError::NotAlive));
    let c = store.produce(3);
    assert_eq!(c, Handle { id: 2 });
    assert!(!store.is_alive(a));
    assert_eq!(store.copy(b), Ok(b));
    assert_eq!(store.ref_count(b), 2);
}
