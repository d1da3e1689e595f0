use spatialos::schema;
use spatialos::worker::handles::{LifetimeError, SharedHandles};
use spatialos::worker::log_message::{LogMessage, RawLogMessage};
use spatialos::worker::op::{
    AddComponentOp, AddEntityOp, ComponentUpdateOp, OpList, RawEntityQueryResponseOp, RawOp,
    RawOpData,
};
use spatialos::worker::payload::{CommandRequest, CommandResponse, ComponentUpdate};
use spatialos::worker::{ComponentData, DecodeError, Entity, Handle, LogLevel};

#[test]
fn acquired_component_data_outlives_the_batch() {
    let mut handles: SharedHandles<u8> = SharedHandles::new();
    let handle = handles.produce(1);
    let acquired = {
        let mut data = schema::ComponentData::new();
        data.get_fields().add_int32(1, 9);
        let in_batch =
            ComponentData { component_id: 54, schema_type: Some(data), user_handle: Some(handle) };
        let acquired = in_batch.acquire(&mut handles).ok().unwrap();
        assert_eq!(handles.ref_count(handle), 2);
        // The batch is destroyed: its own reference goes.
        assert!(in_batch.release(&mut handles).is_ok());
        acquired
    };
    assert_eq!(handles.ref_count(handle), 1);
    assert_eq!(acquired.component_id, 54);
    assert_eq!(acquired.user_handle, Some(handle));
    assert_eq!(acquired.schema_type.as_ref().unwrap().fields().get_int32(1), 9);
    assert!(acquired.release(&mut handles).is_ok());
    assert!(!handles.is_alive(handle));
}

#[test]
fn release_without_a_reference_is_flagged() {
    let mut handles: SharedHandles<u8> = SharedHandles::new();
    let handle = handles.produce(1);
    let payload = ComponentData { component_id: 1, schema_type: None, user_handle: Some(handle) };
    let twin = ComponentData { component_id: 1, schema_type: None, user_handle: Some(handle) };
    assert_eq!(payload.release(&mut handles), Ok(()));
    assert_eq!(twin.release(&mut handles), Err(LifetimeError::NotAlive));
    let dead = ComponentData { component_id: 1, schema_type: None, user_handle: Some(handle) };
    assert!(matches!(dead.acquire(&mut handles), Err(LifetimeError::NotAlive)));
    let unknown =
        ComponentData { component_id: 1, schema_type: None, user_handle: Some(Handle { id: 77 }) };
    assert!(matches!(unknown.acquire(&mut handles), Err(LifetimeError::NotAlive)));
}

#[test]
fn payloads_without_a_handle_are_deep_copies() {
    let mut handles: SharedHandles<u8> = SharedHandles::new();
    let mut update = schema::ComponentUpdate::new();
    update.get_fields().add_uint32(1, 4);
    update.add_cleared_field(2);
    let payload = ComponentUpdate { component_id: 3, schema_type: Some(update), user_handle: None };
    let mut copy = payload.acquire(&mut handles).ok().unwrap();
    copy.schema_type.as_mut().unwrap().get_fields().add_uint32(1, 5);
    assert_eq!(payload.schema_type.as_ref().unwrap().is_field_cleared(2), true);
    assert_eq!(copy.schema_type.as_mut().unwrap().get_fields().get_uint32_list(1), vec![4, 5]);
    assert!(copy.schema_type.as_ref().unwrap().is_field_cleared(2));
    assert_eq!(payload.release(&mut handles), Ok(()));
    assert_eq!(copy.release(&mut handles), Ok(()));

    let mut request = schema::CommandRequest::new();
    request.get_object().add_string(1, "q");
    let payload = CommandRequest {
        component_id: 1,
        command_index: 2,
        schema_type: Some(request),
        user_handle: None,
    };
    let copy = payload.acquire(&mut handles).ok().unwrap();
    assert_eq!(copy.component_id, 1);
    assert_eq!(copy.command_index, 2);
    assert_eq!(copy.schema_type.unwrap().object().get_string(1), Ok("q".to_string()));

    let payload =
        CommandResponse { component_id: 1, command_index: 2, schema_type: None, user_handle: None };
    let copy = payload.acquire(&mut handles).ok().unwrap();
    assert!(copy.schema_type.is_none());
    assert_eq!(copy.command_index, 2);
    assert_eq!(copy.release(&mut handles), Ok(()));
}

#[test]
fn entity_counts_its_components() {
    let entity = Entity::new(
        3,
        vec![
            ComponentData { component_id: 1, schema_type: None, user_handle: None },
            ComponentData { component_id: 2, schema_type: None, user_handle: None },
        ],
    )
    .unwrap();
    assert_eq!(entity.entity_id, 3);
    assert_eq!(entity.component_count, 2);
    assert_eq!(entity.components[1].component_id, 2);
}

#[test]
fn log_message_round_trips_through_its_record() {
    let message = LogMessage::new(LogLevel::Debug, "logger", "text", None);
    let raw = message.encode().unwrap();
    let decoded = LogMessage::decode(&raw).unwrap();
    assert_eq!(decoded.level, LogLevel::Debug);
    assert_eq!(decoded.logger_name, "logger");
    assert_eq!(decoded.message, "text");
    assert_eq!(decoded.entity_id, None);
}

#[test]
fn malformed_log_records_are_rejected() {
    let raw = RawLogMessage { level: 9, logger_name: vec![0xff], message: vec![], entity_id: None };
    assert!(matches!(LogMessage::decode(&raw), Err(DecodeError::InvalidCode)));
    let raw = RawLogMessage { level: 1, logger_name: vec![0xff], message: vec![], entity_id: None };
    assert!(matches!(LogMessage::decode(&raw), Err(DecodeError::Encoding)));
    let raw =
        RawLogMessage { level: 1, logger_name: vec![], message: vec![0xc2], entity_id: Some(1) };
    assert!(matches!(LogMessage::decode(&raw), Err(DecodeError::Encoding)));
}

fn batch_with_handles(a: Handle, b: Handle, c: Handle) -> Vec<RawOp> {
    vec![
        RawOp { op_type: 6, op: RawOpData::AddEntity(AddEntityOp { entity_id: 1 }) },
        RawOp {
            op_type: 12,
            op: RawOpData::AddComponent(AddComponentOp {
                entity_id: 1,
                data: ComponentData { component_id: 54, schema_type: None, user_handle: Some(a) },
            }),
        },
        RawOp { op_type: 200, op: RawOpData::AddEntity(AddEntityOp { entity_id: 2 }) },
        RawOp {
            op_type: 15,
            op: RawOpData::ComponentUpdate(ComponentUpdateOp {
                entity_id: 1,
                update: ComponentUpdate { component_id: 54, schema_type: None, user_handle: None },
            }),
        },
        RawOp {
            op_type: 11,
            op: RawOpData::EntityQueryResponse(RawEntityQueryResponseOp {
                request_id: 1,
                status_code: 1,
                message: vec![],
                result_count: 2,
                results: Some(vec![
                    Entity::new(
                        7,
                        vec![
                            ComponentData {
                                component_id: 1,
                                schema_type: None,
                                user_handle: Some(b),
                            },
                            ComponentData { component_id: 2, schema_type: None, user_handle: None },
                        ],
                    )
                    .unwrap(),
                    Entity::new(
                        8,
                        vec![ComponentData {
                            component_id: 1,
                            schema_type: None,
                            user_handle: Some(c),
                        }],
                    )
                    .unwrap(),
                ]),
            }),
        },
    ]
}

#[test]
fn teardown_frees_every_handle_of_the_batch_once() {
    let mut store: SharedHandles<&str> = SharedHandles::new();
    let a = store.produce("a");
    let b = store.produce("b");
    let c = store.produce("c");
    let kept = store.copy(b).unwrap();
    let list = OpList::decode(batch_with_handles(a, b, c));
    assert_eq!(list.handles(), vec![a, b, c]);
    assert_eq!(list.destroy(&mut store), 0);
    assert!(!store.is_alive(a));
    assert!(!store.is_alive(c));
    assert!(store.is_alive(kept));
    assert_eq!(store.ref_count(b), 1);
    assert_eq!(store.free(kept), Ok(Some("b")));
}

#[test]
fn teardown_reports_a_double_free() {
    let mut store: SharedHandles<&str> = SharedHandles::new();
    let a = store.produce("a");
    let b = store.produce("b");
    let list = OpList::decode(batch_with_handles(a, a, b));
    assert_eq!(list.handles(), vec![a, a, b]);
    assert_eq!(list.destroy(&mut store), 1);
    assert!(!store.is_alive(a));
    assert!(!store.is_alive(b));
    assert_eq!(OpList::decode(Vec::new()).destroy(&mut store), 0);
}

#[test]
fn acquired_payloads_survive_the_teardown_of_the_batch() {
    let mut store: SharedHandles<&str> = SharedHandles::new();
    let a = store.produce("a");
    let b = store.produce("b");
    let c = store.produce("c");
    let list = OpList::decode(batch_with_handles(a, b, c));
    // The caller acquires two of the three payloads of the batch.
    let kept_a = ComponentData { component_id: 54, schema_type: None, user_handle: Some(a) }
        .acquire(&mut store)
        .ok()
        .unwrap();
    let kept_c = ComponentData { component_id: 1, schema_type: None, user_handle: Some(c) }
        .acquire(&mut store)
        .ok()
        .unwrap();
    assert_eq!(list.destroy(&mut store), 0);
    assert!(store.is_alive(a));
    assert!(!store.is_alive(b));
    assert!(store.is_alive(c));
    assert_eq!(store.ref_count(a), 1);
    assert_eq!(store.ref_count(c), 1);
    assert_eq!(kept_a.release(&mut store), Ok(()));
    assert_eq!(kept_c.release(&mut store), Ok(()));
    assert!(!store.is_alive(a));
    assert!(!store.is_alive(c));
}
