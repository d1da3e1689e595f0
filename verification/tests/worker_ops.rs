use spatialos::schema;
use spatialos::worker::metrics::{
    HistogramMetricBucket, RawGaugeMetric, RawHistogramMetric, RawMetrics,
};
use spatialos::worker::op::{
    AddComponentOp, AddEntityOp, ComponentUpdateOp, OpList, OpType, RawAuthorityChangeOp,
    RawCommandRequestOp, RawCommandResponseOp, RawCreateEntityResponseOp, RawCriticalSectionOp,
    RawDeleteEntityResponseOp, RawDisconnectOp, RawEntityQueryResponseOp, RawFlagUpdateOp,
    RawLogMessageOp, RawMetricsOp, RawOp, RawOpData, RawReserveEntityIdsResponseOp,
    RemoveComponentOp, RemoveEntityOp, WorkerOp,
};
use spatialos::worker::payload::{CommandRequest, CommandResponse, ComponentUpdate};
use spatialos::worker::{
    Authority, ComponentData, ConnectionStatusCode, DecodeError, Entity, Handle, LogLevel,
    RawWorkerAttributes, StatusCode,
};

fn component_data(component_id: u32, value: i32) -> ComponentData {
    let mut data = schema::ComponentData::new();
    data.get_fields().add_int32(1, value);
    ComponentData { component_id, schema_type: Some(data), user_handle: None }
}

fn enter() -> RawOp {
    RawOp {
        op_type: 5,
        op: RawOpData::CriticalSection(RawCriticalSectionOp { in_critical_section: 1 }),
    }
}

fn leave() -> RawOp {
    RawOp {
        op_type: 5,
        op: RawOpData::CriticalSection(RawCriticalSectionOp { in_critical_section: 0 }),
    }
}

fn add_entity(entity_id: i64) -> RawOp {
    RawOp { op_type: 6, op: RawOpData::AddEntity(AddEntityOp { entity_id }) }
}

fn add_component(entity_id: i64, component_id: u32) -> RawOp {
    RawOp {
        op_type: 12,
        op: RawOpData::AddComponent(AddComponentOp {
            entity_id,
            data: component_data(component_id, 1),
        }),
    }
}

fn one_of_each() -> Vec<RawOp> {
    let mut update = schema::ComponentUpdate::new();
    update.get_fields().add_uint32(2, 77);
    update.add_cleared_field(3);
    let mut request = schema::CommandRequest::new();
    request.get_object().add_string(1, "ping");
    let mut response = schema::CommandResponse::new();
    response.get_object().add_string(1, "pong");
    vec![
        RawOp {
            op_type: 1,
            op: RawOpData::Disconnect(RawDisconnectOp {
                connection_status_code: 12,
                reason: b"shutdown".to_vec(),
            }),
        },
        RawOp {
            op_type: 2,
            op: RawOpData::FlagUpdate(RawFlagUpdateOp {
                name: b"flag".to_vec(),
                value: Some(b"on".to_vec()),
            }),
        },
        RawOp {
            op_type: 3,
            op: RawOpData::LogMessage(RawLogMessageOp { level: 3, message: b"careful".to_vec() }),
        },
        RawOp {
            op_type: 4,
            op: RawOpData::Metrics(RawMetricsOp {
                metrics: RawMetrics {
                    load: Some(0.5f64.to_bits()),
                    gauge_metrics: vec![RawGaugeMetric {
                        key: b"gauge".to_vec(),
                        value: 2.0f64.to_bits(),
                    }],
                    histogram_metrics: vec![RawHistogramMetric {
                        key: b"histogram".to_vec(),
                        sum: 6.0f64.to_bits(),
                        buckets: vec![HistogramMetricBucket {
                            upper_bound: 10.0f64.to_bits(),
                            samples: 3,
                        }],
                    }],
                },
            }),
        },
        enter(),
        add_entity(5),
        RawOp { op_type: 7, op: RawOpData::RemoveEntity(RemoveEntityOp { entity_id: 6 }) },
        RawOp {
            op_type: 8,
            op: RawOpData::ReserveEntityIdsResponse(RawReserveEntityIdsResponseOp {
                request_id: 1,
                status_code: 1,
                message: vec![],
                first_entity_id: 100,
                number_of_entity_ids: 10,
            }),
        },
        RawOp {
            op_type: 9,
            op: RawOpData::CreateEntityResponse(RawCreateEntityResponseOp {
                request_id: 2,
                status_code: 6,
                message: b"expired".to_vec(),
                entity_id: 0,
            }),
        },
        RawOp {
            op_type: 10,
            op: RawOpData::DeleteEntityResponse(RawDeleteEntityResponseOp {
                request_id: 3,
                entity_id: 9,
                status_code: 3,
                message: b"gone".to_vec(),
            }),
        },
        RawOp {
            op_type: 11,
            op: RawOpData::EntityQueryResponse(RawEntityQueryResponseOp {
                request_id: 4,
                status_code: 1,
                message: vec![],
                result_count: 1,
                results: Some(vec![Entity::new(8, vec![component_data(54, 3)]).unwrap()]),
            }),
        },
        add_component(5, 54),
        RawOp {
            op_type: 13,
            op: RawOpData::RemoveComponent(RemoveComponentOp { entity_id: 5, component_id: 58 }),
        },
        RawOp {
            op_type: 14,
            op: RawOpData::AuthorityChange(RawAuthorityChangeOp {
                entity_id: 5,
                component_id: 54,
                authority: 1,
            }),
        },
        RawOp {
            op_type: 15,
            op: RawOpData::ComponentUpdate(ComponentUpdateOp {
                entity_id: 5,
                update: ComponentUpdate {
                    component_id: 54,
                    schema_type: Some(update),
                    user_handle: Some(Handle { id: 7 }),
                },
            }),
        },
        RawOp {
            op_type: 16,
            op: RawOpData::CommandRequest(RawCommandRequestOp {
                request_id: 41,
                entity_id: 5,
                timeout_millis: 250,
                caller_worker_id: b"worker-1".to_vec(),
                caller_attribute_set: RawWorkerAttributes {
                    attribute_count: 2,
                    attributes: Some(vec![b"simulation".to_vec(), b"physics".to_vec()]),
                },
                request: CommandRequest {
                    component_id: 54,
                    command_index: 1,
                    schema_type: Some(request),
                    user_handle: None,
                },
            }),
        },
        RawOp {
            op_type: 17,
            op: RawOpData::CommandResponse(RawCommandResponseOp {
                request_id: 42,
                entity_id: 5,
                status_code: 1,
                message: vec![],
                response: CommandResponse {
                    component_id: 54,
                    command_index: 1,
                    schema_type: Some(response),
                    user_handle: None,
                },
            }),
        },
    ]
}

#[test]
fn one_of_each_op_kind_decodes_in_order() {
    let list = OpList::decode(one_of_each());
    assert_eq!(list.ops.len(), 17);
    for (i, op) in list.ops.iter().enumerate() {
        let op = op.as_ref().ok().unwrap();
        assert_eq!(op.op_type().to_u8(), i as u8 + 1);
    }
    let mut ops = list.ops.into_iter().map(|op| op.ok().unwrap());
    match ops.next().unwrap() {
        WorkerOp::Disconnect(op) => {
            assert_eq!(op.status_code, ConnectionStatusCode::ServerShutdown);
            assert_eq!(op.reason, "shutdown");
        }
        _ => panic!("not a disconnect"),
    }
    match ops.next().unwrap() {
        WorkerOp::FlagUpdate(op) => {
            assert_eq!(op.name, "flag");
            assert_eq!(op.value, Some("on".to_string()));
        }
        _ => panic!("not a flag update"),
    }
    match ops.next().unwrap() {
        WorkerOp::LogMessage(op) => {
            assert_eq!(op.level, LogLevel::Warn);
            assert_eq!(op.message, "careful");
        }
        _ => panic!("not a log message"),
    }
    match ops.next().unwrap() {
        WorkerOp::Metrics(op) => {
            assert_eq!(op.metrics.load.map(f64::from_bits), Some(0.5));
            assert_eq!(op.metrics.gauge_metrics.len(), 1);
            assert_eq!(op.metrics.gauge_metrics[0].key, "gauge");
            assert_eq!(f64::from_bits(op.metrics.gauge_metrics[0].value), 2.0);
            assert_eq!(op.metrics.histogram_metrics[0].key, "histogram");
            assert_eq!(f64::from_bits(op.metrics.histogram_metrics[0].sum), 6.0);
            assert_eq!(op.metrics.histogram_metrics[0].buckets.len(), 1);
            assert_eq!(op.metrics.histogram_metrics[0].buckets[0].samples, 3);
        }
        _ => panic!("not metrics"),
    }
    match ops.next().unwrap() {
        WorkerOp::CriticalSection(op) => assert!(op.in_critical_section),
        _ => panic!("not a critical section"),
    }
    match ops.next().unwrap() {
        WorkerOp::AddEntity(op) => assert_eq!(op.entity_id, 5),
        _ => panic!("not an add entity"),
    }
    match ops.next().unwrap() {
        WorkerOp::RemoveEntity(op) => assert_eq!(op.entity_id, 6),
        _ => panic!("not a remove entity"),
    }
    match ops.next().unwrap() {
        WorkerOp::ReserveEntityIdsResponse(op) => {
            assert_eq!(op.request_id, 1);
            assert_eq!(op.status_code, StatusCode::Success);
            assert_eq!(op.message, "");
            assert_eq!(op.first_entity_id, 100);
            assert_eq!(op.number_of_entity_ids, 10);
        }
        _ => panic!("not a reserve entity ids response"),
    }
    match ops.next().unwrap() {
        WorkerOp::CreateEntityResponse(op) => {
            assert_eq!(op.request_id, 2);
            assert_eq!(op.status_code, StatusCode::ApplicationError);
            assert_eq!(op.message, "expired");
            assert_eq!(op.entity_id, 0);
        }
        _ => panic!("not a create entity response"),
    }
    match ops.next().unwrap() {
        WorkerOp::DeleteEntityResponse(op) => {
            assert_eq!(op.request_id, 3);
            assert_eq!(op.entity_id, 9);
            assert_eq!(op.status_code, StatusCode::NotFound);
            assert_eq!(op.message, "gone");
        }
        _ => panic!("not a delete entity response"),
    }
    match ops.next().unwrap() {
        WorkerOp::EntityQueryResponse(op) => {
            assert_eq!(op.request_id, 4);
            assert_eq!(op.status_code, StatusCode::Success);
            assert_eq!(op.result_count, 1);
            assert_eq!(op.results.len(), 1);
            assert_eq!(op.results[0].entity_id, 8);
            assert_eq!(op.results[0].component_count, 1);
            let data = op.results[0].components[0].schema_type.as_ref().unwrap();
            assert_eq!(data.fields().get_int32(1), 3);
        }
        _ => panic!("not an entity query response"),
    }
    match ops.next().unwrap() {
        WorkerOp::AddComponent(op) => {
            assert_eq!(op.entity_id, 5);
            assert_eq!(op.data.component_id, 54);
            assert_eq!(op.data.schema_type.unwrap().fields().get_int32(1), 1);
            assert_eq!(op.data.user_handle, None);
        }
        _ => panic!("not an add component"),
    }
    match ops.next().unwrap() {
        WorkerOp::RemoveComponent(op) => {
            assert_eq!(op.entity_id, 5);
            assert_eq!(op.component_id, 58);
        }
        _ => panic!("not a remove component"),
    }
    match ops.next().unwrap() {
        WorkerOp::AuthorityChange(op) => {
            assert_eq!(op.entity_id, 5);
            assert_eq!(op.component_id, 54);
            assert_eq!(op.authority, Authority::Authoritative);
        }
        _ => panic!("not an authority change"),
    }
    match ops.next().unwrap() {
        WorkerOp::ComponentUpdate(op) => {
            assert_eq!(op.entity_id, 5);
            assert_eq!(op.update.component_id, 54);
            assert_eq!(op.update.user_handle, Some(Handle { id: 7 }));
            let mut update = op.update.schema_type.unwrap();
            assert_eq!(update.get_fields().get_uint32(2), 77);
            assert!(update.is_field_cleared(3));
        }
        _ => panic!("not a component update"),
    }
    match ops.next().unwrap() {
        WorkerOp::CommandRequest(op) => {
            assert_eq!(op.request_id, 41);
            assert_eq!(op.entity_id, 5);
            assert_eq!(op.timeout_millis, 250);
            assert_eq!(op.caller_worker_id, "worker-1");
            assert_eq!(op.caller_attribute_set.attribute_count, 2);
            assert_eq!(op.caller_attribute_set.attributes, vec!["simulation", "physics"]);
            assert_eq!(op.request.command_index, 1);
            assert_eq!(
                op.request.schema_type.unwrap().object().get_string(1),
                Ok("ping".to_string())
            );
        }
        _ => panic!("not a command request"),
    }
    match ops.next().unwrap() {
        WorkerOp::CommandResponse(op) => {
            assert_eq!(op.request_id, 42);
            assert_eq!(op.status_code, StatusCode::Success);
            assert_eq!(op.entity_id, 5);
            assert_eq!(op.message, "");
            assert_eq!(
                op.response.schema_type.unwrap().object().get_string(1),
                Ok("pong".to_string())
            );
        }
        _ => panic!("not a command response"),
    }
    assert!(ops.next().is_none());
}

#[test]
fn command_response_with_status_success_and_request_id_42() {
    let raw = RawOp {
        op_type: 17,
        op: RawOpData::CommandResponse(RawCommandResponseOp {
            request_id: 42,
            entity_id: 0,
            status_code: 1,
            message: vec![],
            response: CommandResponse {
                component_id: 0,
                command_index: 0,
                schema_type: None,
                user_handle: None,
            },
        }),
    };
    match WorkerOp::decode(raw) {
        Ok(WorkerOp::CommandResponse(op)) => {
            assert_eq!(op.request_id, 42);
            assert_eq!(op.status_code, StatusCode::Success);
        }
        _ => panic!("not a command response"),
    }
}

#[test]
fn empty_batch_decodes_to_no_ops() {
    let list = OpList::decode(Vec::new());
    assert!(list.ops.is_empty());
    assert!(list.atomic_units().is_empty());
    assert_eq!(list.unit_end(0), 0);
}

#[test]
fn unknown_op_type_is_rejected() {
    let mut raw = add_entity(1);
    raw.op_type = 0;
    assert!(matches!(WorkerOp::decode(raw), Err(DecodeError::UnknownType)));
    let mut raw = add_entity(1);
    raw.op_type = 18;
    assert!(matches!(WorkerOp::decode(raw), Err(DecodeError::UnknownType)));
}

#[test]
fn payload_of_another_kind_is_rejected() {
    let mut raw = add_entity(1);
    raw.op_type = 7;
    assert!(matches!(WorkerOp::decode(raw), Err(DecodeError::PayloadMismatch)));
    let mut raw = enter();
    raw.op_type = 1;
    assert!(matches!(WorkerOp::decode(raw), Err(DecodeError::PayloadMismatch)));
}

#[test]
fn invalid_codes_are_rejected() {
    let raw = RawOp {
        op_type: 5,
        op: RawOpData::CriticalSection(RawCriticalSectionOp { in_critical_section: 2 }),
    };
    assert!(matches!(WorkerOp::decode(raw), Err(DecodeError::InvalidCode)));
    let raw = RawOp {
        op_type: 1,
        op: RawOpData::Disconnect(RawDisconnectOp {
            connection_status_code: 0,
            reason: vec![0xff],
        }),
    };
    assert!(matches!(WorkerOp::decode(raw), Err(DecodeError::InvalidCode)));
    let raw = RawOp {
        op_type: 14,
        op: RawOpData::AuthorityChange(RawAuthorityChangeOp {
            entity_id: 1,
            component_id: 1,
            authority: 3,
        }),
    };
    assert!(matches!(WorkerOp::decode(raw), Err(DecodeError::InvalidCode)));
    let raw = RawOp {
        op_type: 3,
        op: RawOpData::LogMessage(RawLogMessageOp { level: 0, message: vec![] }),
    };
    assert!(matches!(WorkerOp::decode(raw), Err(DecodeError::InvalidCode)));
    let raw = RawOp {
        op_type: 9,
        op: RawOpData::CreateEntityResponse(RawCreateEntityResponseOp {
            request_id: 1,
            status_code: 8,
            message: vec![],
            entity_id: 1,
        }),
    };
    assert!(matches!(WorkerOp::decode(raw), Err(DecodeError::InvalidCode)));
}

#[test]
fn malformed_text_is_an_encoding_error() {
    let raw = RawOp {
        op_type: 1,
        op: RawOpData::Disconnect(RawDisconnectOp {
            connection_status_code: 1,
            reason: vec![0xff],
        }),
    };
    assert!(matches!(WorkerOp::decode(raw), Err(DecodeError::Encoding)));
    let raw = RawOp {
        op_type: 2,
        op: RawOpData::FlagUpdate(RawFlagUpdateOp { name: b"n".to_vec(), value: Some(vec![0x80]) }),
    };
    assert!(matches!(WorkerOp::decode(raw), Err(DecodeError::Encoding)));
    let raw = RawOp {
        op_type: 4,
        op: RawOpData::Metrics(RawMetricsOp {
            metrics: RawMetrics {
                load: None,
                gauge_metrics: vec![RawGaugeMetric { key: vec![0xc3], value: 0 }],
                histogram_metrics: vec![],
            },
        }),
    };
    assert!(matches!(WorkerOp::decode(raw), Err(DecodeError::Encoding)));
    let raw = RawOp {
        op_type: 16,
        op: RawOpData::CommandRequest(RawCommandRequestOp {
            request_id: 1,
            entity_id: 1,
            timeout_millis: 0,
            caller_worker_id: b"w".to_vec(),
            caller_attribute_set: RawWorkerAttributes {
                attribute_count: 1,
                attributes: Some(vec![vec![0xff]]),
            },
            request: CommandRequest {
                component_id: 1,
                command_index: 1,
                schema_type: None,
                user_handle: None,
            },
        }),
    };
    assert!(matches!(WorkerOp::decode(raw), Err(DecodeError::Encoding)));
}

#[test]
fn deleted_flag_and_missing_attributes_decode() {
    let raw = RawOp {
        op_type: 2,
        op: RawOpData::FlagUpdate(RawFlagUpdateOp { name: b"gone".to_vec(), value: None }),
    };
    match WorkerOp::decode(raw) {
        Ok(WorkerOp::FlagUpdate(op)) => {
            assert_eq!(op.name, "gone");
            assert_eq!(op.value, None);
        }
        _ => panic!("not a flag update"),
    }
    let raw = RawOp {
        op_type: 16,
        op: RawOpData::CommandRequest(RawCommandRequestOp {
            request_id: 1,
            entity_id: 1,
            timeout_millis: 0,
            caller_worker_id: b"w".to_vec(),
            caller_attribute_set: RawWorkerAttributes { attribute_count: 3, attributes: None },
            request: CommandRequest {
                component_id: 1,
                command_index: 1,
                schema_type: None,
                user_handle: None,
            },
        }),
    };
    match WorkerOp::decode(raw) {
        Ok(WorkerOp::CommandRequest(op)) => {
            assert_eq!(op.caller_attribute_set.attribute_count, 3);
            assert!(op.caller_attribute_set.attributes.is_empty());
        }
        _ => panic!("not a command request"),
    }
}

#[test]
fn query_response_result_set_must_agree_with_its_count() {
    let raw = RawOp {
        op_type: 11,
        op: RawOpData::EntityQueryResponse(RawEntityQueryResponseOp {
            request_id: 4,
            status_code: 1,
            message: vec![],
            result_count: 2,
            results: Some(vec![Entity::new(8, vec![]).unwrap()]),
        }),
    };
    assert!(matches!(WorkerOp::decode(raw), Err(DecodeError::CountMismatch)));
    let raw = RawOp {
        op_type: 11,
        op: RawOpData::EntityQueryResponse(RawEntityQueryResponseOp {
            request_id: 4,
            status_code: 1,
            message: vec![],
            result_count: 25,
            results: None,
        }),
    };
    match WorkerOp::decode(raw) {
        Ok(WorkerOp::EntityQueryResponse(op)) => {
            assert_eq!(op.result_count, 25);
            assert!(op.results.is_empty());
        }
        _ => panic!("not an entity query response"),
    }
}

#[test]
fn a_malformed_record_does_not_spoil_the_batch() {
    let mut bad = add_entity(2);
    bad.op_type = 99;
    let list = OpList::decode(vec![add_entity(1), bad, add_entity(3)]);
    assert_eq!(list.ops.len(), 3);
    assert!(matches!(list.ops[0], Ok(WorkerOp::AddEntity(AddEntityOp { entity_id: 1 }))));
    assert!(matches!(list.ops[1], Err(DecodeError::UnknownType)));
    assert!(matches!(list.ops[2], Ok(WorkerOp::AddEntity(AddEntityOp { entity_id: 3 }))));
}

#[test]
fn critical_section_is_one_atomic_unit() {
    let list = OpList::decode(vec![enter(), add_entity(5), add_component(5, 54), leave()]);
    assert_eq!(list.atomic_units(), vec![(0, 4)]);
    assert_eq!(list.unit_end(0), 4);

    // A consumer that applies whole units: entity 5 is never seen without
    // its component.
    let mut entities: Vec<(i64, Vec<u32>)> = Vec::new();
    let mut observed: Vec<Vec<(i64, Vec<u32>)>> = vec![entities.clone()];
    for (start, end) in list.atomic_units() {
        for op in &list.ops[start..end] {
            match op {
                Ok(WorkerOp::AddEntity(op)) => entities.push((op.entity_id, Vec::new())),
                Ok(WorkerOp::AddComponent(op)) => {
                    for entity in entities.iter_mut() {
                        if entity.0 == op.entity_id {
                            entity.1.push(op.data.component_id);
                        }
                    }
                }
                _ => {}
            }
        }
        observed.push(entities.clone());
    }
    assert_eq!(observed, vec![vec![], vec![(5, vec![54])]]);
    for state in &observed {
        for entity in state {
            assert!(entity.0 != 5 || entity.1 == vec![54]);
        }
    }
}

#[test]
fn ops_outside_critical_sections_are_units_of_their_own() {
    let list = OpList::decode(vec![
        add_entity(1),
        enter(),
        add_entity(2),
        leave(),
        add_entity(3),
        enter(),
        leave(),
        leave(),
        enter(),
        add_entity(4),
    ]);
    assert_eq!(list.atomic_units(), vec![(0, 1), (1, 4), (4, 5), (5, 7), (7, 8), (8, 10)]);
    assert_eq!(list.unit_end(1), 4);
    assert_eq!(list.unit_end(2), 3);
    assert_eq!(list.unit_end(8), 10);
    assert_eq!(list.unit_end(10), 10);
    assert_eq!(list.unit_end(50), 10);
}

#[test]
fn op_kind_follows_the_payload() {
    assert_eq!(enter().op.op_type(), OpType::CriticalSection);
    assert_eq!(add_entity(1).op.op_type(), OpType::AddEntity);
    assert_eq!(add_component(1, 2).op.op_type(), OpType::AddComponent);
}
