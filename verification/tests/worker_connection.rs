use spatialos::worker::connection::{
    classify_request_id, Correlation, RequestKind, RequestTracker, SendOutcome,
    REJECTED_REQUEST_ID,
};
use spatialos::worker::log_message::{contains_zero_byte, LogMessage};
use spatialos::worker::metrics::{Metrics, RawGaugeMetric, RawMetrics};
use spatialos::worker::op::{
    AddEntityOp, CreateEntityResponseOp, DeleteEntityResponseOp, EntityQueryResponseOp,
    ReserveEntityIdsResponseOp, WorkerOp,
};
use spatialos::worker::text::decode_text;
use spatialos::worker::{
    decode_texts, DecodeError, LogLevel, RawWorkerAttributes, RetryPolicy, StatusCode,
    WorkerAttributes,
};

fn query_response(request_id: i64, status_code: StatusCode) -> WorkerOp {
    WorkerOp::EntityQueryResponse(EntityQueryResponseOp {
        request_id,
        status_code,
        message: String::new(),
        result_count: 0,
        results: Vec::new(),
    })
}

#[test]
fn minus_one_is_a_local_rejection() {
    assert_eq!(REJECTED_REQUEST_ID, -1);
    assert_eq!(classify_request_id(-1), SendOutcome::Rejected);
    assert_eq!(classify_request_id(0), SendOutcome::Sent(0));
    assert_eq!(classify_request_id(42), SendOutcome::Sent(42));
    assert_eq!(classify_request_id(-2), SendOutcome::Sent(-2));
    let mut tracker = RequestTracker::new();
    assert_eq!(tracker.track(-1, RequestKind::EntityQuery), SendOutcome::Rejected);
    assert!(!tracker.is_pending(-1));
}

#[test]
fn responses_match_requests_by_id_in_any_order() {
    let mut tracker = RequestTracker::new();
    assert_eq!(tracker.track(1, RequestKind::EntityQuery), SendOutcome::Sent(1));
    assert_eq!(tracker.track(2, RequestKind::CreateEntity), SendOutcome::Sent(2));
    assert_eq!(tracker.track(3, RequestKind::DeleteEntity), SendOutcome::Sent(3));
    assert!(tracker.is_pending(1) && tracker.is_pending(2) && tracker.is_pending(3));

    let create = WorkerOp::CreateEntityResponse(CreateEntityResponseOp {
        request_id: 2,
        status_code: StatusCode::Timeout,
        message: String::new(),
        entity_id: 0,
    });
    assert_eq!(
        tracker.correlate(&create),
        Correlation::Matched {
            request_id: 2,
            kind: RequestKind::CreateEntity,
            status: StatusCode::Timeout,
            policy: RetryPolicy::RetryWithBackoff,
        }
    );
    assert!(!tracker.is_pending(2));
    assert!(tracker.is_pending(1) && tracker.is_pending(3));
    assert_eq!(
        tracker.correlate(&query_response(1, StatusCode::Success)),
        Correlation::Matched {
            request_id: 1,
            kind: RequestKind::EntityQuery,
            status: StatusCode::Success,
            policy: RetryPolicy::Complete,
        }
    );
    let delete = WorkerOp::DeleteEntityResponse(DeleteEntityResponseOp {
        request_id: 3,
        entity_id: 9,
        status_code: StatusCode::AuthorityLost,
        message: String::new(),
    });
    assert_eq!(
        tracker.correlate(&delete),
        Correlation::Matched {
            request_id: 3,
            kind: RequestKind::DeleteEntity,
            status: StatusCode::AuthorityLost,
            policy: RetryPolicy::RetryImmediately,
        }
    );
    assert!(!tracker.is_pending(3));
}

#[test]
fn a_response_is_matched_once() {
    let mut tracker = RequestTracker::new();
    tracker.track(7, RequestKind::ReserveEntityIds);
    let response = WorkerOp::ReserveEntityIdsResponse(ReserveEntityIdsResponseOp {
        request_id: 7,
        status_code: StatusCode::Success,
        message: String::new(),
        first_entity_id: 1,
        number_of_entity_ids: 1,
    });
    assert!(matches!(tracker.correlate(&response), Correlation::Matched { request_id: 7, .. }));
    assert_eq!(tracker.correlate(&response), Correlation::Untracked { request_id: 7 });
}

#[test]
fn abandoned_request_tolerates_its_response() {
    let mut tracker = RequestTracker::new();
    tracker.track(5, RequestKind::EntityQuery);
    tracker.track(6, RequestKind::EntityQuery);
    assert!(tracker.abandon(5));
    assert!(!tracker.abandon(5));
    assert!(!tracker.is_pending(5));
    assert_eq!(
        tracker.correlate(&query_response(5, StatusCode::Success)),
        Correlation::Untracked { request_id: 5 }
    );
    assert!(tracker.is_pending(6));
}

#[test]
fn other_ops_are_no_responses() {
    let mut tracker = RequestTracker::new();
    tracker.track(5, RequestKind::Command);
    let op = WorkerOp::AddEntity(AddEntityOp { entity_id: 5 });
    assert_eq!(tracker.correlate(&op), Correlation::NotAResponse);
    assert!(tracker.is_pending(5));
}

#[test]
fn tracking_an_id_again_keeps_the_later_kind() {
    let mut tracker = RequestTracker::new();
    tracker.track(5, RequestKind::Command);
    tracker.track(5, RequestKind::EntityQuery);
    assert!(matches!(
        tracker.correlate(&query_response(5, StatusCode::NotFound)),
        Correlation::Matched {
            kind: RequestKind::EntityQuery,
            policy: RetryPolicy::RetryIfTargetExpected,
            ..
        }
    ));
    assert!(!tracker.is_pending(5));
}

#[test]
fn log_message_keeps_its_parts() {
    let message = LogMessage::new(LogLevel::Error, "logger", "it broke", Some(12));
    assert_eq!(message.level, LogLevel::Error);
    assert_eq!(message.logger_name, "logger");
    assert_eq!(message.message, "it broke");
    assert_eq!(message.entity_id, Some(12));
    let raw = message.encode().unwrap();
    assert_eq!(raw.level, 4);
    assert_eq!(raw.logger_name, b"logger".to_vec());
    assert_eq!(raw.message, b"it broke".to_vec());
    assert_eq!(raw.entity_id, Some(12));
}

#[test]
fn log_message_with_a_zero_byte_cannot_be_sent() {
    assert!(LogMessage::new(LogLevel::Info, "log\0ger", "text", None).encode().is_none());
    assert!(LogMessage::new(LogLevel::Info, "logger", "te\0xt", None).encode().is_none());
    assert!(LogMessage::new(LogLevel::Info, "", "", None).encode().is_some());
    assert!(contains_zero_byte(&[1, 0, 2]));
    assert!(!contains_zero_byte(&[1, 2]));
    assert!(!contains_zero_byte(&[]));
}

#[test]
fn text_is_decoded_only_when_well_formed() {
    assert_eq!(decode_text(b"plain"), Some("plain".to_string()));
    assert_eq!(decode_text("grüße €".as_bytes()), Some("grüße €".to_string()));
    assert_eq!(decode_text(&[]), Some(String::new()));
    assert_eq!(decode_text(&[0xff]), None);
    assert_eq!(decode_text(&[0xe2, 0x82]), None);
    assert_eq!(decode_text(&[0xed, 0xa0, 0x80]), None);
    assert_eq!(
        decode_texts(&vec![b"a".to_vec(), b"b".to_vec()]),
        Ok(vec!["a".to_string(), "b".to_string()])
    );
    assert_eq!(decode_texts(&vec![b"a".to_vec(), vec![0x80]]), Err(DecodeError::Encoding));
}

#[test]
fn worker_attributes_decode() {
    let raw = RawWorkerAttributes {
        attribute_count: 2,
        attributes: Some(vec![b"one".to_vec(), b"two".to_vec()]),
    };
    let decoded = WorkerAttributes::decode(&raw).unwrap();
    assert_eq!(decoded.attribute_count, 2);
    assert_eq!(decoded.attributes, vec!["one", "two"]);
    let raw = RawWorkerAttributes { attribute_count: 0, attributes: None };
    assert!(WorkerAttributes::decode(&raw).unwrap().attributes.is_empty());
    let raw = RawWorkerAttributes { attribute_count: 1, attributes: Some(vec![vec![0xfe]]) };
    assert!(matches!(WorkerAttributes::decode(&raw), Err(DecodeError::Encoding)));
}

#[test]
fn metrics_decode() {
    let raw = RawMetrics {
        load: None,
        gauge_metrics: vec![
            RawGaugeMetric { key: b"a".to_vec(), value: 1.0f64.to_bits() },
            RawGaugeMetric { key: b"b".to_vec(), value: 2.0f64.to_bits() },
        ],
        histogram_metrics: vec![],
    };
    let metrics = Metrics::decode(&raw).unwrap();
    assert_eq!(metrics.load, None);
    assert_eq!(metrics.gauge_metrics.len(), 2);
    assert_eq!(metrics.gauge_metrics[1].key, "b");
    assert_eq!(f64::from_bits(metrics.gauge_metrics[1].value), 2.0);
    assert!(metrics.histogram_metrics.is_empty());
}
