use spatialos::worker::connection::{NetworkConnectionType, NetworkSecurityType};
use spatialos::worker::op::OpType;
use spatialos::worker::{
    Authority, ConnectionStatusCode, LogLevel, ResultType, RetryPolicy, StatusCode,
};

#[test]
fn log_level_codes() {
    assert_eq!(LogLevel::from_u8(0), None);
    assert_eq!(LogLevel::from_u8(1), Some(LogLevel::Debug));
    assert_eq!(LogLevel::from_u8(2), Some(LogLevel::Info));
    assert_eq!(LogLevel::from_u8(3), Some(LogLevel::Warn));
    assert_eq!(LogLevel::from_u8(4), Some(LogLevel::Error));
    assert_eq!(LogLevel::from_u8(5), Some(LogLevel::Fatal));
    assert_eq!(LogLevel::from_u8(6), None);
    assert_eq!(LogLevel::Fatal.to_u8(), 5);
}

#[test]
fn authority_codes() {
    assert_eq!(Authority::from_u8(0), Some(Authority::NotAuthoritative));
    assert_eq!(Authority::from_u8(1), Some(Authority::Authoritative));
    assert_eq!(Authority::from_u8(2), Some(Authority::AuthorityLossImminent));
    assert_eq!(Authority::from_u8(3), None);
    assert_eq!(Authority::AuthorityLossImminent.to_u8(), 2);
}

#[test]
fn status_codes() {
    let all = [
        StatusCode::Success,
        StatusCode::Timeout,
        StatusCode::NotFound,
        StatusCode::AuthorityLost,
        StatusCode::PermissionDenied,
        StatusCode::ApplicationError,
        StatusCode::InternalError,
    ];
    for (i, status) in all.iter().enumerate() {
        assert_eq!(status.to_u8(), i as u8 + 1);
        assert_eq!(StatusCode::from_u8(i as u8 + 1), Some(*status));
    }
    assert_eq!(StatusCode::from_u8(0), None);
    assert_eq!(StatusCode::from_u8(8), None);
    assert_eq!(StatusCode::from_u8(255), None);
}

#[test]
fn connection_status_codes() {
    let all = [
        ConnectionStatusCode::Success,
        ConnectionStatusCode::InternalError,
        ConnectionStatusCode::InvalidArgument,
        ConnectionStatusCode::NetworkError,
        ConnectionStatusCode::Timeout,
        ConnectionStatusCode::Cancelled,
        ConnectionStatusCode::Rejected,
        ConnectionStatusCode::PlayerIdentityTokenExpired,
        ConnectionStatusCode::LoginTokenExpired,
        ConnectionStatusCode::CapacityExceeded,
        ConnectionStatusCode::RateExceeded,
        ConnectionStatusCode::ServerShutdown,
    ];
    for (i, status) in all.iter().enumerate() {
        assert_eq!(status.to_u8(), i as u8 + 1);
        assert_eq!(ConnectionStatusCode::from_u8(i as u8 + 1), Some(*status));
    }
    assert_eq!(ConnectionStatusCode::from_u8(0), None);
    assert_eq!(ConnectionStatusCode::from_u8(13), None);
}

#[test]
fn result_type_codes() {
    assert_eq!(ResultType::from_u8(1), Some(ResultType::Count));
    assert_eq!(ResultType::from_u8(2), Some(ResultType::Snapshot));
    assert_eq!(ResultType::from_u8(0), None);
    assert_eq!(ResultType::from_u8(3), None);
    assert_eq!(ResultType::Snapshot.to_u8(), 2);
}

#[test]
fn network_codes() {
    assert_eq!(NetworkConnectionType::from_u8(0), Some(NetworkConnectionType::Tcp));
    assert_eq!(NetworkConnectionType::from_u8(1), Some(NetworkConnectionType::RakNet));
    assert_eq!(NetworkConnectionType::from_u8(2), Some(NetworkConnectionType::Kcp));
    assert_eq!(NetworkConnectionType::from_u8(3), Some(NetworkConnectionType::ModularKcp));
    assert_eq!(NetworkConnectionType::from_u8(4), Some(NetworkConnectionType::ModularTcp));
    assert_eq!(NetworkConnectionType::from_u8(5), None);
    assert_eq!(NetworkConnectionType::ModularTcp.to_u8(), 4);
    assert_eq!(NetworkSecurityType::from_u8(0), Some(NetworkSecurityType::Insecure));
    assert_eq!(NetworkSecurityType::from_u8(1), Some(NetworkSecurityType::Tls));
    assert_eq!(NetworkSecurityType::from_u8(2), None);
    assert_eq!(NetworkSecurityType::Tls.to_u8(), 1);
}

#[test]
fn op_type_codes() {
    assert_eq!(OpType::from_u8(0), None);
    assert_eq!(OpType::from_u8(1), Some(OpType::Disconnect));
    assert_eq!(OpType::from_u8(5), Some(OpType::CriticalSection));
    assert_eq!(OpType::from_u8(12), Some(OpType::AddComponent));
    assert_eq!(OpType::from_u8(17), Some(OpType::CommandResponse));
    assert_eq!(OpType::from_u8(18), None);
    for code in 1..=17u8 {
        assert_eq!(OpType::from_u8(code).unwrap().to_u8(), code);
    }
}

#[test]
fn retry_policy_of_each_status() {
    assert_eq!(StatusCode::Success.retry_policy(), RetryPolicy::Complete);
    assert_eq!(StatusCode::Timeout.retry_policy(), RetryPolicy::RetryWithBackoff);
    assert_eq!(StatusCode::NotFound.retry_policy(), RetryPolicy::RetryIfTargetExpected);
    assert_eq!(StatusCode::AuthorityLost.retry_policy(), RetryPolicy::RetryImmediately);
    assert_eq!(StatusCode::PermissionDenied.retry_policy(), RetryPolicy::DoNotRetry);
    assert_eq!(StatusCode::ApplicationError.retry_policy(), RetryPolicy::DoNotRetry);
    assert_eq!(StatusCode::InternalError.retry_policy(), RetryPolicy::Report);
    assert!(StatusCode::Timeout.is_safely_retryable());
    assert!(StatusCode::AuthorityLost.is_safely_retryable());
    assert!(!StatusCode::Success.is_safely_retryable());
    assert!(!StatusCode::NotFound.is_safely_retryable());
    assert!(!StatusCode::PermissionDenied.is_safely_retryable());
    assert!(!StatusCode::ApplicationError.is_safely_retryable());
    assert!(!StatusCode::InternalError.is_safely_retryable());
}
