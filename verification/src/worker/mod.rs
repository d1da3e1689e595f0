//! The worker protocol: what a worker exchanges with the simulation host.

pub mod component_vtable;
pub mod connection;
pub mod constraint;
pub mod critical_section;
pub mod handles;
pub mod log_message;
pub mod metrics;
pub mod op;
pub mod payload;
pub mod query;
pub mod teardown;
pub mod text;

pub use crate::worker::query::{EntityQuery, RawEntityQuery};

use crate::schema;
use crate::worker::text::{decode_text, spells};
use vstd::prelude::*;
use vstd::utf8::valid_utf8;

verus! {

pub type EntityId = i64;

pub type ComponentId = u32;

pub type RequestId = i64;

pub type CommandIndex = u32;

/// Why raw data from the transport could not be decoded.
#[derive(Clone, Copy, Debug, PartialEq, Eq, Structural)]
pub enum DecodeError {
    /// A text field is not well-formed UTF-8.
    Encoding,
    /// A byte that should name an enum variant, or a boolean, names none.
    InvalidCode,
    /// The type byte of a record names no kind of record.
    UnknownType,
    /// The payload of a record is not the payload of the kind that its type
    /// byte names.
    PayloadMismatch,
    /// A count does not agree with the number of items that came with it.
    CountMismatch,
    /// A user's deserialize callback signalled failure.
    Deserialize,
}

/// The severities of log messages that can be sent to the host and received
/// from it.
#[derive(Clone, Copy, Debug, PartialEq, Eq, Structural)]
pub enum LogLevel {
    Debug,
    Info,
    Warn,
    Error,
    Fatal,
}

impl LogLevel {
    /// The byte that stands for the variant on the wire.
    pub open spec fn code(self) -> u8 {
        match self {
            LogLevel::Debug => 1,
            LogLevel::Info => 2,
            LogLevel::Warn => 3,
            LogLevel::Error => 4,
            LogLevel::Fatal => 5,
        }
    }

    /// The variant that a wire byte stands for, if it stands for one.
    pub open spec fn of_code(code: u8) -> Option<Self> {
        if code == 1 {
            Some(LogLevel::Debug)
        } else if code == 2 {
            Some(LogLevel::Info)
        } else if code == 3 {
            Some(LogLevel::Warn)
        } else if code == 4 {
            Some(LogLevel::Error)
        } else if code == 5 {
            Some(LogLevel::Fatal)
        } else {
            None
        }
    }

    /// Reads a wire byte. Bytes that stand for no variant give `None`.
    pub fn from_u8(code: u8) -> (r: Option<Self>)
        ensures
            r == Self::of_code(code),
    {
        match code {
            1 => Some(LogLevel::Debug),
            2 => Some(LogLevel::Info),
            3 => Some(LogLevel::Warn),
            4 => Some(LogLevel::Error),
            5 => Some(LogLevel::Fatal),
            _ => None,
        }
    }

    /// The wire byte of the variant.
    pub fn to_u8(self) -> (code: u8)
        ensures
            code == self.code(),
            Self::of_code(code) == Some(self),
    {
        match self {
            LogLevel::Debug => 1,
            LogLevel::Info => 2,
            LogLevel::Warn => 3,
            LogLevel::Error => 4,
            LogLevel::Fatal => 5,
        }
    }
}

/// The authority states of a worker over an entity component.
#[derive(Clone, Copy, Debug, PartialEq, Eq, Structural)]
pub enum Authority {
    NotAuthoritative,
    Authoritative,
    AuthorityLossImminent,
}

impl Authority {
    /// The byte that stands for the variant on the wire.
    pub open spec fn code(self) -> u8 {
        match self {
            Authority::NotAuthoritative => 0,
            Authority::Authoritative => 1,
            Authority::AuthorityLossImminent => 2,
        }
    }

    /// The variant that a wire byte stands for, if it stands for one.
    pub open spec fn of_code(code: u8) -> Option<Self> {
        if code == 0 {
            Some(Authority::NotAuthoritative)
        } else if code == 1 {
            Some(Authority::Authoritative)
        } else if code == 2 {
            Some(Authority::AuthorityLossImminent)
        } else {
            None
        }
    }

    /// Reads a wire byte. Bytes that stand for no variant give `None`.
    pub fn from_u8(code: u8) -> (r: Option<Self>)
        ensures
            r == Self::of_code(code),
    {
        match code {
            0 => Some(Authority::NotAuthoritative),
            1 => Some(Authority::Authoritative),
            2 => Some(Authority::AuthorityLossImminent),
            _ => None,
        }
    }

    /// The wire byte of the variant.
    pub fn to_u8(self) -> (code: u8)
        ensures
            code == self.code(),
            Self::of_code(code) == Some(self),
    {
        match self {
            Authority::NotAuthoritative => 0,
            Authority::Authoritative => 1,
            Authority::AuthorityLossImminent => 2,
        }
    }
}

/// The status of the response to a request.
#[derive(Clone, Copy, Debug, PartialEq, Eq, Structural)]
pub enum StatusCode {
    /// The request was executed and returned a response.
    Success,
    /// The request timed out before a response was received. It can be
    /// retried, with backoff: the deployment is usually overloaded.
    Timeout,
    /// The target entity did not exist, or did not have the target
    /// component. A retry makes sense where the entity is expected to
    /// exist soon.
    NotFound,
    /// No worker could execute the request: authority was lost, the
    /// entity was deleted, or no worker was authoritative. Transient;
    /// it can be retried at once.
    AuthorityLost,
    /// The worker lacks the permission to make the request.
    /// Permissions do not change at runtime: a retry cannot succeed.
    PermissionDenied,
    /// The command was delivered and the handler rejected it, or the
    /// host rejected the request data as invalid.
    ApplicationError,
    /// Some other error occurred. This likely indicates a bug in the host.
    InternalError,
}

impl StatusCode {
    /// The byte that stands for the variant on the wire.
    pub open spec fn code(self) -> u8 {
        match self {
            StatusCode::Success => 1,
            StatusCode::Timeout => 2,
            StatusCode::NotFound => 3,
            StatusCode::AuthorityLost => 4,
            StatusCode::PermissionDenied => 5,
            StatusCode::ApplicationError => 6,
            StatusCode::InternalError => 7,
        }
    }

    /// The variant that a wire byte stands for, if it stands for one.
    pub open spec fn of_code(code: u8) -> Option<Self> {
        if code == 1 {
            Some(StatusCode::Success)
        } else if code == 2 {
            Some(StatusCode::Timeout)
        } else if code == 3 {
            Some(StatusCode::NotFound)
        } else if code == 4 {
            Some(StatusCode::AuthorityLost)
        } else if code == 5 {
            Some(StatusCode::PermissionDenied)
        } else if code == 6 {
            Some(StatusCode::ApplicationError)
        } else if code == 7 {
            Some(StatusCode::InternalError)
        } else {
            None
        }
    }

    /// Reads a wire byte. Bytes that stand for no variant give `None`.
    pub fn from_u8(code: u8) -> (r: Option<Self>)
        ensures
            r == Self::of_code(code),
    {
        match code {
            1 => Some(StatusCode::Success),
            2 => Some(StatusCode::Timeout),
            3 => Some(StatusCode::NotFound),
            4 => Some(StatusCode::AuthorityLost),
            5 => Some(StatusCode::PermissionDenied),
            6 => Some(StatusCode::ApplicationError),
            7 => Some(StatusCode::InternalError),
            _ => None,
        }
    }

    /// The wire byte of the variant.
    pub fn to_u8(self) -> (code: u8)
        ensures
            code == self.code(),
            Self::of_code(code) == Some(self),
    {
        match self {
            StatusCode::Success => 1,
            StatusCode::Timeout => 2,
            StatusCode::NotFound => 3,
            StatusCode::AuthorityLost => 4,
            StatusCode::PermissionDenied => 5,
            StatusCode::ApplicationError => 6,
            StatusCode::InternalError => 7,
        }
    }
}

/// The status of a connection attempt or of the session as a whole. It is a
/// code space of its own, apart from the status of a single request.
#[derive(Clone, Copy, Debug, PartialEq, Eq, Structural)]
pub enum ConnectionStatusCode {
    /// The remote call was successful, or the worker is connected.
    Success,
    /// Protocol violation, or some part of the system behaved in an
    /// unexpected way.
    InternalError,
    /// An argument provided by the caller was invalid. A local
    /// failure: no attempt was made to contact the host.
    InvalidArgument,
    /// Failed due to a networking issue or an unreachable host.
    NetworkError,
    /// A timeout was exceeded. Can be retried.
    Timeout,
    /// The attempt was cancelled by the caller.
    Cancelled,
    /// The host was reached and explicitly rejected the request.
    Rejected,
    /// The player identity token has expired.
    PlayerIdentityTokenExpired,
    /// The login token has expired.
    LoginTokenExpired,
    /// The deployment was at capacity. Can be retried.
    CapacityExceeded,
    /// New connections to the deployment are rate-limited. Can be
    /// retried.
    RateExceeded,
    /// After a successful connection the server terminated the
    /// connection.
    ServerShutdown,
}

impl ConnectionStatusCode {
    /// The byte that stands for the variant on the wire.
    pub open spec fn code(self) -> u8 {
        match self {
            ConnectionStatusCode::Success => 1,
            ConnectionStatusCode::InternalError => 2,
            ConnectionStatusCode::InvalidArgument => 3,
            ConnectionStatusCode::NetworkError => 4,
            ConnectionStatusCode::Timeout => 5,
            ConnectionStatusCode::Cancelled => 6,
            ConnectionStatusCode::Rejected => 7,
            ConnectionStatusCode::PlayerIdentityTokenExpired => 8,
            ConnectionStatusCode::LoginTokenExpired => 9,
            ConnectionStatusCode::CapacityExceeded => 10,
            ConnectionStatusCode::RateExceeded => 11,
            ConnectionStatusCode::ServerShutdown => 12,
        }
    }

    /// The variant that a wire byte stands for, if it stands for one.
    pub open spec fn of_code(code: u8) -> Option<Self> {
        if code == 1 {
            Some(ConnectionStatusCode::Success)
        } else if code == 2 {
            Some(ConnectionStatusCode::InternalError)
        } else if code == 3 {
            Some(ConnectionStatusCode::InvalidArgument)
        } else if code == 4 {
            Some(ConnectionStatusCode::NetworkError)
        } else if code == 5 {
            Some(ConnectionStatusCode::Timeout)
        } else if code == 6 {
            Some(ConnectionStatusCode::Cancelled)
        } else if code == 7 {
            Some(ConnectionStatusCode::Rejected)
        } else if code == 8 {
            Some(ConnectionStatusCode::PlayerIdentityTokenExpired)
        } else if code == 9 {
            Some(ConnectionStatusCode::LoginTokenExpired)
        } else if code == 10 {
            Some(ConnectionStatusCode::CapacityExceeded)
        } else if code == 11 {
            Some(ConnectionStatusCode::RateExceeded)
        } else if code == 12 {
            Some(ConnectionStatusCode::ServerShutdown)
        } else {
            None
        }
    }

    /// Reads a wire byte. Bytes that stand for no variant give `None`.
    pub fn from_u8(code: u8) -> (r: Option<Self>)
        ensures
            r == Self::of_code(code),
    {
        match code {
            1 => Some(ConnectionStatusCode::Success),
            2 => Some(ConnectionStatusCode::InternalError),
            3 => Some(ConnectionStatusCode::InvalidArgument),
            4 => Some(ConnectionStatusCode::NetworkError),
            5 => Some(ConnectionStatusCode::Timeout),
            6 => Some(ConnectionStatusCode::Cancelled),
            7 => Some(ConnectionStatusCode::Rejected),
            8 => Some(ConnectionStatusCode::PlayerIdentityTokenExpired),
            9 => Some(ConnectionStatusCode::LoginTokenExpired),
            10 => Some(ConnectionStatusCode::CapacityExceeded),
            11 => Some(ConnectionStatusCode::RateExceeded),
            12 => Some(ConnectionStatusCode::ServerShutdown),
            _ => None,
        }
    }

    /// The wire byte of the variant.
    pub fn to_u8(self) -> (code: u8)
        ensures
            code == self.code(),
            Self::of_code(code) == Some(self),
    {
        match self {
            ConnectionStatusCode::Success => 1,
            ConnectionStatusCode::InternalError => 2,
            ConnectionStatusCode::InvalidArgument => 3,
            ConnectionStatusCode::NetworkError => 4,
            ConnectionStatusCode::Timeout => 5,
            ConnectionStatusCode::Cancelled => 6,
            ConnectionStatusCode::Rejected => 7,
            ConnectionStatusCode::PlayerIdentityTokenExpired => 8,
            ConnectionStatusCode::LoginTokenExpired => 9,
            ConnectionStatusCode::CapacityExceeded => 10,
            ConnectionStatusCode::RateExceeded => 11,
            ConnectionStatusCode::ServerShutdown => 12,
        }
    }
}

/// What an entity query asks for: the number of matching entities, or a
/// snapshot of their components.
#[derive(Clone, Copy, Debug, PartialEq, Eq, Structural)]
pub enum ResultType {
    Count,
    Snapshot,
}

impl ResultType {
    /// The byte that stands for the variant on the wire.
    pub open spec fn code(self) -> u8 {
        match self {
            ResultType::Count => 1,
            ResultType::Snapshot => 2,
        }
    }

    /// The variant that a wire byte stands for, if it stands for one.
    pub open spec fn of_code(code: u8) -> Option<Self> {
        if code == 1 {
            Some(ResultType::Count)
        } else if code == 2 {
            Some(ResultType::Snapshot)
        } else {
            None
        }
    }

    /// Reads a wire byte. Bytes that stand for no variant give `None`.
    pub fn from_u8(code: u8) -> (r: Option<Self>)
        ensures
            r == Self::of_code(code),
    {
        match code {
            1 => Some(ResultType::Count),
            2 => Some(ResultType::Snapshot),
            _ => None,
        }
    }

    /// The wire byte of the variant.
    pub fn to_u8(self) -> (code: u8)
        ensures
            code == self.code(),
            Self::of_code(code) == Some(self),
    {
        match self {
            ResultType::Count => 1,
            ResultType::Snapshot => 2,
        }
    }
}

/// What a caller should do about a response with a given status.
#[derive(Clone, Copy, Debug, PartialEq, Eq, Structural)]
pub enum RetryPolicy {
    /// The request succeeded: there is nothing to retry.
    Complete,
    /// Safe to retry at once.
    RetryImmediately,
    /// Safe to retry, after a backoff.
    RetryWithBackoff,
    /// May be retried if the caller believes that the target will soon exist.
    RetryIfTargetExpected,
    /// A retry cannot succeed without a change on the caller's side.
    DoNotRetry,
    /// A fault of the host: to be surfaced, not retried automatically.
    Report,
}

impl StatusCode {
    /// The retry policy of each status.
    pub open spec fn policy(self) -> RetryPolicy {
        match self {
            StatusCode::Success => RetryPolicy::Complete,
            StatusCode::Timeout => RetryPolicy::RetryWithBackoff,
            StatusCode::NotFound => RetryPolicy::RetryIfTargetExpected,
            StatusCode::AuthorityLost => RetryPolicy::RetryImmediately,
            StatusCode::PermissionDenied => RetryPolicy::DoNotRetry,
            StatusCode::ApplicationError => RetryPolicy::DoNotRetry,
            StatusCode::InternalError => RetryPolicy::Report,
        }
    }

    /// What a caller should do about a response with this status.
    pub fn retry_policy(self) -> (policy: RetryPolicy)
        ensures
            policy == self.policy(),
    {
        match self {
            StatusCode::Success => RetryPolicy::Complete,
            StatusCode::Timeout => RetryPolicy::RetryWithBackoff,
            StatusCode::NotFound => RetryPolicy::RetryIfTargetExpected,
            StatusCode::AuthorityLost => RetryPolicy::RetryImmediately,
            StatusCode::PermissionDenied | StatusCode::ApplicationError => RetryPolicy::DoNotRetry,
            StatusCode::InternalError => RetryPolicy::Report,
        }
    }

    /// Whether the request can safely be sent again as it is: after a timeout
    /// and after a loss of authority, and in no other case.
    pub fn is_safely_retryable(self) -> (retryable: bool)
        ensures
            retryable == (self == StatusCode::Timeout || self == StatusCode::AuthorityLost),
            retryable == (self.policy() == RetryPolicy::RetryImmediately || self.policy()
                == RetryPolicy::RetryWithBackoff),
    {
        match self {
            StatusCode::Timeout | StatusCode::AuthorityLost => true,
            _ => false,
        }
    }
}

/// Reading the byte that a variant is written as gives the variant back, and
/// a byte that reads as a variant is the byte that the variant is written as.
/// Stated for the status of a response; the other coded enums state the same
/// in the contracts of their `to_u8`.
pub proof fn law_status_code_round_trip(status: StatusCode, code: u8)
    ensures
        StatusCode::of_code(status.code()) == Some(status),
        StatusCode::of_code(code) matches Some(s) ==> s.code() == code,
        StatusCode::of_code(code) is Some <==> 1 <= code <= 7,
{
}

/// A user-defined representation of schema data, named by the number that
/// the application gave it. The library never looks inside.
#[derive(Clone, Copy, Debug, PartialEq, Eq, Structural)]
pub struct Handle {
    pub id: u64,
}

/// Worker attributes as the transport hands them over.
pub struct RawWorkerAttributes {
    /// Number of worker attributes.
    pub attribute_count: u32,
    /// The attributes as byte strings; `None` where the transport gave no
    /// list.
    pub attributes: Option<Vec<Vec<u8>>>,
}

/// Worker attributes that are part of a worker's runtime configuration.
#[derive(Debug)]
pub struct WorkerAttributes {
    /// Number of worker attributes.
    pub attribute_count: u32,
    /// Empty if there are no attributes associated with the worker.
    pub attributes: Vec<String>,
}

/// Whether every byte string of `list` is well-formed UTF-8.
pub open spec fn all_utf8(list: Seq<Vec<u8>>) -> bool {
    forall|i: int| 0 <= i < list.len() ==> valid_utf8((#[trigger] list[i])@)
}

/// Whether `texts` are, one for one, what the byte strings of `list` spell.
pub open spec fn all_spell(list: Seq<Vec<u8>>, texts: Seq<String>) -> bool {
    &&& texts.len() == list.len()
    &&& forall|i: int| 0 <= i < list.len() ==> spells(list[i]@, (#[trigger] texts[i])@)
}

/// Decodes a list of byte strings as text, in order. One malformed string
/// fails the list.
pub fn decode_texts(list: &Vec<Vec<u8>>) -> (r: Result<Vec<String>, DecodeError>)
    ensures
        match r {
            Ok(texts) => all_spell(list@, texts@),
            Err(e) => e == DecodeError::Encoding && !all_utf8(list@),
        },
{
    let mut texts: Vec<String> = Vec::new();
    let mut i: usize = 0;
    while i < list.len()
        invariant
            i <= list@.len(),
            texts@.len() == i,
            forall|j: int| 0 <= j < i ==> spells(list@[j]@, (#[trigger] texts@[j])@),
        decreases list@.len() - i,
    {
        match decode_text(list[i].as_slice()) {
            Some(text) => texts.push(text),
            None => {
                return Err(DecodeError::Encoding);
            },
        }
        i = i + 1;
    }
    Ok(texts)
}

impl WorkerAttributes {
    /// Decodes worker attributes. The count is kept as given. A missing list
    /// decodes as the empty list, and one attribute that is not well-formed
    /// UTF-8 fails the decoding.
    pub fn decode(raw: &RawWorkerAttributes) -> (r: Result<WorkerAttributes, DecodeError>)
        ensures
            match r {
                Ok(decoded) => {
                    &&& decoded.attribute_count == raw.attribute_count
                    &&& match raw.attributes {
                        Some(list) => all_spell(list@, decoded.attributes@),
                        None => decoded.attributes@.len() == 0,
                    }
                },
                Err(e) => {
                    &&& e == DecodeError::Encoding
                    &&& raw.attributes matches Some(list) && !all_utf8(list@)
                },
            },
    {
        match &raw.attributes {
            Some(list) => match decode_texts(list) {
                Ok(attributes) => Ok(
                    WorkerAttributes { attribute_count: raw.attribute_count, attributes },
                ),
                Err(e) => Err(e),
            },
            None => Ok(
                WorkerAttributes { attribute_count: raw.attribute_count, attributes: Vec::new() },
            ),
        }
    }
}

/// A component data snapshot, held as raw schema data, as a user-defined
/// handle, or as both.
pub struct ComponentData {
    pub component_id: ComponentId,
    pub schema_type: Option<schema::ComponentData>,
    pub user_handle: Option<Handle>,
}

/// An entity with an id and a snapshot of its components.
pub struct Entity {
    /// The id of the entity.
    pub entity_id: EntityId,
    /// Number of components of the entity.
    pub component_count: u32,
    /// The initial component data of the entity.
    pub components: Vec<ComponentData>,
}

impl Entity {
    /// An entity with the given components. `None` when there are more
    /// components than a 32-bit count can say.
    pub fn new(entity_id: EntityId, components: Vec<ComponentData>) -> (r: Option<Entity>)
        ensures
            match r {
                Some(entity) => {
                    &&& components@.len() <= u32::MAX
                    &&& entity.entity_id == entity_id
                    &&& entity.component_count == components@.len()
                    &&& entity.components == components
                },
                None => components@.len() > u32::MAX,
            },
    {
        if components.len() > 0xffff_ffff {
            None
        } else {
            let component_count = components.len() as u32;
            Some(Entity { entity_id, component_count, components })
        }
    }
}

} // verus!
