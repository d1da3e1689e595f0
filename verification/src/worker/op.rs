//! The op decoder: one raw batch of heterogeneous records becomes an ordered
//! sequence of typed operations.
//!
//! Text in an op is copied out as owned text. Schema-bearing payloads are
//! moved, never copied: the batch owns them until the caller takes them out.

use crate::worker::metrics::{keys_valid, metrics_of, Metrics, RawMetrics};
use crate::worker::payload::{CommandRequest, CommandResponse, ComponentUpdate};
use crate::worker::text::{decode_text, spells};
use crate::worker::{
    all_spell, all_utf8, Authority, ComponentData, ComponentId, ConnectionStatusCode, DecodeError,
    Entity, EntityId, LogLevel, RawWorkerAttributes, RequestId, StatusCode, WorkerAttributes,
};
use vstd::prelude::*;
use vstd::utf8::valid_utf8;

verus! {

/// The kinds of operation, each with its type byte on the wire.
#[derive(Clone, Copy, Debug, PartialEq, Eq, Structural)]
pub enum OpType {
    Disconnect,
    FlagUpdate,
    LogMessage,
    Metrics,
    CriticalSection,
    AddEntity,
    RemoveEntity,
    ReserveEntityIdsResponse,
    CreateEntityResponse,
    DeleteEntityResponse,
    EntityQueryResponse,
    AddComponent,
    RemoveComponent,
    AuthorityChange,
    ComponentUpdate,
    CommandRequest,
    CommandResponse,
}

impl OpType {
    /// The byte that stands for the variant on the wire.
    pub open spec fn code(self) -> u8 {
        match self {
            OpType::Disconnect => 1,
            OpType::FlagUpdate => 2,
            OpType::LogMessage => 3,
            OpType::Metrics => 4,
            OpType::CriticalSection => 5,
            OpType::AddEntity => 6,
            OpType::RemoveEntity => 7,
            OpType::ReserveEntityIdsResponse => 8,
            OpType::CreateEntityResponse => 9,
            OpType::DeleteEntityResponse => 10,
            OpType::EntityQueryResponse => 11,
            OpType::AddComponent => 12,
            OpType::RemoveComponent => 13,
            OpType::AuthorityChange => 14,
            OpType::ComponentUpdate => 15,
            OpType::CommandRequest => 16,
            OpType::CommandResponse => 17,
        }
    }

    /// The variant that a wire byte stands for, if it stands for one.
    pub open spec fn of_code(code: u8) -> Option<Self> {
        if code == 1 {
            Some(OpType::Disconnect)
        } else if code == 2 {
            Some(OpType::FlagUpdate)
        } else if code == 3 {
            Some(OpType::LogMessage)
        } else if code == 4 {
            Some(OpType::Metrics)
        } else if code == 5 {
            Some(OpType::CriticalSection)
        } else if code == 6 {
            Some(OpType::AddEntity)
        } else if code == 7 {
            Some(OpType::RemoveEntity)
        } else if code == 8 {
            Some(OpType::ReserveEntityIdsResponse)
        } else if code == 9 {
            Some(OpType::CreateEntityResponse)
        } else if code == 10 {
            Some(OpType::DeleteEntityResponse)
        } else if code == 11 {
            Some(OpType::EntityQueryResponse)
        } else if code == 12 {
            Some(OpType::AddComponent)
        } else if code == 13 {
            Some(OpType::RemoveComponent)
        } else if code == 14 {
            Some(OpType::AuthorityChange)
        } else if code == 15 {
            Some(OpType::ComponentUpdate)
        } else if code == 16 {
            Some(OpType::CommandRequest)
        } else if code == 17 {
            Some(OpType::CommandResponse)
        } else {
            None
        }
    }

    /// Reads a wire byte. Bytes that stand for no variant give `None`.
    pub fn from_u8(code: u8) -> (r: Option<Self>)
        ensures
            r == Self::of_code(code),
    {
        match code {
            1 => Some(OpType::Disconnect),
            2 => Some(OpType::FlagUpdate),
            3 => Some(OpType::LogMessage),
            4 => Some(OpType::Metrics),
            5 => Some(OpType::CriticalSection),
            6 => Some(OpType::AddEntity),
            7 => Some(OpType::RemoveEntity),
            8 => Some(OpType::ReserveEntityIdsResponse),
            9 => Some(OpType::CreateEntityResponse),
            10 => Some(OpType::DeleteEntityResponse),
            11 => Some(OpType::EntityQueryResponse),
            12 => Some(OpType::AddComponent),
            13 => Some(OpType::RemoveComponent),
            14 => Some(OpType::AuthorityChange),
            15 => Some(OpType::ComponentUpdate),
            16 => Some(OpType::CommandRequest),
            17 => Some(OpType::CommandResponse),
            _ => None,
        }
    }

    /// The wire byte of the variant.
    pub fn to_u8(self) -> (code: u8)
        ensures
            code == self.code(),
            Self::of_code(code) == Some(self),
    {
        match self {
            OpType::Disconnect => 1,
            OpType::FlagUpdate => 2,
            OpType::LogMessage => 3,
            OpType::Metrics => 4,
            OpType::CriticalSection => 5,
            OpType::AddEntity => 6,
            OpType::RemoveEntity => 7,
            OpType::ReserveEntityIdsResponse => 8,
            OpType::CreateEntityResponse => 9,
            OpType::DeleteEntityResponse => 10,
            OpType::EntityQueryResponse => 11,
            OpType::AddComponent => 12,
            OpType::RemoveComponent => 13,
            OpType::AuthorityChange => 14,
            OpType::ComponentUpdate => 15,
            OpType::CommandRequest => 16,
            OpType::CommandResponse => 17,
        }
    }
}
/// Data for a disconnect message.
#[derive(Debug)]
pub struct DisconnectOp {
    /// The status of the connection.
    pub status_code: ConnectionStatusCode,
    /// Detailed information on the reason for disconnecting.
    pub reason: String,
}

/// Data for a log message from the transport.
#[derive(Debug)]
pub struct LogMessageOp {
    /// The severity of the log message.
    pub level: LogLevel,
    /// The message.
    pub message: String,
}

/// Data for an add component operation.
pub struct AddComponentOp {
    /// The id of the entity for which a component was added.
    pub entity_id: EntityId,
    /// The initial data of the new component.
    pub data: ComponentData,
}

/// Data for an add entity operation.
#[derive(Debug)]
pub struct AddEntityOp {
    /// The id of the entity that was added to the worker's view.
    pub entity_id: EntityId,
}

/// Data for an authority change operation.
#[derive(Debug)]
pub struct AuthorityChangeOp {
    /// The id of the entity for which there was an authority change.
    pub entity_id: EntityId,
    /// The id of the component over which the worker's authority has changed.
    pub component_id: ComponentId,
    /// The authority state of the component.
    pub authority: Authority,
}

/// Data for a command request operation.
pub struct CommandRequestOp {
    /// The incoming command request id.
    pub request_id: RequestId,
    /// The id of the entity for which there was a command request.
    pub entity_id: EntityId,
    /// Upper bound on the request timeout provided by the platform.
    pub timeout_millis: u32,
    /// The id of the worker that sent the request.
    pub caller_worker_id: String,
    /// The attributes of the worker that sent the request.
    pub caller_attribute_set: WorkerAttributes,
    /// The command request data.
    pub request: CommandRequest,
}

/// Data for a command response operation.
pub struct CommandResponseOp {
    /// The id of the command request for which there was a response.
    pub request_id: RequestId,
    /// The id of the entity that the command request was addressed to.
    pub entity_id: EntityId,
    /// Status code of the response.
    pub status_code: StatusCode,
    /// The error message.
    pub message: String,
    /// The command response data.
    pub response: CommandResponse,
}

/// Data for a component update operation.
pub struct ComponentUpdateOp {
    /// The id of the entity for which there was a component update.
    pub entity_id: EntityId,
    /// The new component data for the updated entity.
    pub update: ComponentUpdate,
}

/// Data for a create entity response.
#[derive(Debug)]
pub struct CreateEntityResponseOp {
    /// The id of the request for which there was a response.
    pub request_id: RequestId,
    /// Status code of the response.
    pub status_code: StatusCode,
    /// The error message.
    pub message: String,
    /// If successful, the entity id of the newly created entity.
    pub entity_id: EntityId,
}

/// Data for a critical section boundary.
#[derive(Debug)]
pub struct CriticalSectionOp {
    /// Whether the protocol is entering a critical section (true) or leaving
    /// it (false).
    pub in_critical_section: bool,
}

/// Data for a delete entity response.
#[derive(Debug)]
pub struct DeleteEntityResponseOp {
    /// The id of the delete entity request for which there was a response.
    pub request_id: RequestId,
    /// The id of the target entity of this request.
    pub entity_id: EntityId,
    /// Status code of the response.
    pub status_code: StatusCode,
    /// The error message.
    pub message: String,
}

/// The result of an entity query request.
pub struct EntityQueryResponseOp {
    /// The id of the entity query request for which there was a response.
    pub request_id: RequestId,
    /// Status code of the response.
    pub status_code: StatusCode,
    /// The error message.
    pub message: String,
    /// Number of entities in the result set. For a count query, the result
    /// itself.
    pub result_count: u32,
    /// The entities in the result set. Empty for a count query.
    pub results: Vec<Entity>,
}

/// Data for a flag update operation.
#[derive(Debug)]
pub struct FlagUpdateOp {
    /// The name of the updated worker flag.
    pub name: String,
    /// The new value of the updated worker flag. `None`: the flag was
    /// deleted.
    pub value: Option<String>,
}

/// Data for a set of built-in metrics reported by the transport.
#[derive(Debug)]
pub struct MetricsOp {
    pub metrics: Metrics,
}

/// Data for a remove component operation.
#[derive(Debug)]
pub struct RemoveComponentOp {
    /// The id of the entity for which a component was removed.
    pub entity_id: EntityId,
    /// The id of the component that was removed.
    pub component_id: ComponentId,
}

/// Data for a remove entity operation.
#[derive(Debug)]
pub struct RemoveEntityOp {
    /// The id of the entity that was removed from the worker's view.
    pub entity_id: EntityId,
}

/// Data for a reserve entity ids response.
#[derive(Debug)]
pub struct ReserveEntityIdsResponseOp {
    /// The id of the reserve entity ids request for which there was a
    /// response.
    pub request_id: RequestId,
    /// Status code of the response.
    pub status_code: StatusCode,
    /// The error message.
    pub message: String,
    /// If successful, the first id of a contiguous range of newly allocated
    /// entity ids.
    pub first_entity_id: EntityId,
    /// If successful, the number of ids reserved in the range, otherwise 0.
    pub number_of_entity_ids: u32,
}

/// One operation of an op list.
pub enum WorkerOp {
    Disconnect(DisconnectOp),
    FlagUpdate(FlagUpdateOp),
    LogMessage(LogMessageOp),
    Metrics(MetricsOp),
    CriticalSection(CriticalSectionOp),
    AddEntity(AddEntityOp),
    RemoveEntity(RemoveEntityOp),
    ReserveEntityIdsResponse(ReserveEntityIdsResponseOp),
    CreateEntityResponse(CreateEntityResponseOp),
    DeleteEntityResponse(DeleteEntityResponseOp),
    EntityQueryResponse(EntityQueryResponseOp),
    AddComponent(AddComponentOp),
    RemoveComponent(RemoveComponentOp),
    AuthorityChange(AuthorityChangeOp),
    ComponentUpdate(ComponentUpdateOp),
    CommandRequest(CommandRequestOp),
    CommandResponse(CommandResponseOp),
}
/// The payload of a disconnect record.
pub struct RawDisconnectOp {
    pub connection_status_code: u8,
    pub reason: Vec<u8>,
}

/// The payload of a flag update record.
pub struct RawFlagUpdateOp {
    pub name: Vec<u8>,
    pub value: Option<Vec<u8>>,
}

/// The payload of a log message record.
pub struct RawLogMessageOp {
    pub level: u8,
    pub message: Vec<u8>,
}

/// The payload of a metrics record.
pub struct RawMetricsOp {
    pub metrics: RawMetrics,
}

/// The payload of a critical section record.
pub struct RawCriticalSectionOp {
    pub in_critical_section: u8,
}

/// The payload of a reserve entity ids response record.
pub struct RawReserveEntityIdsResponseOp {
    pub request_id: RequestId,
    pub status_code: u8,
    pub message: Vec<u8>,
    pub first_entity_id: EntityId,
    pub number_of_entity_ids: u32,
}

/// The payload of a create entity response record.
pub struct RawCreateEntityResponseOp {
    pub request_id: RequestId,
    pub status_code: u8,
    pub message: Vec<u8>,
    pub entity_id: EntityId,
}

/// The payload of a delete entity response record.
pub struct RawDeleteEntityResponseOp {
    pub request_id: RequestId,
    pub entity_id: EntityId,
    pub status_code: u8,
    pub message: Vec<u8>,
}

/// The payload of an entity query response record.
pub struct RawEntityQueryResponseOp {
    pub request_id: RequestId,
    pub status_code: u8,
    pub message: Vec<u8>,
    pub result_count: u32,
    /// `None` where the record carries no result set, as for a count query.
    pub results: Option<Vec<Entity>>,
}

/// The payload of an authority change record.
pub struct RawAuthorityChangeOp {
    pub entity_id: EntityId,
    pub component_id: ComponentId,
    pub authority: u8,
}

/// The payload of a command request record.
pub struct RawCommandRequestOp {
    pub request_id: RequestId,
    pub entity_id: EntityId,
    pub timeout_millis: u32,
    pub caller_worker_id: Vec<u8>,
    pub caller_attribute_set: RawWorkerAttributes,
    pub request: CommandRequest,
}

/// The payload of a command response record.
pub struct RawCommandResponseOp {
    pub request_id: RequestId,
    pub entity_id: EntityId,
    pub status_code: u8,
    pub message: Vec<u8>,
    pub response: CommandResponse,
}

/// The payload of a raw record, one arm per kind of operation.
pub enum RawOpData {
    Disconnect(RawDisconnectOp),
    FlagUpdate(RawFlagUpdateOp),
    LogMessage(RawLogMessageOp),
    Metrics(RawMetricsOp),
    CriticalSection(RawCriticalSectionOp),
    AddEntity(AddEntityOp),
    RemoveEntity(RemoveEntityOp),
    ReserveEntityIdsResponse(RawReserveEntityIdsResponseOp),
    CreateEntityResponse(RawCreateEntityResponseOp),
    DeleteEntityResponse(RawDeleteEntityResponseOp),
    EntityQueryResponse(RawEntityQueryResponseOp),
    AddComponent(AddComponentOp),
    RemoveComponent(RemoveComponentOp),
    AuthorityChange(RawAuthorityChangeOp),
    ComponentUpdate(ComponentUpdateOp),
    CommandRequest(RawCommandRequestOp),
    CommandResponse(RawCommandResponseOp),
}
/// One raw record of a batch: a type byte and a payload.
pub struct RawOp {
    pub op_type: u8,
    pub op: RawOpData,
}

/// What is wrong with a status byte and an error message, checked in that
/// order.
pub open spec fn status_error(code: u8, message: Seq<u8>) -> Option<DecodeError> {
    if StatusCode::of_code(code) is None {
        Some(DecodeError::InvalidCode)
    } else if !valid_utf8(message) {
        Some(DecodeError::Encoding)
    } else {
        None
    }
}

/// Whether a status and a text are what a status byte and an error message
/// stand for.
pub open spec fn status_of(
    code: u8,
    message: Seq<u8>,
    status: StatusCode,
    text: Seq<char>,
) -> bool {
    StatusCode::of_code(code) == Some(status) && spells(message, text)
}

/// Decodes the status byte and the error message of a response.
pub fn decode_status(code: u8, message: &[u8]) -> (r: Result<(StatusCode, String), DecodeError>)
    ensures
        match r {
            Ok((status, text)) => status_error(code, message@) is None && status_of(
                code,
                message@,
                status,
                text@,
            ),
            Err(e) => status_error(code, message@) == Some(e),
        },
{
    match StatusCode::from_u8(code) {
        Some(status) => match decode_text(message) {
            Some(text) => Ok((status, text)),
            None => Err(DecodeError::Encoding),
        },
        None => Err(DecodeError::InvalidCode),
    }
}

impl RawDisconnectOp {
    /// What is wrong with the payload: first the status byte, then the
    /// reason.
    pub open spec fn error(self) -> Option<DecodeError> {
        if ConnectionStatusCode::of_code(self.connection_status_code) is None {
            Some(DecodeError::InvalidCode)
        } else if !valid_utf8(self.reason@) {
            Some(DecodeError::Encoding)
        } else {
            None
        }
    }

    /// Whether `op` is the operation that the payload stands for.
    pub open spec fn stands_for(self, op: DisconnectOp) -> bool {
        &&& ConnectionStatusCode::of_code(self.connection_status_code) == Some(op.status_code)
        &&& spells(self.reason@, op.reason@)
    }

    /// Decodes the payload, or says what is wrong with it.
    pub fn decode(self) -> (r: Result<DisconnectOp, DecodeError>)
        ensures
            match r {
                Ok(op) => self.error() is None && self.stands_for(op),
                Err(e) => self.error() == Some(e),
            },
    {
        match ConnectionStatusCode::from_u8(self.connection_status_code) {
            Some(status_code) => match decode_text(self.reason.as_slice()) {
                Some(reason) => Ok(DisconnectOp { status_code, reason }),
                None => Err(DecodeError::Encoding),
            },
            None => Err(DecodeError::InvalidCode),
        }
    }
}

impl RawFlagUpdateOp {
    /// What is wrong with the payload: first the name, then the value.
    pub open spec fn error(self) -> Option<DecodeError> {
        if !valid_utf8(self.name@) {
            Some(DecodeError::Encoding)
        } else if self.value matches Some(value) && !valid_utf8(value@) {
            Some(DecodeError::Encoding)
        } else {
            None
        }
    }

    /// Whether `op` is the operation that the payload stands for.
    pub open spec fn stands_for(self, op: FlagUpdateOp) -> bool {
        &&& spells(self.name@, op.name@)
        &&& match self.value {
            Some(bytes) => op.value matches Some(text) && spells(bytes@, text@),
            None => op.value is None,
        }
    }

    /// Decodes the payload, or says what is wrong with it.
    pub fn decode(self) -> (r: Result<FlagUpdateOp, DecodeError>)
        ensures
            match r {
                Ok(op) => self.error() is None && self.stands_for(op),
                Err(e) => self.error() == Some(e),
            },
    {
        let name = match decode_text(self.name.as_slice()) {
            Some(name) => name,
            None => {
                return Err(DecodeError::Encoding);
            },
        };
        match &self.value {
            Some(bytes) => match decode_text(bytes.as_slice()) {
                Some(value) => Ok(FlagUpdateOp { name, value: Some(value) }),
                None => Err(DecodeError::Encoding),
            },
            None => Ok(FlagUpdateOp { name, value: None }),
        }
    }
}

impl RawLogMessageOp {
    /// What is wrong with the payload: first the level byte, then the
    /// message.
    pub open spec fn error(self) -> Option<DecodeError> {
        if LogLevel::of_code(self.level) is None {
            Some(DecodeError::InvalidCode)
        } else if !valid_utf8(self.message@) {
            Some(DecodeError::Encoding)
        } else {
            None
        }
    }

    /// Whether `op` is the operation that the payload stands for.
    pub open spec fn stands_for(self, op: LogMessageOp) -> bool {
        LogLevel::of_code(self.level) == Some(op.level) && spells(self.message@, op.message@)
    }

    /// Decodes the payload, or says what is wrong with it.
    pub fn decode(self) -> (r: Result<LogMessageOp, DecodeError>)
        ensures
            match r {
                Ok(op) => self.error() is None && self.stands_for(op),
                Err(e) => self.error() == Some(e),
            },
    {
        match LogLevel::from_u8(self.level) {
            Some(level) => match decode_text(self.message.as_slice()) {
                Some(message) => Ok(LogMessageOp { level, message }),
                None => Err(DecodeError::Encoding),
            },
            None => Err(DecodeError::InvalidCode),
        }
    }
}

impl RawMetricsOp {
    /// What is wrong with the payload: a key that is not well-formed UTF-8.
    pub open spec fn error(self) -> Option<DecodeError> {
        if keys_valid(self.metrics) {
            None
        } else {
            Some(DecodeError::Encoding)
        }
    }

    /// Whether `op` is the operation that the payload stands for.
    pub open spec fn stands_for(self, op: MetricsOp) -> bool {
        metrics_of(self.metrics, op.metrics)
    }

    /// Decodes the payload, or says what is wrong with it.
    pub fn decode(self) -> (r: Result<MetricsOp, DecodeError>)
        ensures
            match r {
                Ok(op) => self.error() is None && self.stands_for(op),
                Err(e) => self.error() == Some(e),
            },
    {
        match Metrics::decode(&self.metrics) {
            Ok(metrics) => {
                proof {
                    lemma_metrics_keys_valid(self.metrics, metrics);
                }
                Ok(MetricsOp { metrics })
            },
            Err(e) => Err(e),
        }
    }
}

/// Metrics that were decoded had well-formed keys.
proof fn lemma_metrics_keys_valid(raw: RawMetrics, metrics: Metrics)
    requires
        metrics_of(raw, metrics),
    ensures
        keys_valid(raw),
{
    assert forall|i: int| 0 <= i < raw.gauge_metrics@.len() implies valid_utf8(
        (#[trigger] raw.gauge_metrics@[i]).key@,
    ) by {
        assert(crate::worker::metrics::gauge_of(raw.gauge_metrics@[i], metrics.gauge_metrics@[i]));
    }
    assert forall|i: int| 0 <= i < raw.histogram_metrics@.len() implies valid_utf8(
        (#[trigger] raw.histogram_metrics@[i]).key@,
    ) by {
        assert(crate::worker::metrics::histogram_of(
            raw.histogram_metrics@[i],
            metrics.histogram_metrics@[i],
        ));
    }
}

impl RawCriticalSectionOp {
    /// What is wrong with the payload: a byte that is neither 0 nor 1.
    pub open spec fn error(self) -> Option<DecodeError> {
        if self.in_critical_section > 1 {
            Some(DecodeError::InvalidCode)
        } else {
            None
        }
    }

    /// Whether `op` is the operation that the payload stands for.
    pub open spec fn stands_for(self, op: CriticalSectionOp) -> bool {
        op.in_critical_section == (self.in_critical_section == 1)
    }

    /// Decodes the payload, or says what is wrong with it.
    pub fn decode(self) -> (r: Result<CriticalSectionOp, DecodeError>)
        ensures
            match r {
                Ok(op) => self.error() is None && self.stands_for(op),
                Err(e) => self.error() == Some(e),
            },
    {
        match self.in_critical_section {
            0 => Ok(CriticalSectionOp { in_critical_section: false }),
            1 => Ok(CriticalSectionOp { in_critical_section: true }),
            _ => Err(DecodeError::InvalidCode),
        }
    }
}

impl RawReserveEntityIdsResponseOp {
    /// What is wrong with the payload: first the status byte, then the
    /// message.
    pub open spec fn error(self) -> Option<DecodeError> {
        status_error(self.status_code, self.message@)
    }

    /// Whether `op` is the operation that the payload stands for.
    pub open spec fn stands_for(self, op: ReserveEntityIdsResponseOp) -> bool {
        &&& status_of(self.status_code, self.message@, op.status_code, op.message@)
        &&& op.request_id == self.request_id
        &&& op.first_entity_id == self.first_entity_id
        &&& op.number_of_entity_ids == self.number_of_entity_ids
    }

    /// Decodes the payload, or says what is wrong with it.
    pub fn decode(self) -> (r: Result<ReserveEntityIdsResponseOp, DecodeError>)
        ensures
            match r {
                Ok(op) => self.error() is None && self.stands_for(op),
                Err(e) => self.error() == Some(e),
            },
    {
        match decode_status(self.status_code, self.message.as_slice()) {
            Ok((status_code, message)) => Ok(
                ReserveEntityIdsResponseOp {
                    request_id: self.request_id,
                    status_code,
                    message,
                    first_entity_id: self.first_entity_id,
                    number_of_entity_ids: self.number_of_entity_ids,
                },
            ),
            Err(e) => Err(e),
        }
    }
}

impl RawCreateEntityResponseOp {
    /// What is wrong with the payload: first the status byte, then the
    /// message.
    pub open spec fn error(self) -> Option<DecodeError> {
        status_error(self.status_code, self.message@)
    }

    /// Whether `op` is the operation that the payload stands for.
    pub open spec fn stands_for(self, op: CreateEntityResponseOp) -> bool {
        &&& status_of(self.status_code, self.message@, op.status_code, op.message@)
        &&& op.request_id == self.request_id
        &&& op.entity_id == self.entity_id
    }

    /// Decodes the payload, or says what is wrong with it.
    pub fn decode(self) -> (r: Result<CreateEntityResponseOp, DecodeError>)
        ensures
            match r {
                Ok(op) => self.error() is None && self.stands_for(op),
                Err(e) => self.error() == Some(e),
            },
    {
        match decode_status(self.status_code, self.message.as_slice()) {
            Ok((status_code, message)) => Ok(
                CreateEntityResponseOp {
                    request_id: self.request_id,
                    status_code,
                    message,
                    entity_id: self.entity_id,
                },
            ),
            Err(e) => Err(e),
        }
    }
}

impl RawDeleteEntityResponseOp {
    /// What is wrong with the payload: first the status byte, then the
    /// message.
    pub open spec fn error(self) -> Option<DecodeError> {
        status_error(self.status_code, self.message@)
    }

    /// Whether `op` is the operation that the payload stands for.
    pub open spec fn stands_for(self, op: DeleteEntityResponseOp) -> bool {
        &&& status_of(self.status_code, self.message@, op.status_code, op.message@)
        &&& op.request_id == self.request_id
        &&& op.entity_id == self.entity_id
    }

    /// Decodes the payload, or says what is wrong with it.
    pub fn decode(self) -> (r: Result<DeleteEntityResponseOp, DecodeError>)
        ensures
            match r {
                Ok(op) => self.error() is None && self.stands_for(op),
                Err(e) => self.error() == Some(e),
            },
    {
        match decode_status(self.status_code, self.message.as_slice()) {
            Ok((status_code, message)) => Ok(
                DeleteEntityResponseOp {
                    request_id: self.request_id,
                    entity_id: self.entity_id,
                    status_code,
                    message,
                },
            ),
            Err(e) => Err(e),
        }
    }
}

impl RawEntityQueryResponseOp {
    /// What is wrong with the payload: first the status byte, then the
    /// message, then a result set whose length is not the result count.
    pub open spec fn error(self) -> Option<DecodeError> {
        if status_error(self.status_code, self.message@) is Some {
            status_error(self.status_code, self.message@)
        } else if self.results matches Some(results) && results@.len() != self.result_count {
            Some(DecodeError::CountMismatch)
        } else {
            None
        }
    }

    /// Whether `op` is the operation that the payload stands for.
    pub open spec fn stands_for(self, op: EntityQueryResponseOp) -> bool {
        &&& status_of(self.status_code, self.message@, op.status_code, op.message@)
        &&& op.request_id == self.request_id
        &&& op.result_count == self.result_count
        &&& match self.results {
            Some(results) => op.results == results,
            None => op.results@.len() == 0,
        }
    }

    /// Decodes the payload, or says what is wrong with it.
    pub fn decode(self) -> (r: Result<EntityQueryResponseOp, DecodeError>)
        ensures
            match r {
                Ok(op) => self.error() is None && self.stands_for(op),
                Err(e) => self.error() == Some(e),
            },
    {
        let decoded = decode_status(self.status_code, self.message.as_slice());
        let (status_code, message) = match decoded {
            Ok(decoded) => decoded,
            Err(e) => {
                return Err(e);
            },
        };
        let results = match self.results {
            Some(results) => {
                if results.len() > 0xffff_ffff || results.len() as u32 != self.result_count {
                    return Err(DecodeError::CountMismatch);
                }
                results
            },
            None => Vec::new(),
        };
        Ok(
            EntityQueryResponseOp {
                request_id: self.request_id,
                status_code,
                message,
                result_count: self.result_count,
                results,
            },
        )
    }
}

impl RawAuthorityChangeOp {
    /// What is wrong with the payload: an authority byte that names no
    /// authority state.
    pub open spec fn error(self) -> Option<DecodeError> {
        if Authority::of_code(self.authority) is None {
            Some(DecodeError::InvalidCode)
        } else {
            None
        }
    }

    /// Whether `op` is the operation that the payload stands for.
    pub open spec fn stands_for(self, op: AuthorityChangeOp) -> bool {
        &&& Authority::of_code(self.authority) == Some(op.authority)
        &&& op.entity_id == self.entity_id
        &&& op.component_id == self.component_id
    }

    /// Decodes the payload, or says what is wrong with it.
    pub fn decode(self) -> (r: Result<AuthorityChangeOp, DecodeError>)
        ensures
            match r {
                Ok(op) => self.error() is None && self.stands_for(op),
                Err(e) => self.error() == Some(e),
            },
    {
        match Authority::from_u8(self.authority) {
            Some(authority) => Ok(
                AuthorityChangeOp {
                    entity_id: self.entity_id,
                    component_id: self.component_id,
                    authority,
                },
            ),
            None => Err(DecodeError::InvalidCode),
        }
    }
}

impl RawCommandRequestOp {
    /// What is wrong with the payload: first the caller's worker id, then
    /// the caller's attributes.
    pub open spec fn error(self) -> Option<DecodeError> {
        if !valid_utf8(self.caller_worker_id@) {
            Some(DecodeError::Encoding)
        } else if self.caller_attribute_set.attributes matches Some(list) && !all_utf8(list@) {
            Some(DecodeError::Encoding)
        } else {
            None
        }
    }

    /// Whether `op` is the operation that the payload stands for.
    pub open spec fn stands_for(self, op: CommandRequestOp) -> bool {
        &&& op.request_id == self.request_id
        &&& op.entity_id == self.entity_id
        &&& op.timeout_millis == self.timeout_millis
        &&& spells(self.caller_worker_id@, op.caller_worker_id@)
        &&& op.caller_attribute_set.attribute_count == self.caller_attribute_set.attribute_count
        &&& match self.caller_attribute_set.attributes {
            Some(list) => all_spell(list@, op.caller_attribute_set.attributes@),
            None => op.caller_attribute_set.attributes@.len() == 0,
        }
        &&& op.request == self.request
    }

    /// Decodes the payload, or says what is wrong with it.
    pub fn decode(self) -> (r: Result<CommandRequestOp, DecodeError>)
        ensures
            match r {
                Ok(op) => self.error() is None && self.stands_for(op),
                Err(e) => self.error() == Some(e),
            },
    {
        let caller_worker_id = match decode_text(self.caller_worker_id.as_slice()) {
            Some(text) => text,
            None => {
                return Err(DecodeError::Encoding);
            },
        };
        let caller_attribute_set = match WorkerAttributes::decode(&self.caller_attribute_set) {
            Ok(attributes) => attributes,
            Err(e) => {
                return Err(e);
            },
        };
        proof {
            if let Some(list) = self.caller_attribute_set.attributes {
                assert forall|i: int| 0 <= i < list@.len() implies valid_utf8(
                    (#[trigger] list@[i])@,
                ) by {
                    assert(spells(list@[i]@, caller_attribute_set.attributes@[i]@));
                }
            }
        }
        Ok(
            CommandRequestOp {
                request_id: self.request_id,
                entity_id: self.entity_id,
                timeout_millis: self.timeout_millis,
                caller_worker_id,
                caller_attribute_set,
                request: self.request,
            },
        )
    }
}

impl RawCommandResponseOp {
    /// What is wrong with the payload: first the status byte, then the
    /// message.
    pub open spec fn error(self) -> Option<DecodeError> {
        status_error(self.status_code, self.message@)
    }

    /// Whether `op` is the operation that the payload stands for.
    pub open spec fn stands_for(self, op: CommandResponseOp) -> bool {
        &&& status_of(self.status_code, self.message@, op.status_code, op.message@)
        &&& op.request_id == self.request_id
        &&& op.entity_id == self.entity_id
        &&& op.response == self.response
    }

    /// Decodes the payload, or says what is wrong with it.
    pub fn decode(self) -> (r: Result<CommandResponseOp, DecodeError>)
        ensures
            match r {
                Ok(op) => self.error() is None && self.stands_for(op),
                Err(e) => self.error() == Some(e),
            },
    {
        match decode_status(self.status_code, self.message.as_slice()) {
            Ok((status_code, message)) => Ok(
                CommandResponseOp {
                    request_id: self.request_id,
                    entity_id: self.entity_id,
                    status_code,
                    message,
                    response: self.response,
                },
            ),
            Err(e) => Err(e),
        }
    }
}

impl RawOpData {
    /// The kind of operation that the payload belongs to.
    pub open spec fn kind(self) -> OpType {
        match self {
            RawOpData::Disconnect(_) => OpType::Disconnect,
            RawOpData::FlagUpdate(_) => OpType::FlagUpdate,
            RawOpData::LogMessage(_) => OpType::LogMessage,
            RawOpData::Metrics(_) => OpType::Metrics,
            RawOpData::CriticalSection(_) => OpType::CriticalSection,
            RawOpData::AddEntity(_) => OpType::AddEntity,
            RawOpData::RemoveEntity(_) => OpType::RemoveEntity,
            RawOpData::ReserveEntityIdsResponse(_) => OpType::ReserveEntityIdsResponse,
            RawOpData::CreateEntityResponse(_) => OpType::CreateEntityResponse,
            RawOpData::DeleteEntityResponse(_) => OpType::DeleteEntityResponse,
            RawOpData::EntityQueryResponse(_) => OpType::EntityQueryResponse,
            RawOpData::AddComponent(_) => OpType::AddComponent,
            RawOpData::RemoveComponent(_) => OpType::RemoveComponent,
            RawOpData::AuthorityChange(_) => OpType::AuthorityChange,
            RawOpData::ComponentUpdate(_) => OpType::ComponentUpdate,
            RawOpData::CommandRequest(_) => OpType::CommandRequest,
            RawOpData::CommandResponse(_) => OpType::CommandResponse,
        }
    }

    /// The kind of operation that the payload belongs to.
    pub fn op_type(&self) -> (kind: OpType)
        ensures
            kind == self.kind(),
    {
        match self {
            RawOpData::Disconnect(_) => OpType::Disconnect,
            RawOpData::FlagUpdate(_) => OpType::FlagUpdate,
            RawOpData::LogMessage(_) => OpType::LogMessage,
            RawOpData::Metrics(_) => OpType::Metrics,
            RawOpData::CriticalSection(_) => OpType::CriticalSection,
            RawOpData::AddEntity(_) => OpType::AddEntity,
            RawOpData::RemoveEntity(_) => OpType::RemoveEntity,
            RawOpData::ReserveEntityIdsResponse(_) => OpType::ReserveEntityIdsResponse,
            RawOpData::CreateEntityResponse(_) => OpType::CreateEntityResponse,
            RawOpData::DeleteEntityResponse(_) => OpType::DeleteEntityResponse,
            RawOpData::EntityQueryResponse(_) => OpType::EntityQueryResponse,
            RawOpData::AddComponent(_) => OpType::AddComponent,
            RawOpData::RemoveComponent(_) => OpType::RemoveComponent,
            RawOpData::AuthorityChange(_) => OpType::AuthorityChange,
            RawOpData::ComponentUpdate(_) => OpType::ComponentUpdate,
            RawOpData::CommandRequest(_) => OpType::CommandRequest,
            RawOpData::CommandResponse(_) => OpType::CommandResponse,
        }
    }
}

/// What is wrong with the payload of a record, if anything.
pub open spec fn payload_error(data: RawOpData) -> Option<DecodeError> {
    match data {
        RawOpData::Disconnect(raw) => raw.error(),
        RawOpData::FlagUpdate(raw) => raw.error(),
        RawOpData::LogMessage(raw) => raw.error(),
        RawOpData::Metrics(raw) => raw.error(),
        RawOpData::CriticalSection(raw) => raw.error(),
        RawOpData::AddEntity(_) => None,
        RawOpData::RemoveEntity(_) => None,
        RawOpData::ReserveEntityIdsResponse(raw) => raw.error(),
        RawOpData::CreateEntityResponse(raw) => raw.error(),
        RawOpData::DeleteEntityResponse(raw) => raw.error(),
        RawOpData::EntityQueryResponse(raw) => raw.error(),
        RawOpData::AddComponent(_) => None,
        RawOpData::RemoveComponent(_) => None,
        RawOpData::AuthorityChange(raw) => raw.error(),
        RawOpData::ComponentUpdate(_) => None,
        RawOpData::CommandRequest(raw) => raw.error(),
        RawOpData::CommandResponse(raw) => raw.error(),
    }
}

/// Whether `op` is the operation that the payload `data` stands for: the
/// same kind, every byte code read as the variant it names, every text field
/// the text that its bytes spell, every other field and every schema-bearing
/// payload the very same value.
pub open spec fn payload_stands_for(data: RawOpData, op: WorkerOp) -> bool {
    match data {
        RawOpData::Disconnect(raw) => match op {
            WorkerOp::Disconnect(typed) => raw.stands_for(typed),
            _ => false,
        },
        RawOpData::FlagUpdate(raw) => match op {
            WorkerOp::FlagUpdate(typed) => raw.stands_for(typed),
            _ => false,
        },
        RawOpData::LogMessage(raw) => match op {
            WorkerOp::LogMessage(typed) => raw.stands_for(typed),
            _ => false,
        },
        RawOpData::Metrics(raw) => match op {
            WorkerOp::Metrics(typed) => raw.stands_for(typed),
            _ => false,
        },
        RawOpData::CriticalSection(raw) => match op {
            WorkerOp::CriticalSection(typed) => raw.stands_for(typed),
            _ => false,
        },
        RawOpData::AddEntity(raw) => match op {
            WorkerOp::AddEntity(typed) => typed == raw,
            _ => false,
        },
        RawOpData::RemoveEntity(raw) => match op {
            WorkerOp::RemoveEntity(typed) => typed == raw,
            _ => false,
        },
        RawOpData::ReserveEntityIdsResponse(raw) => match op {
            WorkerOp::ReserveEntityIdsResponse(typed) => raw.stands_for(typed),
            _ => false,
        },
        RawOpData::CreateEntityResponse(raw) => match op {
            WorkerOp::CreateEntityResponse(typed) => raw.stands_for(typed),
            _ => false,
        },
        RawOpData::DeleteEntityResponse(raw) => match op {
            WorkerOp::DeleteEntityResponse(typed) => raw.stands_for(typed),
            _ => false,
        },
        RawOpData::EntityQueryResponse(raw) => match op {
            WorkerOp::EntityQueryResponse(typed) => raw.stands_for(typed),
            _ => false,
        },
        RawOpData::AddComponent(raw) => match op {
            WorkerOp::AddComponent(typed) => typed == raw,
            _ => false,
        },
        RawOpData::RemoveComponent(raw) => match op {
            WorkerOp::RemoveComponent(typed) => typed == raw,
            _ => false,
        },
        RawOpData::AuthorityChange(raw) => match op {
            WorkerOp::AuthorityChange(typed) => raw.stands_for(typed),
            _ => false,
        },
        RawOpData::ComponentUpdate(raw) => match op {
            WorkerOp::ComponentUpdate(typed) => typed == raw,
            _ => false,
        },
        RawOpData::CommandRequest(raw) => match op {
            WorkerOp::CommandRequest(typed) => raw.stands_for(typed),
            _ => false,
        },
        RawOpData::CommandResponse(raw) => match op {
            WorkerOp::CommandResponse(typed) => raw.stands_for(typed),
            _ => false,
        },
    }
}

/// What is wrong with a record, if anything. The checks, in order: a type
/// byte that names no kind is `UnknownType`; a payload of another kind than
/// the type byte names is `PayloadMismatch`; then what is wrong with the
/// payload itself.
pub open spec fn record_error(raw: RawOp) -> Option<DecodeError> {
    match OpType::of_code(raw.op_type) {
        None => Some(DecodeError::UnknownType),
        Some(kind) => if kind != raw.op.kind() {
            Some(DecodeError::PayloadMismatch)
        } else {
            payload_error(raw.op)
        },
    }
}

/// Whether `result` is what decoding the record `raw` gives: the operation
/// it stands for when nothing is wrong with it, and else the error.
pub open spec fn decoded(raw: RawOp, result: Result<WorkerOp, DecodeError>) -> bool {
    match result {
        Ok(op) => record_error(raw) is None && payload_stands_for(raw.op, op),
        Err(e) => record_error(raw) == Some(e),
    }
}

impl WorkerOp {
    /// The kind of the operation.
    pub open spec fn kind(self) -> OpType {
        match self {
            WorkerOp::Disconnect(_) => OpType::Disconnect,
            WorkerOp::FlagUpdate(_) => OpType::FlagUpdate,
            WorkerOp::LogMessage(_) => OpType::LogMessage,
            WorkerOp::Metrics(_) => OpType::Metrics,
            WorkerOp::CriticalSection(_) => OpType::CriticalSection,
            WorkerOp::AddEntity(_) => OpType::AddEntity,
            WorkerOp::RemoveEntity(_) => OpType::RemoveEntity,
            WorkerOp::ReserveEntityIdsResponse(_) => OpType::ReserveEntityIdsResponse,
            WorkerOp::CreateEntityResponse(_) => OpType::CreateEntityResponse,
            WorkerOp::DeleteEntityResponse(_) => OpType::DeleteEntityResponse,
            WorkerOp::EntityQueryResponse(_) => OpType::EntityQueryResponse,
            WorkerOp::AddComponent(_) => OpType::AddComponent,
            WorkerOp::RemoveComponent(_) => OpType::RemoveComponent,
            WorkerOp::AuthorityChange(_) => OpType::AuthorityChange,
            WorkerOp::ComponentUpdate(_) => OpType::ComponentUpdate,
            WorkerOp::CommandRequest(_) => OpType::CommandRequest,
            WorkerOp::CommandResponse(_) => OpType::CommandResponse,
        }
    }

    /// The kind of the operation.
    pub fn op_type(&self) -> (kind: OpType)
        ensures
            kind == self.kind(),
    {
        match self {
            WorkerOp::Disconnect(_) => OpType::Disconnect,
            WorkerOp::FlagUpdate(_) => OpType::FlagUpdate,
            WorkerOp::LogMessage(_) => OpType::LogMessage,
            WorkerOp::Metrics(_) => OpType::Metrics,
            WorkerOp::CriticalSection(_) => OpType::CriticalSection,
            WorkerOp::AddEntity(_) => OpType::AddEntity,
            WorkerOp::RemoveEntity(_) => OpType::RemoveEntity,
            WorkerOp::ReserveEntityIdsResponse(_) => OpType::ReserveEntityIdsResponse,
            WorkerOp::CreateEntityResponse(_) => OpType::CreateEntityResponse,
            WorkerOp::DeleteEntityResponse(_) => OpType::DeleteEntityResponse,
            WorkerOp::EntityQueryResponse(_) => OpType::EntityQueryResponse,
            WorkerOp::AddComponent(_) => OpType::AddComponent,
            WorkerOp::RemoveComponent(_) => OpType::RemoveComponent,
            WorkerOp::AuthorityChange(_) => OpType::AuthorityChange,
            WorkerOp::ComponentUpdate(_) => OpType::ComponentUpdate,
            WorkerOp::CommandRequest(_) => OpType::CommandRequest,
            WorkerOp::CommandResponse(_) => OpType::CommandResponse,
        }
    }

    /// Decodes the payload of a record into the operation of its kind.
    pub fn decode_payload(data: RawOpData) -> (r: Result<WorkerOp, DecodeError>)
        ensures
            match r {
                Ok(op) => {
                    &&& payload_error(data) is None
                    &&& payload_stands_for(data, op)
                    &&& op.kind() == data.kind()
                },
                Err(e) => payload_error(data) == Some(e),
            },
    {
        match data {
            RawOpData::Disconnect(raw) => match raw.decode() {
                Ok(op) => Ok(WorkerOp::Disconnect(op)),
                Err(e) => Err(e),
            },
            RawOpData::FlagUpdate(raw) => match raw.decode() {
                Ok(op) => Ok(WorkerOp::FlagUpdate(op)),
                Err(e) => Err(e),
            },
            RawOpData::LogMessage(raw) => match raw.decode() {
                Ok(op) => Ok(WorkerOp::LogMessage(op)),
                Err(e) => Err(e),
            },
            RawOpData::Metrics(raw) => match raw.decode() {
                Ok(op) => Ok(WorkerOp::Metrics(op)),
                Err(e) => Err(e),
            },
            RawOpData::CriticalSection(raw) => match raw.decode() {
                Ok(op) => Ok(WorkerOp::CriticalSection(op)),
                Err(e) => Err(e),
            },
            RawOpData::AddEntity(op) => Ok(WorkerOp::AddEntity(op)),
            RawOpData::RemoveEntity(op) => Ok(WorkerOp::RemoveEntity(op)),
            RawOpData::ReserveEntityIdsResponse(raw) => match raw.decode() {
                Ok(op) => Ok(WorkerOp::ReserveEntityIdsResponse(op)),
                Err(e) => Err(e),
            },
            RawOpData::CreateEntityResponse(raw) => match raw.decode() {
                Ok(op) => Ok(WorkerOp::CreateEntityResponse(op)),
                Err(e) => Err(e),
            },
            RawOpData::DeleteEntityResponse(raw) => match raw.decode() {
                Ok(op) => Ok(WorkerOp::DeleteEntityResponse(op)),
                Err(e) => Err(e),
            },
            RawOpData::EntityQueryResponse(raw) => match raw.decode() {
                Ok(op) => Ok(WorkerOp::EntityQueryResponse(op)),
                Err(e) => Err(e),
            },
            RawOpData::AddComponent(op) => Ok(WorkerOp::AddComponent(op)),
            RawOpData::RemoveComponent(op) => Ok(WorkerOp::RemoveComponent(op)),
            RawOpData::AuthorityChange(raw) => match raw.decode() {
                Ok(op) => Ok(WorkerOp::AuthorityChange(op)),
                Err(e) => Err(e),
            },
            RawOpData::ComponentUpdate(op) => Ok(WorkerOp::ComponentUpdate(op)),
            RawOpData::CommandRequest(raw) => match raw.decode() {
                Ok(op) => Ok(WorkerOp::CommandRequest(op)),
                Err(e) => Err(e),
            },
            RawOpData::CommandResponse(raw) => match raw.decode() {
                Ok(op) => Ok(WorkerOp::CommandResponse(op)),
                Err(e) => Err(e),
            },
        }
    }

    /// Decodes one raw record: reads the type byte, then the payload of the
    /// kind that it names.
    pub fn decode(raw: RawOp) -> (r: Result<WorkerOp, DecodeError>)
        ensures
            decoded(raw, r),
            r matches Ok(op) ==> OpType::of_code(raw.op_type) == Some(op.kind()),
    {
        let kind = match OpType::from_u8(raw.op_type) {
            Some(kind) => kind,
            None => {
                return Err(DecodeError::UnknownType);
            },
        };
        if kind != raw.op.op_type() {
            return Err(DecodeError::PayloadMismatch);
        }
        WorkerOp::decode_payload(raw.op)
    }
}

/// A decoded batch. Each record of the batch gives one entry, in the order
/// of the batch: the operation, or why the record could not be decoded. One
/// malformed record does not spoil the others.
pub struct OpList {
    pub ops: Vec<Result<WorkerOp, DecodeError>>,
}

/// Whether `ops` is what decoding `batch` gives: as many entries as records,
/// in the same order, each the decoding of its record.
pub open spec fn batch_decoded(
    batch: Seq<RawOp>,
    ops: Seq<Result<WorkerOp, DecodeError>>,
) -> bool {
    &&& ops.len() == batch.len()
    &&& forall|i: int| 0 <= i < batch.len() ==> decoded(batch[i], #[trigger] ops[i])
}

impl OpList {
    /// Decodes a raw batch, record by record, in order.
    pub fn decode(batch: Vec<RawOp>) -> (list: OpList)
        ensures
            batch_decoded(batch@, list.ops@),
    {
        let ghost records = batch@;
        let mut batch = batch;
        let mut reversed: Vec<Result<WorkerOp, DecodeError>> = Vec::new();
        while batch.len() > 0
            invariant
                batch@.len() + reversed@.len() == records.len(),
                batch@ == records.take(batch@.len() as int),
                forall|i: int|
                    0 <= i < reversed@.len() ==> decoded(
                        records[records.len() - 1 - i],
                        #[trigger] reversed@[i],
                    ),
            decreases batch@.len(),
        {
            let ghost len = batch@.len();
            match batch.pop() {
                Some(raw) => {
                    assert(raw == records[len - 1]);
                    reversed.push(WorkerOp::decode(raw));
                    assert(batch@ =~= records.take(len - 1));
                },
                None => {},
            }
        }
        let mut ops: Vec<Result<WorkerOp, DecodeError>> = Vec::new();
        while reversed.len() > 0
            invariant
                ops@.len() + reversed@.len() == records.len(),
                forall|i: int|
                    0 <= i < reversed@.len() ==> decoded(
                        records[records.len() - 1 - i],
                        #[trigger] reversed@[i],
                    ),
                forall|i: int| 0 <= i < ops@.len() ==> decoded(records[i], #[trigger] ops@[i]),
            decreases reversed@.len(),
        {
            let ghost done = ops@.len();
            match reversed.pop() {
                Some(result) => {
                    assert(decoded(records[done as int], result));
                    ops.push(result);
                },
                None => {},
            }
        }
        OpList { ops }
    }
}

} // verus!
