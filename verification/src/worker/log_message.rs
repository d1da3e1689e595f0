//! Log messages that a worker sends to the host.

use crate::worker::text::{decode_text, spells};
use crate::worker::{DecodeError, EntityId, LogLevel};
use vstd::prelude::*;
use vstd::slice::slice_to_vec;
use vstd::utf8::{encode_utf8, valid_utf8};

verus! {

/// Parameters for sending a log message to the host.
#[derive(Debug)]
pub struct LogMessage {
    /// The severity of the log message.
    pub level: LogLevel,
    /// The name of the logger.
    pub logger_name: String,
    /// The full log message.
    pub message: String,
    /// The id of the entity this message relates to, if any.
    pub entity_id: Option<EntityId>,
}

/// A log message as it is handed to the transport: the level as its byte,
/// the texts as their UTF-8 bytes. The transport ends each text with a zero
/// byte, so a text cannot hold one.
pub struct RawLogMessage {
    pub level: u8,
    pub logger_name: Vec<u8>,
    pub message: Vec<u8>,
    pub entity_id: Option<EntityId>,
}

/// Whether `bytes` hold a zero byte.
pub open spec fn has_zero_byte(bytes: Seq<u8>) -> bool {
    exists|i: int| 0 <= i < bytes.len() && bytes[i] == 0
}

/// Whether `bytes` hold a zero byte.
pub fn contains_zero_byte(bytes: &[u8]) -> (found: bool)
    ensures
        found == has_zero_byte(bytes@),
{
    let mut i: usize = 0;
    while i < bytes.len()
        invariant
            i <= bytes@.len(),
            forall|j: int| 0 <= j < i ==> bytes@[j] != 0,
        decreases bytes@.len() - i,
    {
        if bytes[i] == 0 {
            return true;
        }
        i = i + 1;
    }
    false
}

impl RawLogMessage {
    /// What is wrong with the record: first the level byte, then the logger
    /// name, then the text.
    pub open spec fn error(self) -> Option<DecodeError> {
        if LogLevel::of_code(self.level) is None {
            Some(DecodeError::InvalidCode)
        } else if !valid_utf8(self.logger_name@) || !valid_utf8(self.message@) {
            Some(DecodeError::Encoding)
        } else {
            None
        }
    }

    /// Whether `message` is the log message that the record stands for.
    pub open spec fn stands_for(self, message: LogMessage) -> bool {
        &&& LogLevel::of_code(self.level) == Some(message.level)
        &&& spells(self.logger_name@, message.logger_name@)
        &&& spells(self.message@, message.message@)
        &&& message.entity_id == self.entity_id
    }
}

impl LogMessage {
    /// The log message that a record stands for, or what is wrong with the
    /// record.
    pub fn decode(raw: &RawLogMessage) -> (r: Result<LogMessage, DecodeError>)
        ensures
            match r {
                Ok(message) => raw.error() is None && raw.stands_for(message),
                Err(e) => raw.error() == Some(e),
            },
    {
        let level = match LogLevel::from_u8(raw.level) {
            Some(level) => level,
            None => {
                return Err(DecodeError::InvalidCode);
            },
        };
        let logger_name = match decode_text(raw.logger_name.as_slice()) {
            Some(text) => text,
            None => {
                return Err(DecodeError::Encoding);
            },
        };
        let message = match decode_text(raw.message.as_slice()) {
            Some(text) => text,
            None => {
                return Err(DecodeError::Encoding);
            },
        };
        Ok(LogMessage { level, logger_name, message, entity_id: raw.entity_id })
    }

    /// A log message with the given level, logger name, text and entity.
    pub fn new(
        level: LogLevel,
        logger_name: &str,
        message: &str,
        entity_id: Option<EntityId>,
    ) -> (r: Self)
        ensures
            r.level == level,
            r.logger_name@ == logger_name@,
            r.message@ == message@,
            r.entity_id == entity_id,
    {
        LogMessage {
            level,
            logger_name: logger_name.to_owned(),
            message: message.to_owned(),
            entity_id,
        }
    }

    /// The message as it is handed to the transport. There is none exactly
    /// when the logger name or the text holds a zero byte.
    pub fn encode(&self) -> (r: Option<RawLogMessage>)
        ensures
            match r {
                Some(raw) => {
                    &&& raw.level == self.level.code()
                    &&& raw.logger_name@ == encode_utf8(self.logger_name@)
                    &&& raw.message@ == encode_utf8(self.message@)
                    &&& raw.entity_id == self.entity_id
                    &&& !has_zero_byte(raw.logger_name@)
                    &&& !has_zero_byte(raw.message@)
                },
                None => has_zero_byte(encode_utf8(self.logger_name@)) || has_zero_byte(
                    encode_utf8(self.message@),
                ),
            },
    {
        let logger_name = self.logger_name.as_str().as_bytes();
        let message = self.message.as_str().as_bytes();
        if contains_zero_byte(logger_name) || contains_zero_byte(message) {
            None
        } else {
            Some(
                RawLogMessage {
                    level: self.level.to_u8(),
                    logger_name: slice_to_vec(logger_name),
                    message: slice_to_vec(message),
                    entity_id: self.entity_id,
                },
            )
        }
    }
}

} // verus!
