//! Entity queries: a constraint and what to return of the entities that
//! match it.

use crate::worker::constraint::{
    decode, encode, law_encode_then_decode, Constraint, ConstraintView, EntityIdConstraint,
    RawConstraint,
};
use crate::worker::{ComponentId, DecodeError, ResultType};
use vstd::prelude::*;
use vstd::slice::slice_to_vec;

verus! {

/// An entity query.
#[derive(Debug, PartialEq, Eq)]
pub struct EntityQuery {
    /// The constraint for this query.
    pub constraint: Constraint,
    /// What the query returns.
    pub result_type: ResultType,
    /// The components that a snapshot result is restricted to. Empty means
    /// all components.
    pub snapshot_result_type_component_ids: Vec<ComponentId>,
}

/// An entity query as a record on the wire.
#[derive(Debug, PartialEq, Eq)]
pub struct RawEntityQuery {
    pub constraint: RawConstraint,
    pub result_type: u8,
    pub snapshot_result_type_component_id_count: u32,
    /// `None` where the wire gives no list of component ids.
    pub snapshot_result_type_component_ids: Option<Vec<ComponentId>>,
}

impl Default for EntityQuery {
    /// A count query for the entity with id zero.
    fn default() -> (query: Self)
        ensures
            query.constraint@ == ConstraintView::EntityId(0),
            query.result_type == ResultType::Count,
            query.snapshot_result_type_component_ids@ == Seq::<ComponentId>::empty(),
    {
        EntityQuery {
            constraint: Constraint::EntityId(EntityIdConstraint { entity_id: 0 }),
            result_type: ResultType::Count,
            snapshot_result_type_component_ids: Vec::new(),
        }
    }
}

impl EntityQuery {
    /// The wire record of the query. `None` when there are more component
    /// ids than the record's 32-bit count can say.
    pub fn encode(&self) -> (r: Option<RawEntityQuery>)
        ensures
            match r {
                Some(raw) => {
                    &&& self.snapshot_result_type_component_ids@.len() <= u32::MAX
                    &&& raw.constraint@ == encode(self.constraint@)
                    &&& raw.result_type == self.result_type.code()
                    &&& raw.snapshot_result_type_component_id_count
                        == self.snapshot_result_type_component_ids@.len()
                    &&& raw.snapshot_result_type_component_ids matches Some(ids) && ids@
                        == self.snapshot_result_type_component_ids@
                },
                None => self.snapshot_result_type_component_ids@.len() > u32::MAX,
            },
    {
        if self.snapshot_result_type_component_ids.len() > 0xffff_ffff {
            None
        } else {
            Some(
                RawEntityQuery {
                    constraint: self.constraint.encode(),
                    result_type: self.result_type.to_u8(),
                    snapshot_result_type_component_id_count:
                        self.snapshot_result_type_component_ids.len() as u32,
                    snapshot_result_type_component_ids: Some(
                        slice_to_vec(self.snapshot_result_type_component_ids.as_slice()),
                    ),
                },
            )
        }
    }

    /// The query that a wire record stands for. The constraint is decoded
    /// first and fails the query with its own error; then a result type byte
    /// that names no result type is `InvalidCode`; then a list of component
    /// ids whose length is not the count is `CountMismatch`. A record without
    /// a list stands for the empty list, whatever its count.
    pub fn decode(raw: &RawEntityQuery) -> (r: Result<EntityQuery, DecodeError>)
        ensures
            match r {
                Ok(query) => {
                    &&& decode(raw.constraint@) == Ok::<ConstraintView, DecodeError>(
                        query.constraint@,
                    )
                    &&& ResultType::of_code(raw.result_type) == Some(query.result_type)
                    &&& match raw.snapshot_result_type_component_ids {
                        Some(ids) => ids@.len() == raw.snapshot_result_type_component_id_count
                            && query.snapshot_result_type_component_ids@ == ids@,
                        None => query.snapshot_result_type_component_ids@.len() == 0,
                    }
                },
                Err(e) => {
                    if decode(raw.constraint@) is Err {
                        decode(raw.constraint@) == Err::<ConstraintView, DecodeError>(e)
                    } else if ResultType::of_code(raw.result_type) is None {
                        e == DecodeError::InvalidCode
                    } else {
                        &&& e == DecodeError::CountMismatch
                        &&& raw.snapshot_result_type_component_ids matches Some(ids) && ids@.len()
                            != raw.snapshot_result_type_component_id_count
                    }
                },
            },
    {
        let constraint = match Constraint::decode(&raw.constraint) {
            Ok(constraint) => constraint,
            Err(e) => {
                return Err(e);
            },
        };
        let result_type = match ResultType::from_u8(raw.result_type) {
            Some(result_type) => result_type,
            None => {
                return Err(DecodeError::InvalidCode);
            },
        };
        let ids = match &raw.snapshot_result_type_component_ids {
            Some(ids) => {
                if ids.len() > 0xffff_ffff || ids.len() as u32
                    != raw.snapshot_result_type_component_id_count {
                    return Err(DecodeError::CountMismatch);
                }
                slice_to_vec(ids.as_slice())
            },
            None => Vec::new(),
        };
        Ok(EntityQuery { constraint, result_type, snapshot_result_type_component_ids: ids })
    }
}

/// Round trip of a whole query: when a query has a wire record, decoding the
/// record gives the same constraint, result type and component ids.
pub proof fn law_query_round_trip(query: EntityQuery)
    ensures
        decode(encode(query.constraint@)) == Ok::<ConstraintView, DecodeError>(query.constraint@),
        ResultType::of_code(query.result_type.code()) == Some(query.result_type),
{
    law_encode_then_decode(query.constraint);
}

} // verus!
