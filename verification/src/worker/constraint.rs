//! The constraint language of entity queries: a tree over entity id
//! equality, component presence and sphere regions, composed with and, or
//! and not to any depth, and its record form on the wire.

use crate::worker::{ComponentId, DecodeError, EntityId};
use vstd::prelude::*;

verus! {

/// Matches the entity with the given id.
#[derive(Debug, PartialEq, Eq)]
pub struct EntityIdConstraint {
    pub entity_id: EntityId,
}

/// Matches the entities that have the given component.
#[derive(Debug, PartialEq, Eq)]
pub struct ComponentConstraint {
    pub component_id: ComponentId,
}

/// Matches the entities inside a sphere. The centre and the radius are
/// 64-bit floats, held as their IEEE-754 bit patterns.
#[derive(Debug, PartialEq, Eq)]
pub struct SphereConstraint {
    pub x: u64,
    pub y: u64,
    pub z: u64,
    pub radius: u64,
}

/// Matches the entities that match one of the constraints.
#[derive(Debug, PartialEq, Eq)]
pub struct OrConstraint {
    pub constraints: Vec<Constraint>,
}

/// Matches the entities that match all of the constraints.
#[derive(Debug, PartialEq, Eq)]
pub struct AndConstraint {
    pub constraints: Vec<Constraint>,
}

/// Matches the entities that do not match the constraint.
#[derive(Debug, PartialEq, Eq)]
pub struct NotConstraint {
    pub constraint: Box<Constraint>,
}

/// A constraint of an entity query.
#[derive(Debug, PartialEq, Eq)]
pub enum Constraint {
    EntityId(EntityIdConstraint),
    Component(ComponentConstraint),
    Sphere(SphereConstraint),
    And(AndConstraint),
    Or(OrConstraint),
    Not(NotConstraint),
}

/// A constraint as a record on the wire: a type byte and the payload fields
/// of every kind, of which the type byte says which are meant. The children
/// of an and, an or and a not are nested records.
#[derive(Debug, PartialEq, Eq)]
pub struct RawConstraint {
    pub constraint_type: u8,
    pub entity_id: EntityId,
    pub component_id: ComponentId,
    pub x: u64,
    pub y: u64,
    pub z: u64,
    pub radius: u64,
    pub constraints: Vec<RawConstraint>,
}

/// The type byte of an entity id constraint.
pub const CONSTRAINT_TYPE_ENTITY_ID: u8 = 1;

/// The type byte of a component constraint.
pub const CONSTRAINT_TYPE_COMPONENT: u8 = 2;

/// The type byte of a sphere constraint.
pub const CONSTRAINT_TYPE_SPHERE: u8 = 3;

/// The type byte of an and constraint.
pub const CONSTRAINT_TYPE_AND: u8 = 4;

/// The type byte of an or constraint.
pub const CONSTRAINT_TYPE_OR: u8 = 5;

/// The type byte of a not constraint.
pub const CONSTRAINT_TYPE_NOT: u8 = 6;

/// A constraint as the contracts see it.
pub enum ConstraintView {
    EntityId(EntityId),
    Component(ComponentId),
    Sphere(u64, u64, u64, u64),
    And(Seq<ConstraintView>),
    Or(Seq<ConstraintView>),
    /// The negated constraint, as the sequence of that one constraint.
    Not(Seq<ConstraintView>),
}

/// A wire record as the contracts see it.
pub struct RawConstraintView {
    pub constraint_type: u8,
    pub entity_id: EntityId,
    pub component_id: ComponentId,
    pub x: u64,
    pub y: u64,
    pub z: u64,
    pub radius: u64,
    pub constraints: Seq<RawConstraintView>,
}

/// The views of a list of constraints, in order.
pub open spec fn constraint_views(list: Seq<Constraint>) -> Seq<ConstraintView>
    decreases list,
{
    Seq::new(
        list.len(),
        |i: int|
            if 0 <= i < list.len() {
                list[i].view()
            } else {
                arbitrary()
            },
    )
}

impl View for Constraint {
    type V = ConstraintView;

    open spec fn view(&self) -> ConstraintView
        decreases self,
    {
        match self {
            Constraint::EntityId(c) => ConstraintView::EntityId(c.entity_id),
            Constraint::Component(c) => ConstraintView::Component(c.component_id),
            Constraint::Sphere(c) => ConstraintView::Sphere(c.x, c.y, c.z, c.radius),
            Constraint::And(c) => ConstraintView::And(constraint_views(c.constraints@)),
            Constraint::Or(c) => ConstraintView::Or(constraint_views(c.constraints@)),
            Constraint::Not(c) => ConstraintView::Not(seq![(*c.constraint).view()]),
        }
    }
}

/// The views of a list of wire records, in order.
pub open spec fn raw_views(list: Seq<RawConstraint>) -> Seq<RawConstraintView>
    decreases list,
{
    Seq::new(
        list.len(),
        |i: int|
            if 0 <= i < list.len() {
                list[i].view()
            } else {
                arbitrary()
            },
    )
}

impl View for RawConstraint {
    type V = RawConstraintView;

    open spec fn view(&self) -> RawConstraintView
        decreases self,
    {
        RawConstraintView {
            constraint_type: self.constraint_type,
            entity_id: self.entity_id,
            component_id: self.component_id,
            x: self.x,
            y: self.y,
            z: self.z,
            radius: self.radius,
            constraints: raw_views(self.constraints@),
        }
    }
}

/// A record with the given type byte and children, and zero in every
/// payload field.
pub open spec fn blank(
    constraint_type: u8,
    constraints: Seq<RawConstraintView>,
) -> RawConstraintView {
    RawConstraintView {
        constraint_type,
        entity_id: 0,
        component_id: 0,
        x: 0,
        y: 0,
        z: 0,
        radius: 0,
        constraints,
    }
}

/// The wire records of a list of constraints, in order.
pub open spec fn encode_list(list: Seq<ConstraintView>) -> Seq<RawConstraintView>
    decreases list,
{
    Seq::new(
        list.len(),
        |i: int|
            if 0 <= i < list.len() {
                encode(list[i])
            } else {
                arbitrary()
            },
    )
}

/// The wire record of a constraint: its type byte, its own payload fields,
/// zero in the payload fields of the other kinds, and its children encoded
/// in order.
pub open spec fn encode(constraint: ConstraintView) -> RawConstraintView
    decreases constraint,
{
    match constraint {
        ConstraintView::EntityId(entity_id) => RawConstraintView {
            entity_id,
            ..blank(1, Seq::empty())
        },
        ConstraintView::Component(component_id) => RawConstraintView {
            component_id,
            ..blank(2, Seq::empty())
        },
        ConstraintView::Sphere(x, y, z, radius) => RawConstraintView {
            x,
            y,
            z,
            radius,
            ..blank(3, Seq::empty())
        },
        ConstraintView::And(list) => blank(4, encode_list(list)),
        ConstraintView::Or(list) => blank(5, encode_list(list)),
        ConstraintView::Not(list) => blank(6, encode_list(list)),
    }
}

/// The constraints that a list of wire records stands for, in order. The
/// first record that stands for none fails the list with its error.
pub open spec fn decode_list(list: Seq<RawConstraintView>) -> Result<
    Seq<ConstraintView>,
    DecodeError,
>
    decreases list, 0nat,
{
    if list.len() == 0 {
        Ok(Seq::empty())
    } else {
        match decode_list(list.drop_last()) {
            Err(e) => Err(e),
            Ok(front) => match decode(list.last()) {
                Err(e) => Err(e),
                Ok(last) => Ok(front.push(last)),
            },
        }
    }
}

/// The constraint that a wire record stands for. A type byte outside 1 to 6
/// is `UnknownType`; a not that has not exactly one child is
/// `CountMismatch`; a child that stands for no constraint fails its parent
/// with its own error. Payload fields that the type byte does not mean are
/// not looked at.
pub open spec fn decode(raw: RawConstraintView) -> Result<ConstraintView, DecodeError>
    decreases raw, 1nat,
{
    if raw.constraint_type == 1 {
        Ok(ConstraintView::EntityId(raw.entity_id))
    } else if raw.constraint_type == 2 {
        Ok(ConstraintView::Component(raw.component_id))
    } else if raw.constraint_type == 3 {
        Ok(ConstraintView::Sphere(raw.x, raw.y, raw.z, raw.radius))
    } else if raw.constraint_type == 4 {
        match decode_list(raw.constraints) {
            Ok(list) => Ok(ConstraintView::And(list)),
            Err(e) => Err(e),
        }
    } else if raw.constraint_type == 5 {
        match decode_list(raw.constraints) {
            Ok(list) => Ok(ConstraintView::Or(list)),
            Err(e) => Err(e),
        }
    } else if raw.constraint_type == 6 {
        if raw.constraints.len() != 1 {
            Err(DecodeError::CountMismatch)
        } else {
            match decode(raw.constraints[0]) {
                Ok(inner) => Ok(ConstraintView::Not(seq![inner])),
                Err(e) => Err(e),
            }
        }
    } else {
        Err(DecodeError::UnknownType)
    }
}

/// Whether every not in the tree negates exactly one constraint. The view
/// of every constraint is well formed.
pub open spec fn well_formed(constraint: ConstraintView) -> bool
    decreases constraint,
{
    match constraint {
        ConstraintView::And(list) => forall|i: int|
            0 <= i < list.len() ==> well_formed(#[trigger] list[i]),
        ConstraintView::Or(list) => forall|i: int|
            0 <= i < list.len() ==> well_formed(#[trigger] list[i]),
        ConstraintView::Not(list) => list.len() == 1 && well_formed(list[0]),
        _ => true,
    }
}

/// Round trip, for lists: decoding the records of a list of constraints
/// gives the list back.
pub proof fn law_list_round_trip(list: Seq<ConstraintView>)
    requires
        forall|i: int| 0 <= i < list.len() ==> well_formed(#[trigger] list[i]),
    ensures
        decode_list(encode_list(list)) == Ok::<Seq<ConstraintView>, DecodeError>(list),
    decreases list, 0nat,
{
    if list.len() > 0 {
        let front = list.drop_last();
        assert(encode_list(list).drop_last() =~= encode_list(front));
        law_list_round_trip(front);
        law_round_trip(list.last());
        assert(front.push(list.last()) =~= list);
    } else {
        assert(list =~= Seq::empty());
    }
}

/// Round trip: every constraint, nested to any depth, comes back unchanged
/// from decoding its wire record.
pub proof fn law_round_trip(constraint: ConstraintView)
    requires
        well_formed(constraint),
    ensures
        decode(encode(constraint)) == Ok::<ConstraintView, DecodeError>(constraint),
    decreases constraint, 1nat,
{
    match constraint {
        ConstraintView::And(list) => {
            law_list_round_trip(list);
        },
        ConstraintView::Or(list) => {
            law_list_round_trip(list);
        },
        ConstraintView::Not(list) => {
            law_round_trip(list[0]);
            assert(seq![list[0]] =~= list);
        },
        _ => {},
    }
}

/// The view of a constraint is well formed.
pub proof fn lemma_view_well_formed(constraint: Constraint)
    ensures
        well_formed(constraint@),
    decreases constraint,
{
    match constraint {
        Constraint::And(c) => {
            assert forall|i: int| 0 <= i < c.constraints@.len() implies well_formed(
                #[trigger] constraint_views(c.constraints@)[i],
            ) by {
                lemma_view_well_formed(c.constraints@[i]);
            }
        },
        Constraint::Or(c) => {
            assert forall|i: int| 0 <= i < c.constraints@.len() implies well_formed(
                #[trigger] constraint_views(c.constraints@)[i],
            ) by {
                lemma_view_well_formed(c.constraints@[i]);
            }
        },
        Constraint::Not(c) => {
            lemma_view_well_formed(*c.constraint);
        },
        _ => {},
    }
}

/// Round trip of a query constraint through the wire: the record that
/// `Constraint::encode` gives decodes to the same expression tree.
pub proof fn law_encode_then_decode(constraint: Constraint)
    ensures
        decode(encode(constraint@)) == Ok::<ConstraintView, DecodeError>(constraint@),
{
    lemma_view_well_formed(constraint);
    law_round_trip(constraint@);
}

fn blank_record(constraint_type: u8, constraints: Vec<RawConstraint>) -> (raw: RawConstraint)
    ensures
        raw@ == blank(constraint_type, raw_views(constraints@)),
{
    RawConstraint {
        constraint_type,
        entity_id: 0,
        component_id: 0,
        x: 0,
        y: 0,
        z: 0,
        radius: 0,
        constraints,
    }
}

fn encode_all(list: &Vec<Constraint>) -> (records: Vec<RawConstraint>)
    ensures
        raw_views(records@) == encode_list(constraint_views(list@)),
    decreases list, 0nat,
{
    let mut records: Vec<RawConstraint> = Vec::new();
    let mut i: usize = 0;
    while i < list.len()
        invariant
            i <= list@.len(),
            records@.len() == i,
            forall|j: int| 0 <= j < i ==> records@[j]@ == encode(list@[j]@),
        decreases list@.len() - i,
    {
        records.push(list[i].encode());
        i = i + 1;
    }
    assert(raw_views(records@) =~= encode_list(constraint_views(list@)));
    records
}

fn decode_all(list: &Vec<RawConstraint>) -> (r: Result<Vec<Constraint>, DecodeError>)
    ensures
        match r {
            Ok(decoded) => decode_list(raw_views(list@)) == Ok::<Seq<ConstraintView>, DecodeError>(
                constraint_views(decoded@),
            ),
            Err(e) => decode_list(raw_views(list@)) == Err::<Seq<ConstraintView>, DecodeError>(e),
        },
    decreases list, 0nat,
{
    let mut decoded: Vec<Constraint> = Vec::new();
    let mut i: usize = 0;
    assert(raw_views(list@).take(0) =~= Seq::empty());
    assert(constraint_views(decoded@) =~= Seq::empty());
    while i < list.len()
        invariant
            i <= list@.len(),
            decoded@.len() == i,
            decode_list(raw_views(list@).take(i as int)) == Ok::<
                Seq<ConstraintView>,
                DecodeError,
            >(constraint_views(decoded@)),
        decreases list@.len() - i,
    {
        let ghost prefix = raw_views(list@).take(i as int);
        let ghost next = raw_views(list@).take(i + 1);
        let ghost before = constraint_views(decoded@);
        assert(next.drop_last() =~= prefix);
        assert(next.last() == list@[i as int]@);
        match Constraint::decode(&list[i]) {
            Ok(constraint) => {
                decoded.push(constraint);
                assert(constraint_views(decoded@) =~= before.push(constraint@));
            },
            Err(e) => {
                proof {
                    lemma_decode_list_error(raw_views(list@), i + 1);
                }
                return Err(e);
            },
        }
        i = i + 1;
    }
    assert(raw_views(list@).take(i as int) =~= raw_views(list@));
    Ok(decoded)
}

/// A list with a prefix that fails to decode fails with the prefix's error.
proof fn lemma_decode_list_error(list: Seq<RawConstraintView>, n: int)
    requires
        0 <= n <= list.len(),
        decode_list(list.take(n)) is Err,
    ensures
        decode_list(list) == decode_list(list.take(n)),
    decreases list.len(),
{
    if n < list.len() {
        assert(list.drop_last().take(n) =~= list.take(n));
        lemma_decode_list_error(list.drop_last(), n);
    } else {
        assert(list.take(n) =~= list);
    }
}

impl Constraint {
    /// The wire record of the constraint.
    pub fn encode(&self) -> (raw: RawConstraint)
        ensures
            raw@ == encode(self@),
        decreases self, 1nat,
    {
        match self {
            Constraint::EntityId(c) => {
                let mut raw = blank_record(CONSTRAINT_TYPE_ENTITY_ID, Vec::new());
                raw.entity_id = c.entity_id;
                assert(raw@.constraints =~= Seq::empty());
                raw
            },
            Constraint::Component(c) => {
                let mut raw = blank_record(CONSTRAINT_TYPE_COMPONENT, Vec::new());
                raw.component_id = c.component_id;
                assert(raw@.constraints =~= Seq::empty());
                raw
            },
            Constraint::Sphere(c) => {
                let mut raw = blank_record(CONSTRAINT_TYPE_SPHERE, Vec::new());
                raw.x = c.x;
                raw.y = c.y;
                raw.z = c.z;
                raw.radius = c.radius;
                assert(raw@.constraints =~= Seq::empty());
                raw
            },
            Constraint::And(c) => blank_record(CONSTRAINT_TYPE_AND, encode_all(&c.constraints)),
            Constraint::Or(c) => blank_record(CONSTRAINT_TYPE_OR, encode_all(&c.constraints)),
            Constraint::Not(c) => {
                let mut children: Vec<RawConstraint> = Vec::new();
                children.push(c.constraint.encode());
                assert(raw_views(children@) =~= encode_list(seq![(*c.constraint)@]));
                blank_record(CONSTRAINT_TYPE_NOT, children)
            },
        }
    }

    /// The constraint that a wire record stands for, or why it stands for
    /// none.
    pub fn decode(raw: &RawConstraint) -> (r: Result<Constraint, DecodeError>)
        ensures
            match r {
                Ok(constraint) => decode(raw@) == Ok::<ConstraintView, DecodeError>(constraint@),
                Err(e) => decode(raw@) == Err::<ConstraintView, DecodeError>(e),
            },
        decreases raw, 1nat,
    {
        if raw.constraint_type == CONSTRAINT_TYPE_ENTITY_ID {
            Ok(Constraint::EntityId(EntityIdConstraint { entity_id: raw.entity_id }))
        } else if raw.constraint_type == CONSTRAINT_TYPE_COMPONENT {
            Ok(Constraint::Component(ComponentConstraint { component_id: raw.component_id }))
        } else if raw.constraint_type == CONSTRAINT_TYPE_SPHERE {
            Ok(
                Constraint::Sphere(
                    SphereConstraint { x: raw.x, y: raw.y, z: raw.z, radius: raw.radius },
                ),
            )
        } else if raw.constraint_type == CONSTRAINT_TYPE_AND {
            match decode_all(&raw.constraints) {
                Ok(constraints) => Ok(Constraint::And(AndConstraint { constraints })),
                Err(e) => Err(e),
            }
        } else if raw.constraint_type == CONSTRAINT_TYPE_OR {
            match decode_all(&raw.constraints) {
                Ok(constraints) => Ok(Constraint::Or(OrConstraint { constraints })),
                Err(e) => Err(e),
            }
        } else if raw.constraint_type == CONSTRAINT_TYPE_NOT {
            if raw.constraints.len() != 1 {
                Err(DecodeError::CountMismatch)
            } else {
                match Constraint::decode(&raw.constraints[0]) {
                    Ok(inner) => Ok(Constraint::Not(NotConstraint { constraint: Box::new(inner) })),
                    Err(e) => Err(e),
                }
            }
        } else {
            Err(DecodeError::UnknownType)
        }
    }
}

} // verus!
