//! Vtable dispatch: for each component, which user callbacks stand between
//! raw schema data and the user-defined handles.
//!
//! A callback is held as the name that the application gives it. The library
//! decides which callback, if any, a boundary crossing calls; the call
//! itself is the application's.

use crate::worker::{ComponentId, DecodeError, Handle};
use vstd::prelude::*;

verus! {

/// The kinds of payload that a handle can stand for.
#[derive(Clone, Copy, Debug, PartialEq, Eq, Structural)]
pub enum HandleKind {
    CommandRequest,
    CommandResponse,
    ComponentData,
    ComponentUpdate,
}

/// The four operations on handles of one kind.
#[derive(Clone, Copy, Debug, PartialEq, Eq, Structural)]
pub enum Operation {
    Free,
    Copy,
    Deserialize,
    Serialize,
}

/// A user callback, by the name that the application gave it.
#[derive(Clone, Copy, Debug, PartialEq, Eq, Structural)]
pub struct Callback {
    pub id: u32,
}

/// The callbacks of one component: up to sixteen, one for each operation on
/// each kind of handle. An empty slot means that the operation is not
/// provided.
#[derive(Clone, Copy, Debug, PartialEq, Eq, Structural)]
pub struct ComponentVtable {
    /// The component that this vtable is for. Of no meaning in the default
    /// vtable.
    pub component_id: ComponentId,
    /// User data which is passed to every callback as it is.
    pub user_data: u64,
    pub command_request_free: Option<Callback>,
    pub command_request_copy: Option<Callback>,
    pub command_request_deserialize: Option<Callback>,
    pub command_request_serialize: Option<Callback>,
    pub command_response_free: Option<Callback>,
    pub command_response_copy: Option<Callback>,
    pub command_response_deserialize: Option<Callback>,
    pub command_response_serialize: Option<Callback>,
    pub component_data_free: Option<Callback>,
    pub component_data_copy: Option<Callback>,
    pub component_data_deserialize: Option<Callback>,
    pub component_data_serialize: Option<Callback>,
    pub component_update_free: Option<Callback>,
    pub component_update_copy: Option<Callback>,
    pub component_update_deserialize: Option<Callback>,
    pub component_update_serialize: Option<Callback>,
}

/// What a boundary crossing does.
#[derive(Clone, Copy, Debug, PartialEq, Eq, Structural)]
pub enum Dispatch {
    /// The user's callback is called, with the vtable's user data.
    Call { callback: Callback, user_data: u64 },
    /// No callback is provided: the raw schema data passes through.
    Passthrough,
}

impl ComponentVtable {
    /// The callback in the slot of `operation` on handles of `kind`.
    pub open spec fn slot(self, kind: HandleKind, operation: Operation) -> Option<Callback> {
        match (kind, operation) {
            (HandleKind::CommandRequest, Operation::Free) => self.command_request_free,
            (HandleKind::CommandRequest, Operation::Copy) => self.command_request_copy,
            (HandleKind::CommandRequest, Operation::Deserialize) =>
                self.command_request_deserialize,
            (HandleKind::CommandRequest, Operation::Serialize) => self.command_request_serialize,
            (HandleKind::CommandResponse, Operation::Free) => self.command_response_free,
            (HandleKind::CommandResponse, Operation::Copy) => self.command_response_copy,
            (HandleKind::CommandResponse, Operation::Deserialize) =>
                self.command_response_deserialize,
            (HandleKind::CommandResponse, Operation::Serialize) => self.command_response_serialize,
            (HandleKind::ComponentData, Operation::Free) => self.component_data_free,
            (HandleKind::ComponentData, Operation::Copy) => self.component_data_copy,
            (HandleKind::ComponentData, Operation::Deserialize) => self.component_data_deserialize,
            (HandleKind::ComponentData, Operation::Serialize) => self.component_data_serialize,
            (HandleKind::ComponentUpdate, Operation::Free) => self.component_update_free,
            (HandleKind::ComponentUpdate, Operation::Copy) => self.component_update_copy,
            (HandleKind::ComponentUpdate, Operation::Deserialize) =>
                self.component_update_deserialize,
            (HandleKind::ComponentUpdate, Operation::Serialize) => self.component_update_serialize,
        }
    }

    /// A vtable for `component_id` with no callback at all: the raw schema
    /// data is used for every kind.
    pub fn empty(component_id: ComponentId) -> (vtable: Self)
        ensures
            vtable.component_id == component_id,
            vtable.user_data == 0,
            forall|kind: HandleKind, operation: Operation|
                (#[trigger] vtable.slot(kind, operation)) is None,
    {
        ComponentVtable {
            component_id,
            user_data: 0,
            command_request_free: None,
            command_request_copy: None,
            command_request_deserialize: None,
            command_request_serialize: None,
            command_response_free: None,
            command_response_copy: None,
            command_response_deserialize: None,
            command_response_serialize: None,
            component_data_free: None,
            component_data_copy: None,
            component_data_deserialize: None,
            component_data_serialize: None,
            component_update_free: None,
            component_update_copy: None,
            component_update_deserialize: None,
            component_update_serialize: None,
        }
    }

    /// The callback in the slot of `operation` on handles of `kind`.
    pub fn callback(&self, kind: HandleKind, operation: Operation) -> (callback: Option<Callback>)
        ensures
            callback == self.slot(kind, operation),
    {
        match kind {
            HandleKind::CommandRequest => match operation {
                Operation::Free => self.command_request_free,
                Operation::Copy => self.command_request_copy,
                Operation::Deserialize => self.command_request_deserialize,
                Operation::Serialize => self.command_request_serialize,
            },
            HandleKind::CommandResponse => match operation {
                Operation::Free => self.command_response_free,
                Operation::Copy => self.command_response_copy,
                Operation::Deserialize => self.command_response_deserialize,
                Operation::Serialize => self.command_response_serialize,
            },
            HandleKind::ComponentData => match operation {
                Operation::Free => self.component_data_free,
                Operation::Copy => self.component_data_copy,
                Operation::Deserialize => self.component_data_deserialize,
                Operation::Serialize => self.component_data_serialize,
            },
            HandleKind::ComponentUpdate => match operation {
                Operation::Free => self.component_update_free,
                Operation::Copy => self.component_update_copy,
                Operation::Deserialize => self.component_update_deserialize,
                Operation::Serialize => self.component_update_serialize,
            },
        }
    }
}

/// The first vtable of `vtables` that is for `component_id`.
pub open spec fn first_for(vtables: Seq<ComponentVtable>, component_id: ComponentId) -> Option<
    ComponentVtable,
>
    decreases vtables.len(),
{
    if vtables.len() == 0 {
        None
    } else if vtables[0].component_id == component_id {
        Some(vtables[0])
    } else {
        first_for(vtables.skip(1), component_id)
    }
}

/// The vtable that applies to `component_id`: the one registered for it, or
/// the default where none is.
pub open spec fn resolved(
    vtables: Seq<ComponentVtable>,
    default_vtable: Option<ComponentVtable>,
    component_id: ComponentId,
) -> Option<ComponentVtable> {
    match first_for(vtables, component_id) {
        Some(vtable) => Some(vtable),
        None => default_vtable,
    }
}

/// What a crossing does under the vtable that applies: the callback in its
/// slot, or passthrough where the slot is empty or no vtable applies.
pub open spec fn dispatch_of(
    applies: Option<ComponentVtable>,
    kind: HandleKind,
    operation: Operation,
) -> Dispatch {
    match applies {
        Some(vtable) => match vtable.slot(kind, operation) {
            Some(callback) => Dispatch::Call { callback, user_data: vtable.user_data },
            None => Dispatch::Passthrough,
        },
        None => Dispatch::Passthrough,
    }
}

/// How a payload leaves under the vtable that applies. Raw schema data,
/// where the caller gives any, is sent as it is, whatever the vtable holds.
/// A handle alone is serialized by the user's callback, and cannot be sent
/// where the vtable provides none.
pub open spec fn sent<S>(
    applies: Option<ComponentVtable>,
    kind: HandleKind,
    schema_type: Option<S>,
    user_handle: Option<Handle>,
) -> Outbound<S> {
    match schema_type {
        Some(schema) => Outbound::Raw(schema),
        None => match (user_handle, dispatch_of(applies, kind, Operation::Serialize)) {
            (Some(handle), Dispatch::Call { callback, user_data }) => Outbound::Serialize {
                callback,
                user_data,
                handle,
            },
            _ => Outbound::Unsendable,
        },
    }
}

/// How schema data arrives under the vtable that applies: through the
/// user's deserialize callback where the vtable provides one, and else as
/// raw schema data.
pub open spec fn received<S>(
    applies: Option<ComponentVtable>,
    kind: HandleKind,
    schema: S,
) -> Inbound<S> {
    match dispatch_of(applies, kind, Operation::Deserialize) {
        Dispatch::Call { callback, user_data } => Inbound::Deserialize {
            callback,
            user_data,
            schema,
        },
        Dispatch::Passthrough => Inbound::Raw(schema),
    }
}

/// The vtables of a connection. They are registered once, when the registry
/// is made, and never change after.
pub struct VtableRegistry {
    vtables: Vec<ComponentVtable>,
    default_vtable: Option<ComponentVtable>,
}

/// What the library hands to the transport for an outbound payload.
pub enum Outbound<S> {
    /// The raw schema data, as it is.
    Raw(S),
    /// The handle, to be serialized by the user's callback.
    Serialize { callback: Callback, user_data: u64, handle: Handle },
    /// Nothing can be sent: there is no schema data, and no handle that a
    /// callback could serialize.
    Unsendable,
}

/// What the library does with an inbound payload.
pub enum Inbound<S> {
    /// The raw schema data is delivered, as it is.
    Raw(S),
    /// The schema data is to be deserialized by the user's callback into a
    /// handle.
    Deserialize { callback: Callback, user_data: u64, schema: S },
}

impl VtableRegistry {
    /// The vtables registered for single components, in registration order.
    pub closed spec fn vtables(&self) -> Seq<ComponentVtable> {
        self.vtables@
    }

    /// The default vtable, if there is one.
    pub closed spec fn default_vtable(&self) -> Option<ComponentVtable> {
        self.default_vtable
    }

    /// The vtable that applies to `component_id`.
    pub open spec fn applies_to(&self, component_id: ComponentId) -> Option<ComponentVtable> {
        resolved(self.vtables(), self.default_vtable(), component_id)
    }

    /// Registers the vtables of a connection.
    pub fn new(vtables: Vec<ComponentVtable>, default_vtable: Option<ComponentVtable>) -> (registry:
        Self)
        ensures
            registry.vtables() == vtables@,
            registry.default_vtable() == default_vtable,
    {
        VtableRegistry { vtables, default_vtable }
    }

    /// Looks up the vtable that applies to `component_id`.
    pub fn resolve(&self, component_id: ComponentId) -> (vtable: Option<ComponentVtable>)
        ensures
            vtable == self.applies_to(component_id),
    {
        let mut i: usize = 0;
        assert(self.vtables@.skip(0) =~= self.vtables@);
        while i < self.vtables.len()
            invariant
                i <= self.vtables@.len(),
                first_for(self.vtables@, component_id) == first_for(
                    self.vtables@.skip(i as int),
                    component_id,
                ),
            decreases self.vtables@.len() - i,
        {
            if self.vtables[i].component_id == component_id {
                return Some(self.vtables[i]);
            }
            assert(self.vtables@.skip(i as int).skip(1) =~= self.vtables@.skip(i + 1));
            i = i + 1;
        }
        self.default_vtable
    }

    /// Decides what a boundary crossing does: the callback of the vtable
    /// that applies, or passthrough of the raw schema data.
    pub fn dispatch(&self, component_id: ComponentId, kind: HandleKind, operation: Operation) -> (d:
        Dispatch)
        ensures
            d == dispatch_of(self.applies_to(component_id), kind, operation),
    {
        match self.resolve(component_id) {
            Some(vtable) => match vtable.callback(kind, operation) {
                Some(callback) => Dispatch::Call { callback, user_data: vtable.user_data },
                None => Dispatch::Passthrough,
            },
            None => Dispatch::Passthrough,
        }
    }

    /// Decides how a payload leaves.
    pub fn outbound<S>(
        &self,
        component_id: ComponentId,
        kind: HandleKind,
        schema_type: Option<S>,
        user_handle: Option<Handle>,
    ) -> (r: Outbound<S>)
        ensures
            r == sent(self.applies_to(component_id), kind, schema_type, user_handle),
    {
        match schema_type {
            Some(schema) => Outbound::Raw(schema),
            None => match user_handle {
                Some(handle) => match self.dispatch(component_id, kind, Operation::Serialize) {
                    Dispatch::Call { callback, user_data } => Outbound::Serialize {
                        callback,
                        user_data,
                        handle,
                    },
                    Dispatch::Passthrough => Outbound::Unsendable,
                },
                None => Outbound::Unsendable,
            },
        }
    }

    /// Decides how a payload arrives.
    pub fn inbound<S>(&self, component_id: ComponentId, kind: HandleKind, schema: S) -> (r: Inbound<
        S,
    >)
        ensures
            r == received(self.applies_to(component_id), kind, schema),
    {
        match self.dispatch(component_id, kind, Operation::Deserialize) {
            Dispatch::Call { callback, user_data } => Inbound::Deserialize {
                callback,
                user_data,
                schema,
            },
            Dispatch::Passthrough => Inbound::Raw(schema),
        }
    }
}

/// What a deserialize callback's answer means: the handle it produced where
/// its status byte is not zero, and a failure where it is.
pub fn deserialize_outcome(status: u8, handle: Handle) -> (r: Result<Handle, DecodeError>)
    ensures
        r == if status != 0 {
            Ok::<Handle, DecodeError>(handle)
        } else {
            Err::<Handle, DecodeError>(DecodeError::Deserialize)
        },
{
    if status != 0 {
        Ok(handle)
    } else {
        Err(DecodeError::Deserialize)
    }
}

/// Passthrough round trip: where no deserialize callback applies to a
/// component, schema data that is sent raw leaves as it is and arrives as
/// the very same schema data, field for field.
pub proof fn law_passthrough_round_trip<S>(
    sender: Option<ComponentVtable>,
    receiver: Option<ComponentVtable>,
    kind: HandleKind,
    schema: S,
    user_handle: Option<Handle>,
)
    requires
        dispatch_of(receiver, kind, Operation::Deserialize) == Dispatch::Passthrough,
    ensures
        sent(sender, kind, Some(schema), user_handle) == Outbound::Raw(schema),
        received(receiver, kind, schema) == Inbound::Raw(schema),
{
}

/// Lookup: a registered vtable wins over the default, and the default
/// applies to every component that has none of its own.
pub proof fn law_default_applies(
    vtables: Seq<ComponentVtable>,
    default_vtable: Option<ComponentVtable>,
    component_id: ComponentId,
)
    ensures
        (forall|i: int| 0 <= i < vtables.len() ==> (#[trigger] vtables[i]).component_id
            != component_id) ==> resolved(vtables, default_vtable, component_id) == default_vtable,
        (exists|i: int| 0 <= i < vtables.len() && (#[trigger] vtables[i]).component_id
            == component_id) ==> resolved(vtables, default_vtable, component_id) is Some
            && resolved(vtables, default_vtable, component_id)->Some_0.component_id
            == component_id,
    decreases vtables.len(),
{
    if vtables.len() > 0 {
        if vtables[0].component_id != component_id {
            let rest = vtables.skip(1);
            law_default_applies(rest, default_vtable, component_id);
            assert forall|i: int| 0 <= i < rest.len() implies rest[i] == vtables[i + 1] by {}
            if exists|i: int| 0 <= i < vtables.len() && (#[trigger] vtables[i]).component_id
                == component_id {
                let i = choose|i: int|
                    0 <= i < vtables.len() && (#[trigger] vtables[i]).component_id == component_id;
                assert(rest[i - 1].component_id == component_id);
            }
            if forall|i: int| 0 <= i < vtables.len() ==> (#[trigger] vtables[i]).component_id
                != component_id {
                assert forall|i: int| 0 <= i < rest.len() implies (#[trigger] rest[i]).component_id
                    != component_id by {
                    assert(vtables[i + 1].component_id != component_id);
                }
            }
        }
    }
}

} // verus!
