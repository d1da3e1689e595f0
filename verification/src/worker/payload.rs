//! Schema-bearing payloads as the protocol carries them: raw schema data, a
//! user-defined handle, or both.
//!
//! A payload inside a batch belongs to the batch. Whoever wants to keep one
//! past the batch acquires it, which gives a payload of its own: a deep copy
//! of the schema data and one more reference to the handle. Every acquired
//! payload is released once, which gives that reference back.

use crate::schema;
use crate::worker::handles::{alive, copied, freed, LifetimeError, SharedHandles};
use crate::worker::{CommandIndex, ComponentData, ComponentId, Handle};
use vstd::prelude::*;

verus! {

/// A component update, held as raw schema data, as a user-defined handle, or
/// as both.
pub struct ComponentUpdate {
    pub component_id: ComponentId,
    pub schema_type: Option<schema::ComponentUpdate>,
    pub user_handle: Option<Handle>,
}

/// A command request, held as raw schema data, as a user-defined handle, or
/// as both.
pub struct CommandRequest {
    pub component_id: ComponentId,
    pub command_index: CommandIndex,
    pub schema_type: Option<schema::CommandRequest>,
    pub user_handle: Option<Handle>,
}

/// A command response, held as raw schema data, as a user-defined handle, or
/// as both.
pub struct CommandResponse {
    pub component_id: ComponentId,
    pub command_index: CommandIndex,
    pub schema_type: Option<schema::CommandResponse>,
    pub user_handle: Option<Handle>,
}

/// The counts after a payload with the handle `user_handle` is acquired.
pub open spec fn acquired(counts: Seq<nat>, user_handle: Option<Handle>) -> Seq<nat> {
    match user_handle {
        Some(handle) => copied(counts, handle.id as int),
        None => counts,
    }
}

/// The counts after a payload with the handle `user_handle` is released.
pub open spec fn released(counts: Seq<nat>, user_handle: Option<Handle>) -> Seq<nat> {
    match user_handle {
        Some(handle) => freed(counts, handle.id as int),
        None => counts,
    }
}

/// Why a payload with the handle `user_handle` cannot be acquired, if it
/// cannot.
pub open spec fn acquire_error(counts: Seq<nat>, user_handle: Option<Handle>) -> Option<
    LifetimeError,
> {
    match user_handle {
        Some(handle) => if !alive(counts, handle.id as int) {
            Some(LifetimeError::NotAlive)
        } else if counts[handle.id as int] >= usize::MAX {
            Some(LifetimeError::TooManyReferences)
        } else {
            None
        },
        None => None,
    }
}

/// One more reference to the handle of a payload, if it has one.
fn acquire_handle<T>(user_handle: Option<Handle>, handles: &mut SharedHandles<T>) -> (r: Result<
    (),
    LifetimeError,
>)
    ensures
        match r {
            Ok(()) => acquire_error(old(handles).counts(), user_handle) is None
                && final(handles).counts() == acquired(old(handles).counts(), user_handle),
            Err(e) => acquire_error(old(handles).counts(), user_handle) == Some(e)
                && *final(handles) == *old(handles),
        },
{
    match user_handle {
        Some(handle) => match handles.copy(handle) {
            Ok(_) => Ok(()),
            Err(e) => Err(e),
        },
        None => Ok(()),
    }
}

/// Gives back the reference to the handle of a payload, if it has one.
fn release_handle<T>(user_handle: Option<Handle>, handles: &mut SharedHandles<T>) -> (r: Result<
    (),
    LifetimeError,
>)
    ensures
        match r {
            Ok(()) => {
                &&& user_handle matches Some(handle) ==> old(handles).is_live(handle)
                &&& final(handles).counts() == released(old(handles).counts(), user_handle)
            },
            Err(e) => {
                &&& e == LifetimeError::NotAlive
                &&& user_handle matches Some(handle) && !old(handles).is_live(handle)
                &&& *final(handles) == *old(handles)
            },
        },
{
    match user_handle {
        Some(handle) => match handles.free(handle) {
            Ok(_) => Ok(()),
            Err(e) => Err(e),
        },
        None => Ok(()),
    }
}

impl ComponentData {
    /// Acquires the component data: a payload of the caller's own, with a deep copy
    /// of the schema data and one more reference to the handle. It fails, and
    /// changes nothing, when the handle names no live value or cannot take
    /// another reference.
    pub fn acquire<T>(&self, handles: &mut SharedHandles<T>) -> (r: Result<
        ComponentData,
        LifetimeError,
    >)
        ensures
            match r {
                Ok(copy) => {
                    &&& acquire_error(old(handles).counts(), self.user_handle) is None
                    &&& final(handles).counts() == acquired(
                        old(handles).counts(),
                        self.user_handle,
                    )
                    &&& copy.component_id == self.component_id
                    &&& copy.user_handle == self.user_handle
                    &&& match self.schema_type {
                        Some(data) => copy.schema_type matches Some(own) && own@ == data@
                            && own.buffers() == data.buffers(),
                        None => copy.schema_type is None,
                    }
                },
                Err(e) => acquire_error(old(handles).counts(), self.user_handle) == Some(e)
                    && *final(handles) == *old(handles),
            },
    {
        match acquire_handle(self.user_handle, handles) {
            Ok(()) => {
                let schema_type = match &self.schema_type {
                    Some(data) => Some(data.clone()),
                    None => None,
                };
                Ok(
                    ComponentData {
                        component_id: self.component_id,
                        schema_type,
                        user_handle: self.user_handle,
                    },
                )
            },
            Err(e) => Err(e),
        }
    }

    /// Releases an acquired component data: its schema data is dropped and the
    /// reference to its handle is given back. A release without a live
    /// reference is an error and changes nothing.
    pub fn release<T>(self, handles: &mut SharedHandles<T>) -> (r: Result<(), LifetimeError>)
        ensures
            match r {
                Ok(()) => {
                    &&& self.user_handle matches Some(handle) ==> old(handles).is_live(handle)
                    &&& final(handles).counts() == released(
                        old(handles).counts(),
                        self.user_handle,
                    )
                },
                Err(e) => {
                    &&& e == LifetimeError::NotAlive
                    &&& self.user_handle matches Some(handle) && !old(handles).is_live(handle)
                    &&& *final(handles) == *old(handles)
                },
            },
    {
        release_handle(self.user_handle, handles)
    }
}

impl ComponentUpdate {
    /// Acquires the component update: a payload of the caller's own, with a deep copy
    /// of the schema data and one more reference to the handle. It fails, and
    /// changes nothing, when the handle names no live value or cannot take
    /// another reference.
    pub fn acquire<T>(&self, handles: &mut SharedHandles<T>) -> (r: Result<
        ComponentUpdate,
        LifetimeError,
    >)
        ensures
            match r {
                Ok(copy) => {
                    &&& acquire_error(old(handles).counts(), self.user_handle) is None
                    &&& final(handles).counts() == acquired(
                        old(handles).counts(),
                        self.user_handle,
                    )
                    &&& copy.component_id == self.component_id
                    &&& copy.user_handle == self.user_handle
                    &&& match self.schema_type {
                        Some(data) => copy.schema_type matches Some(own) && own.fields_view()
                            == data.fields_view() && own.events_view() == data.events_view()
                            && own.cleared() == data.cleared() && own.fields_buffers()
                            == data.fields_buffers() && own.events_buffers()
                            == data.events_buffers(),
                        None => copy.schema_type is None,
                    }
                },
                Err(e) => acquire_error(old(handles).counts(), self.user_handle) == Some(e)
                    && *final(handles) == *old(handles),
            },
    {
        match acquire_handle(self.user_handle, handles) {
            Ok(()) => {
                let schema_type = match &self.schema_type {
                    Some(data) => Some(data.clone()),
                    None => None,
                };
                Ok(
                    ComponentUpdate {
                        component_id: self.component_id,
                        schema_type,
                        user_handle: self.user_handle,
                    },
                )
            },
            Err(e) => Err(e),
        }
    }

    /// Releases an acquired component update: its schema data is dropped and the
    /// reference to its handle is given back. A release without a live
    /// reference is an error and changes nothing.
    pub fn release<T>(self, handles: &mut SharedHandles<T>) -> (r: Result<(), LifetimeError>)
        ensures
            match r {
                Ok(()) => {
                    &&& self.user_handle matches Some(handle) ==> old(handles).is_live(handle)
                    &&& final(handles).counts() == released(
                        old(handles).counts(),
                        self.user_handle,
                    )
                },
                Err(e) => {
                    &&& e == LifetimeError::NotAlive
                    &&& self.user_handle matches Some(handle) && !old(handles).is_live(handle)
                    &&& *final(handles) == *old(handles)
                },
            },
    {
        release_handle(self.user_handle, handles)
    }
}

impl CommandRequest {
    /// Acquires the command request: a payload of the caller's own, with a deep copy
    /// of the schema data and one more reference to the handle. It fails, and
    /// changes nothing, when the handle names no live value or cannot take
    /// another reference.
    pub fn acquire<T>(&self, handles: &mut SharedHandles<T>) -> (r: Result<
        CommandRequest,
        LifetimeError,
    >)
        ensures
            match r {
                Ok(copy) => {
                    &&& acquire_error(old(handles).counts(), self.user_handle) is None
                    &&& final(handles).counts() == acquired(
                        old(handles).counts(),
                        self.user_handle,
                    )
                    &&& copy.component_id == self.component_id
                    &&& copy.command_index == self.command_index
                    &&& copy.user_handle == self.user_handle
                    &&& match self.schema_type {
                        Some(data) => copy.schema_type matches Some(own) && own@ == data@
                            && own.buffers() == data.buffers(),
                        None => copy.schema_type is None,
                    }
                },
                Err(e) => acquire_error(old(handles).counts(), self.user_handle) == Some(e)
                    && *final(handles) == *old(handles),
            },
    {
        match acquire_handle(self.user_handle, handles) {
            Ok(()) => {
                let schema_type = match &self.schema_type {
                    Some(data) => Some(data.clone()),
                    None => None,
                };
                Ok(
                    CommandRequest {
                        component_id: self.component_id,
                        command_index: self.command_index,
                        schema_type,
                        user_handle: self.user_handle,
                    },
                )
            },
            Err(e) => Err(e),
        }
    }

    /// Releases an acquired command request: its schema data is dropped and the
    /// reference to its handle is given back. A release without a live
    /// reference is an error and changes nothing.
    pub fn release<T>(self, handles: &mut SharedHandles<T>) -> (r: Result<(), LifetimeError>)
        ensures
            match r {
                Ok(()) => {
                    &&& self.user_handle matches Some(handle) ==> old(handles).is_live(handle)
                    &&& final(handles).counts() == released(
                        old(handles).counts(),
                        self.user_handle,
                    )
                },
                Err(e) => {
                    &&& e == LifetimeError::NotAlive
                    &&& self.user_handle matches Some(handle) && !old(handles).is_live(handle)
                    &&& *final(handles) == *old(handles)
                },
            },
    {
        release_handle(self.user_handle, handles)
    }
}

impl CommandResponse {
    /// Acquires the command response: a payload of the caller's own, with a deep copy
    /// of the schema data and one more reference to the handle. It fails, and
    /// changes nothing, when the handle names no live value or cannot take
    /// another reference.
    pub fn acquire<T>(&self, handles: &mut SharedHandles<T>) -> (r: Result<
        CommandResponse,
        LifetimeError,
    >)
        ensures
            match r {
                Ok(copy) => {
                    &&& acquire_error(old(handles).counts(), self.user_handle) is None
                    &&& final(handles).counts() == acquired(
                        old(handles).counts(),
                        self.user_handle,
                    )
                    &&& copy.component_id == self.component_id
                    &&& copy.command_index == self.command_index
                    &&& copy.user_handle == self.user_handle
                    &&& match self.schema_type {
                        Some(data) => copy.schema_type matches Some(own) && own@ == data@
                            && own.buffers() == data.buffers(),
                        None => copy.schema_type is None,
                    }
                },
                Err(e) => acquire_error(old(handles).counts(), self.user_handle) == Some(e)
                    && *final(handles) == *old(handles),
            },
    {
        match acquire_handle(self.user_handle, handles) {
            Ok(()) => {
                let schema_type = match &self.schema_type {
                    Some(data) => Some(data.clone()),
                    None => None,
                };
                Ok(
                    CommandResponse {
                        component_id: self.component_id,
                        command_index: self.command_index,
                        schema_type,
                        user_handle: self.user_handle,
                    },
                )
            },
            Err(e) => Err(e),
        }
    }

    /// Releases an acquired command response: its schema data is dropped and the
    /// reference to its handle is given back. A release without a live
    /// reference is an error and changes nothing.
    pub fn release<T>(self, handles: &mut SharedHandles<T>) -> (r: Result<(), LifetimeError>)
        ensures
            match r {
                Ok(()) => {
                    &&& self.user_handle matches Some(handle) ==> old(handles).is_live(handle)
                    &&& final(handles).counts() == released(
                        old(handles).counts(),
                        self.user_handle,
                    )
                },
                Err(e) => {
                    &&& e == LifetimeError::NotAlive
                    &&& self.user_handle matches Some(handle) && !old(handles).is_live(handle)
                    &&& *final(handles) == *old(handles)
                },
            },
    {
        release_handle(self.user_handle, handles)
    }
}

/// Acquire and release balance: a payload that is acquired and then
/// released leaves every count as it was, and the handle alive in between.
pub proof fn law_acquire_then_release(counts: Seq<nat>, user_handle: Option<Handle>)
    requires
        acquire_error(counts, user_handle) is None,
    ensures
        released(acquired(counts, user_handle), user_handle) == counts,
        user_handle matches Some(handle) ==> alive(acquired(counts, user_handle), handle.id as int),
{
    if let Some(handle) = user_handle {
        assert(freed(copied(counts, handle.id as int), handle.id as int) =~= counts);
    }
}

} // verus!
