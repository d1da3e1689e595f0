//! Schema data: the dynamically typed payloads of components and commands.
//!
//! Four wrappers each own one object-bearing buffer: component data,
//! component update, command request and command response. The views that
//! they hand out borrow from them, so a view cannot outlive its owner.

pub mod object;

use crate::schema::object::model::EntryView;
use crate::schema::object::Object;
use vstd::prelude::*;

verus! {

pub type EntityId = i64;

pub type FieldId = u32;

pub type ComponentId = u32;

/// The field of a map entry object that holds the key.
pub const MAP_KEY_FIELD_ID: u32 = 1;

/// The field of a map entry object that holds the value.
pub const MAP_VALUE_FIELD_ID: u32 = 2;

/// A snapshot of one component's state.
pub struct ComponentData {
    fields: Object,
}

/// A change to one component's state: new field values, the fields that are
/// explicitly unset, and the events that fired.
pub struct ComponentUpdate {
    fields: Object,
    events: Object,
    cleared: Vec<FieldId>,
}

/// The payload of a command request.
pub struct CommandRequest {
    object: Object,
}

/// The payload of a command response.
pub struct CommandResponse {
    object: Object,
}

impl View for ComponentData {
    type V = Seq<EntryView>;

    /// The entries of the top-level object.
    closed spec fn view(&self) -> Seq<EntryView> {
        self.fields@
    }
}

impl ComponentData {
    /// The raw spans reserved in the top-level object, in the order they
    /// were reserved. They live as long as the component data does.
    pub closed spec fn buffers(&self) -> Seq<Seq<u8>> {
        self.fields.buffers()
    }

    /// Component data whose top-level object has no fields and no reserved
    /// span.
    pub fn new() -> (data: Self)
        ensures
            data@ == Seq::<EntryView>::empty(),
            data.buffers() == Seq::<Seq<u8>>::empty(),
    {
        ComponentData { fields: Object::new() }
    }

    /// Component data that owns `fields` as its top-level object.
    pub fn from_fields(fields: Object) -> (data: Self)
        ensures
            data@ == fields@,
            data.buffers() == fields.buffers(),
    {
        ComponentData { fields }
    }

    /// A view of the top-level object. What is written through it, and what
    /// is reserved through it, is what the component data then holds.
    pub fn get_fields(&mut self) -> (fields: &mut Object)
        ensures
            fields@ == old(self)@,
            fields.buffers() == old(self).buffers(),
            final(self)@ == final(fields)@,
            final(self).buffers() == final(fields).buffers(),
    {
        &mut self.fields
    }

    /// The top-level object, for reading.
    pub fn fields(&self) -> (fields: &Object)
        ensures
            fields@ == self@,
            fields.buffers() == self.buffers(),
    {
        &self.fields
    }
}

impl Clone for ComponentData {
    /// A deep copy in storage of its own, reserved spans included.
    fn clone(&self) -> (copy: Self)
        ensures
            copy@ == self@,
            copy.buffers() == self.buffers(),
    {
        ComponentData { fields: self.fields.clone() }
    }
}

impl ComponentUpdate {
    /// The entries of the object that holds the new field values.
    pub closed spec fn fields_view(&self) -> Seq<EntryView> {
        self.fields@
    }

    /// The entries of the object that holds the events; each occurrence of an
    /// event is one nested object under the event's field.
    pub closed spec fn events_view(&self) -> Seq<EntryView> {
        self.events@
    }

    /// The fields marked as explicitly unset, in the order they were marked,
    /// each once.
    pub closed spec fn cleared(&self) -> Seq<FieldId> {
        self.cleared@
    }

    /// The raw spans reserved in the object that holds the new field values,
    /// in the order they were reserved. They live as long as the update
    /// does.
    pub closed spec fn fields_buffers(&self) -> Seq<Seq<u8>> {
        self.fields.buffers()
    }

    /// The raw spans reserved in the object that holds the events, in the
    /// order they were reserved. They live as long as the update does.
    pub closed spec fn events_buffers(&self) -> Seq<Seq<u8>> {
        self.events.buffers()
    }

    /// An update with no field values, no events, no cleared fields and no
    /// reserved span.
    pub fn new() -> (update: Self)
        ensures
            update.fields_view() == Seq::<EntryView>::empty(),
            update.events_view() == Seq::<EntryView>::empty(),
            update.cleared() == Seq::<FieldId>::empty(),
            update.fields_buffers() == Seq::<Seq<u8>>::empty(),
            update.events_buffers() == Seq::<Seq<u8>>::empty(),
    {
        ComponentUpdate { fields: Object::new(), events: Object::new(), cleared: Vec::new() }
    }

    /// A view of the object that holds the new field values. What is written
    /// or reserved through it is what the update then holds; the events and
    /// the cleared fields stay as they are.
    pub fn get_fields(&mut self) -> (fields: &mut Object)
        ensures
            fields@ == old(self).fields_view(),
            fields.buffers() == old(self).fields_buffers(),
            final(self).fields_view() == final(fields)@,
            final(self).fields_buffers() == final(fields).buffers(),
            final(self).events_view() == old(self).events_view(),
            final(self).events_buffers() == old(self).events_buffers(),
            final(self).cleared() == old(self).cleared(),
    {
        &mut self.fields
    }

    /// A view of the object that holds the events. What is written or
    /// reserved through it is what the update then holds; the field values
    /// and the cleared fields stay as they are.
    pub fn get_events(&mut self) -> (events: &mut Object)
        ensures
            events@ == old(self).events_view(),
            events.buffers() == old(self).events_buffers(),
            final(self).events_view() == final(events)@,
            final(self).events_buffers() == final(events).buffers(),
            final(self).fields_view() == old(self).fields_view(),
            final(self).fields_buffers() == old(self).fields_buffers(),
            final(self).cleared() == old(self).cleared(),
    {
        &mut self.events
    }

    /// Whether `field_id` is marked as explicitly unset.
    pub fn is_field_cleared(&self, field_id: FieldId) -> (cleared: bool)
        ensures
            cleared == self.cleared().contains(field_id),
    {
        let mut i: usize = 0;
        while i < self.cleared.len()
            invariant
                i <= self.cleared@.len(),
                forall|j: int| 0 <= j < i ==> self.cleared@[j] != field_id,
            decreases self.cleared@.len() - i,
        {
            if self.cleared[i] == field_id {
                return true;
            }
            i = i + 1;
        }
        false
    }

    /// Marks `field_id` as explicitly unset. Marking a field twice is marking
    /// it once.
    pub fn add_cleared_field(&mut self, field_id: FieldId)
        ensures
            final(self).cleared() == if old(self).cleared().contains(field_id) {
                old(self).cleared()
            } else {
                old(self).cleared().push(field_id)
            },
            final(self).fields_view() == old(self).fields_view(),
            final(self).events_view() == old(self).events_view(),
            final(self).fields_buffers() == old(self).fields_buffers(),
            final(self).events_buffers() == old(self).events_buffers(),
    {
        if !self.is_field_cleared(field_id) {
            self.cleared.push(field_id);
        }
    }

    /// How many fields are marked as explicitly unset.
    pub fn get_cleared_field_count(&self) -> (count: usize)
        ensures
            count == self.cleared().len(),
    {
        self.cleared.len()
    }

    /// The cleared field at position `index`, in the order of marking.
    pub fn index_cleared_field(&self, index: usize) -> (field_id: Option<FieldId>)
        ensures
            match field_id {
                Some(id) => index < self.cleared().len() && id == self.cleared()[index as int],
                None => self.cleared().len() <= index,
            },
    {
        if index < self.cleared.len() {
            Some(self.cleared[index])
        } else {
            None
        }
    }

    /// Removes every cleared-field mark.
    pub fn clear_cleared_fields(&mut self)
        ensures
            final(self).cleared() == Seq::<FieldId>::empty(),
            final(self).fields_view() == old(self).fields_view(),
            final(self).events_view() == old(self).events_view(),
            final(self).fields_buffers() == old(self).fields_buffers(),
            final(self).events_buffers() == old(self).events_buffers(),
    {
        self.cleared.clear();
    }
}

impl Clone for ComponentUpdate {
    /// A deep copy in storage of its own, reserved spans included.
    fn clone(&self) -> (copy: Self)
        ensures
            copy.fields_view() == self.fields_view(),
            copy.events_view() == self.events_view(),
            copy.cleared() == self.cleared(),
            copy.fields_buffers() == self.fields_buffers(),
            copy.events_buffers() == self.events_buffers(),
    {
        let mut cleared: Vec<FieldId> = Vec::new();
        let mut i: usize = 0;
        while i < self.cleared.len()
            invariant
                i <= self.cleared@.len(),
                cleared@ == self.cleared@.take(i as int),
            decreases self.cleared@.len() - i,
        {
            cleared.push(self.cleared[i]);
            assert(cleared@ =~= self.cleared@.take(i + 1));
            i = i + 1;
        }
        assert(self.cleared@.take(i as int) =~= self.cleared@);
        ComponentUpdate { fields: self.fields.clone(), events: self.events.clone(), cleared }
    }
}

impl View for CommandRequest {
    type V = Seq<EntryView>;

    closed spec fn view(&self) -> Seq<EntryView> {
        self.object@
    }
}

impl CommandRequest {
    /// The raw spans reserved in the request's object, in the order they were
    /// reserved. They live as long as the request does.
    pub closed spec fn buffers(&self) -> Seq<Seq<u8>> {
        self.object.buffers()
    }

    /// A request whose object has no fields and no reserved span.
    pub fn new() -> (request: Self)
        ensures
            request@ == Seq::<EntryView>::empty(),
            request.buffers() == Seq::<Seq<u8>>::empty(),
    {
        CommandRequest { object: Object::new() }
    }

    /// A view of the request's object. What is written through it, and what
    /// is reserved through it, is what the request then holds.
    pub fn get_object(&mut self) -> (object: &mut Object)
        ensures
            object@ == old(self)@,
            object.buffers() == old(self).buffers(),
            final(self)@ == final(object)@,
            final(self).buffers() == final(object).buffers(),
    {
        &mut self.object
    }

    /// The request's object, for reading.
    pub fn object(&self) -> (object: &Object)
        ensures
            object@ == self@,
            object.buffers() == self.buffers(),
    {
        &self.object
    }
}

impl Clone for CommandRequest {
    /// A deep copy in storage of its own, reserved spans included.
    fn clone(&self) -> (copy: Self)
        ensures
            copy@ == self@,
            copy.buffers() == self.buffers(),
    {
        CommandRequest { object: self.object.clone() }
    }
}

impl View for CommandResponse {
    type V = Seq<EntryView>;

    closed spec fn view(&self) -> Seq<EntryView> {
        self.object@
    }
}

impl CommandResponse {
    /// The raw spans reserved in the response's object, in the order they were
    /// reserved. They live as long as the response does.
    pub closed spec fn buffers(&self) -> Seq<Seq<u8>> {
        self.object.buffers()
    }

    /// A response whose object has no fields and no reserved span.
    pub fn new() -> (response: Self)
        ensures
            response@ == Seq::<EntryView>::empty(),
            response.buffers() == Seq::<Seq<u8>>::empty(),
    {
        CommandResponse { object: Object::new() }
    }

    /// A view of the response's object. What is written through it, and what
    /// is reserved through it, is what the response then holds.
    pub fn get_object(&mut self) -> (object: &mut Object)
        ensures
            object@ == old(self)@,
            object.buffers() == old(self).buffers(),
            final(self)@ == final(object)@,
            final(self).buffers() == final(object).buffers(),
    {
        &mut self.object
    }

    /// The response's object, for reading.
    pub fn object(&self) -> (object: &Object)
        ensures
            object@ == self@,
            object.buffers() == self.buffers(),
    {
        &self.object
    }
}

impl Clone for CommandResponse {
    /// A deep copy in storage of its own, reserved spans included.
    fn clone(&self) -> (copy: Self)
        ensures
            copy@ == self@,
            copy.buffers() == self.buffers(),
    {
        CommandResponse { object: self.object.clone() }
    }
}

} // verus!
