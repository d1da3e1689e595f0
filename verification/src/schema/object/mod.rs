//! The schema object: a mutable, field-indexed container of type-erased
//! values, the in-memory form of every component and command payload.
//!
//! A field is named by its id and holds any number of values, in the order
//! they were added. Adding never replaces. A list read gives all values, an
//! indexed read one of them, and a single-value read the value added last,
//! or the kind's zero where the field holds none.
//!
//! Values carry no type tag beyond their wire class. A read through the
//! accessor of another kind is not an error: it reinterprets what is
//! stored, as callers with a compiled schema expect. This keeps
//! compatibility at the price of safety; a caller that needs the check has
//! to know the kind of each field.
//!
//! Nested objects are owned by their parent. A view of a nested object is a
//! mutable borrow of the parent: what is written through it is written into
//! the parent, and it cannot outlive the parent.

mod add;
mod add_list;
mod count;
mod get;
mod get_list;
mod index;
pub mod kind;
pub mod laws;
pub mod model;
pub mod text;

use crate::schema::object::model::{
    bits_of, byte_values, in_slot, lemma_slot_at, lemma_slot_push, lemma_with_nth_is_update,
    scalar_value, slot, with_nth, without_field, EntryView, ValueView, Wire,
};
use crate::schema::FieldId;
use vstd::prelude::*;
use vstd::slice::slice_to_vec;

verus! {

/// Why a read of a schema object failed.
#[derive(Clone, Copy, Debug, PartialEq, Eq, Structural)]
pub enum SchemaError {
    /// The index is not below the number of values stored under the field.
    IndexOutOfRange,
    /// The bytes read as a string are not valid UTF-8.
    Encoding,
}

/// A handle to a raw span reserved inside an object. It stays valid for as
/// long as the object lives.
#[derive(Clone, Copy, Debug, PartialEq, Eq, Structural)]
pub struct AllocatedBuffer {
    pub inner: usize,
}

enum Value {
    Varint(u64),
    Fixed32(u32),
    Fixed64(u64),
    Bytes(Vec<u8>),
    Object(Object),
}

struct Entry {
    field_id: FieldId,
    value: Value,
}

/// A schema object. It owns its entries, the nested objects among them, and
/// the raw spans reserved in it.
pub struct Object {
    entries: Vec<Entry>,
    detached: Vec<Object>,
    buffers: Vec<Vec<u8>>,
}

impl View for Value {
    type V = ValueView;

    closed spec fn view(&self) -> ValueView
        decreases self,
    {
        match self {
            Value::Varint(w) => ValueView::Varint(*w),
            Value::Fixed32(w) => ValueView::Fixed32(*w),
            Value::Fixed64(w) => ValueView::Fixed64(*w),
            Value::Bytes(b) => ValueView::Bytes(b@),
            Value::Object(o) => ValueView::Object(o.view()),
        }
    }
}

impl View for Entry {
    type V = EntryView;

    closed spec fn view(&self) -> EntryView
        decreases self,
    {
        EntryView { field_id: self.field_id, value: self.value.view() }
    }
}

spec fn entries_view(entries: Seq<Entry>) -> Seq<EntryView>
    decreases entries,
{
    Seq::new(
        entries.len(),
        |i: int|
            if 0 <= i < entries.len() {
                entries[i].view()
            } else {
                arbitrary()
            },
    )
}

impl View for Object {
    type V = Seq<EntryView>;

    /// The entries of the object, in insertion order.
    closed spec fn view(&self) -> Seq<EntryView>
        decreases self,
    {
        entries_view(self.entries@)
    }
}

impl Value {
    fn wire(&self) -> (w: Wire)
        ensures
            w == self@.wire(),
    {
        match self {
            Value::Varint(_) => Wire::Varint,
            Value::Fixed32(_) => Wire::Fixed32,
            Value::Fixed64(_) => Wire::Fixed64,
            Value::Bytes(_) => Wire::Bytes,
            Value::Object(_) => Wire::Object,
        }
    }
}

impl Entry {
    fn is_in(&self, field_id: FieldId, wire: Wire) -> (b: bool)
        ensures
            b == in_slot(self@, field_id, wire),
    {
        self.field_id == field_id && self.value.wire() == wire
    }
}

impl Object {
    /// The raw spans reserved in the object, in the order they were reserved.
    pub closed spec fn buffers(&self) -> Seq<Seq<u8>> {
        Seq::new(self.buffers@.len(), |i: int| self.buffers@[i]@)
    }

    /// An empty object: no entries, no reserved spans.
    pub fn new() -> (r: Self)
        ensures
            r@ == Seq::<EntryView>::empty(),
            r.buffers() == Seq::<Seq<u8>>::empty(),
    {
        let r = Object { entries: Vec::new(), detached: Vec::new(), buffers: Vec::new() };
        assert(r@ =~= Seq::<EntryView>::empty());
        assert(r.buffers() =~= Seq::<Seq<u8>>::empty());
        r
    }

    fn put(&mut self, field_id: FieldId, value: Value)
        ensures
            final(self)@ == old(self)@.push(EntryView { field_id, value: value@ }),
            final(self).buffers() == old(self).buffers(),
    {
        self.entries.push(Entry { field_id, value });
        assert(self@ =~= old(self)@.push(EntryView { field_id, value: value@ }));
    }

    /// Appends the word `bits` to the slot (`field_id`, `wire`).
    pub(crate) fn put_scalar(&mut self, field_id: FieldId, wire: Wire, bits: u64)
        ensures
            final(self)@ == old(self)@.push(
                EntryView { field_id, value: scalar_value(wire, bits) },
            ),
            final(self).buffers() == old(self).buffers(),
    {
        let value = match wire {
            Wire::Fixed32 => Value::Fixed32((bits % 0x1_0000_0000) as u32),
            Wire::Fixed64 => Value::Fixed64(bits),
            _ => Value::Varint(bits),
        };
        self.put(field_id, value);
    }

    /// Appends a copy of `data` to the byte spans stored under `field_id`.
    pub(crate) fn put_bytes(&mut self, field_id: FieldId, data: &[u8])
        ensures
            final(self)@ == old(self)@.push(
                EntryView { field_id, value: ValueView::Bytes(data@) },
            ),
            final(self).buffers() == old(self).buffers(),
    {
        self.put(field_id, Value::Bytes(slice_to_vec(data)));
    }

    /// The number of values in the slot (`field_id`, `wire`).
    pub(crate) fn slot_len(&self, field_id: FieldId, wire: Wire) -> (n: usize)
        ensures
            n == slot(self@, field_id, wire).len(),
    {
        let mut n: usize = 0;
        let mut i: usize = 0;
        while i < self.entries.len()
            invariant
                i <= self.entries@.len(),
                n <= i,
                n == slot(self@.take(i as int), field_id, wire).len(),
            decreases self.entries@.len() - i,
        {
            proof {
                assert(self@.take(i + 1) =~= self@.take(i as int).push(self@[i as int]));
                lemma_slot_push(self@.take(i as int), self@[i as int], field_id, wire);
            }
            if self.entries[i].is_in(field_id, wire) {
                n = n + 1;
            }
            i = i + 1;
        }
        assert(self@.take(i as int) =~= self@);
        n
    }

    /// The position of the `n`-th value of the slot (`field_id`, `wire`).
    fn locate(&self, field_id: FieldId, wire: Wire, n: usize) -> (r: Option<usize>)
        ensures
            match r {
                Some(p) => {
                    &&& p < self@.len()
                    &&& in_slot(self@[p as int], field_id, wire)
                    &&& slot(self@.take(p as int), field_id, wire).len() == n
                    &&& n < slot(self@, field_id, wire).len()
                    &&& slot(self@, field_id, wire)[n as int] == self@[p as int].value
                },
                None => slot(self@, field_id, wire).len() <= n,
            },
    {
        let mut seen: usize = 0;
        let mut i: usize = 0;
        while i < self.entries.len()
            invariant
                i <= self.entries@.len(),
                seen <= i,
                seen <= n,
                seen == slot(self@.take(i as int), field_id, wire).len(),
            decreases self.entries@.len() - i,
        {
            proof {
                assert(self@.take(i + 1) =~= self@.take(i as int).push(self@[i as int]));
                lemma_slot_push(self@.take(i as int), self@[i as int], field_id, wire);
            }
            if self.entries[i].is_in(field_id, wire) {
                if seen == n {
                    proof {
                        lemma_slot_at(self@, field_id, wire, i as int);
                    }
                    return Some(i);
                }
                seen = seen + 1;
            }
            i = i + 1;
        }
        assert(self@.take(i as int) =~= self@);
        None
    }

    /// The word of the `n`-th value of the slot (`field_id`, `wire`).
    pub(crate) fn scalar_at(&self, field_id: FieldId, wire: Wire, n: usize) -> (r: Option<u64>)
        ensures
            match r {
                Some(bits) => n < slot(self@, field_id, wire).len() && bits == slot(
                    self@,
                    field_id,
                    wire,
                )[n as int].bits(),
                None => slot(self@, field_id, wire).len() <= n,
            },
    {
        match self.locate(field_id, wire, n) {
            Some(p) => {
                let bits = match &self.entries[p].value {
                    Value::Varint(w) => *w,
                    Value::Fixed32(w) => *w as u64,
                    Value::Fixed64(w) => *w,
                    _ => 0,
                };
                Some(bits)
            },
            None => None,
        }
    }

    /// The word of the last value of the slot (`field_id`, `wire`).
    pub(crate) fn scalar_latest(&self, field_id: FieldId, wire: Wire) -> (r: Option<u64>)
        ensures
            match r {
                Some(bits) => slot(self@, field_id, wire).len() > 0 && bits == slot(
                    self@,
                    field_id,
                    wire,
                ).last().bits(),
                None => slot(self@, field_id, wire).len() == 0,
            },
    {
        let n = self.slot_len(field_id, wire);
        if n == 0 {
            None
        } else {
            self.scalar_at(field_id, wire, n - 1)
        }
    }

    /// The words of the slot (`field_id`, `wire`), in insertion order.
    pub(crate) fn scalars(&self, field_id: FieldId, wire: Wire) -> (r: Vec<u64>)
        ensures
            r@ == bits_of(slot(self@, field_id, wire)),
    {
        let mut out: Vec<u64> = Vec::new();
        let mut i: usize = 0;
        assert(out@ =~= bits_of(slot(self@.take(0), field_id, wire)));
        while i < self.entries.len()
            invariant
                i <= self.entries@.len(),
                out@ == bits_of(slot(self@.take(i as int), field_id, wire)),
            decreases self.entries@.len() - i,
        {
            proof {
                assert(self@.take(i + 1) =~= self@.take(i as int).push(self@[i as int]));
                lemma_slot_push(self@.take(i as int), self@[i as int], field_id, wire);
            }
            if self.entries[i].is_in(field_id, wire) {
                let bits = match &self.entries[i].value {
                    Value::Varint(w) => *w,
                    Value::Fixed32(w) => *w as u64,
                    Value::Fixed64(w) => *w,
                    _ => 0,
                };
                out.push(bits);
                assert(out@ =~= bits_of(slot(self@.take(i + 1), field_id, wire)));
            }
            i = i + 1;
        }
        assert(self@.take(i as int) =~= self@);
        out
    }

    /// A copy of the `n`-th byte span stored under `field_id`.
    pub(crate) fn bytes_at(&self, field_id: FieldId, n: usize) -> (r: Option<Vec<u8>>)
        ensures
            match r {
                Some(data) => n < slot(self@, field_id, Wire::Bytes).len() && data@ == slot(
                    self@,
                    field_id,
                    Wire::Bytes,
                )[n as int].bytes(),
                None => slot(self@, field_id, Wire::Bytes).len() <= n,
            },
    {
        match self.locate(field_id, Wire::Bytes, n) {
            Some(p) => {
                match &self.entries[p].value {
                    Value::Bytes(data) => Some(slice_to_vec(data.as_slice())),
                    _ => Some(Vec::new()),
                }
            },
            None => None,
        }
    }

    /// Copies of the byte spans stored under `field_id`, in insertion order.
    pub(crate) fn byte_spans(&self, field_id: FieldId) -> (r: Vec<Vec<u8>>)
        ensures
            r@.len() == byte_values(self@, field_id).len(),
            forall|j: int| 0 <= j < r@.len() ==> r@[j]@ == byte_values(self@, field_id)[j],
    {
        let mut out: Vec<Vec<u8>> = Vec::new();
        let mut i: usize = 0;
        while i < self.entries.len()
            invariant
                i <= self.entries@.len(),
                out@.len() == byte_values(self@.take(i as int), field_id).len(),
                forall|j: int|
                    0 <= j < out@.len() ==> out@[j]@ == byte_values(
                        self@.take(i as int),
                        field_id,
                    )[j],
            decreases self.entries@.len() - i,
        {
            proof {
                assert(self@.take(i + 1) =~= self@.take(i as int).push(self@[i as int]));
                lemma_slot_push(self@.take(i as int), self@[i as int], field_id, Wire::Bytes);
            }
            if self.entries[i].is_in(field_id, Wire::Bytes) {
                assert(byte_values(self@.take(i + 1), field_id) =~= byte_values(
                    self@.take(i as int),
                    field_id,
                ).push(self@[i as int].value.bytes()));
                match &self.entries[i].value {
                    Value::Bytes(data) => out.push(slice_to_vec(data.as_slice())),
                    _ => out.push(Vec::new()),
                }
            }
            i = i + 1;
        }
        assert(self@.take(i as int) =~= self@);
        out
    }

    /// The length of the `n`-th byte span stored under `field_id`.
    pub(crate) fn bytes_len_at(&self, field_id: FieldId, n: usize) -> (r: Option<usize>)
        ensures
            match r {
                Some(len) => n < slot(self@, field_id, Wire::Bytes).len() && len == slot(
                    self@,
                    field_id,
                    Wire::Bytes,
                )[n as int].bytes().len(),
                None => slot(self@, field_id, Wire::Bytes).len() <= n,
            },
    {
        match self.locate(field_id, Wire::Bytes, n) {
            Some(p) => {
                match &self.entries[p].value {
                    Value::Bytes(data) => Some(data.len()),
                    _ => Some(0),
                }
            },
            None => None,
        }
    }

    /// Appends an empty nested object under `field_id` and returns a view of
    /// it. What is written through the view lands in this object.
    pub(crate) fn put_object(&mut self, field_id: FieldId) -> (child: &mut Object)
        ensures
            child@ == Seq::<EntryView>::empty(),
            final(self)@ == old(self)@.push(
                EntryView { field_id, value: ValueView::Object(final(child)@) },
            ),
            final(self).buffers() == old(self).buffers(),
    {
        let n = self.entries.len();
        self.entries.push(Entry { field_id, value: Value::Object(Object::new()) });
        let entry = &mut self.entries[n];
        match &mut entry.value {
            Value::Object(child) => child,
            _ => unreached(),
        }
    }

    /// A view of the `n`-th nested object stored under `field_id`. What is
    /// written through the view lands in this object.
    pub(crate) fn object_at(&mut self, field_id: FieldId, n: usize) -> (r: Option<&mut Object>)
        ensures
            match r {
                Some(child) => {
                    &&& n < slot(old(self)@, field_id, Wire::Object).len()
                    &&& child@ == slot(old(self)@, field_id, Wire::Object)[n as int].object()
                    &&& final(self)@ == with_nth(
                        old(self)@,
                        field_id,
                        Wire::Object,
                        n as int,
                        ValueView::Object(final(child)@),
                    )
                    &&& final(self).buffers() == old(self).buffers()
                },
                None => {
                    &&& slot(old(self)@, field_id, Wire::Object).len() <= n
                    &&& final(self)@ == old(self)@
                    &&& final(self).buffers() == old(self).buffers()
                },
            },
    {
        match self.locate(field_id, Wire::Object, n) {
            Some(p) => {
                proof {
                    assert forall|value: ValueView|
                        #[trigger] with_nth(self@, field_id, Wire::Object, n as int, value)
                            == self@.update(p as int, EntryView { field_id, value }) by {
                        lemma_with_nth_is_update(self@, field_id, Wire::Object, p as int, value);
                    }
                }
                let entry = &mut self.entries[p];
                match &mut entry.value {
                    Value::Object(child) => Some(child),
                    _ => unreached(),
                }
            },
            None => None,
        }
    }

    /// A view of a fresh empty object that belongs to no field. What is
    /// written through it never shows in this object's fields.
    pub(crate) fn detached_object(&mut self) -> (child: &mut Object)
        ensures
            child@ == Seq::<EntryView>::empty(),
            final(self)@ == old(self)@,
            final(self).buffers() == old(self).buffers(),
    {
        self.detached.clear();
        self.detached.push(Object::new());
        &mut self.detached[0]
    }

    /// Removes every entry. The reserved spans stay: they live as long as the
    /// object does.
    pub fn clear(&mut self)
        ensures
            final(self)@ == Seq::<EntryView>::empty(),
            final(self).buffers() == old(self).buffers(),
    {
        self.entries.clear();
        self.detached.clear();
        assert(self@ =~= Seq::<EntryView>::empty());
    }

    /// Removes every entry stored under `field_id`, of whatever wire class,
    /// and keeps the others in their order.
    pub fn clear_field(&mut self, field_id: FieldId)
        ensures
            final(self)@ == without_field(old(self)@, field_id),
            final(self).buffers() == old(self).buffers(),
    {
        let ghost before = self.entries@;
        let mut stack: Vec<Entry> = Vec::new();
        while self.entries.len() > 0
            invariant
                self.entries@.len() + stack@.len() == before.len(),
                self.entries@ == before.take(self.entries@.len() as int),
                forall|i: int|
                    0 <= i < stack@.len() ==> stack@[i] == before[before.len() - 1 - i],
                self.buffers() == old(self).buffers(),
            decreases self.entries@.len(),
        {
            let ghost len = self.entries@.len();
            match self.entries.pop() {
                Some(entry) => {
                    stack.push(entry);
                    assert(self.entries@ =~= before.take(len - 1));
                },
                None => {},
            }
        }
        assert(self@ =~= without_field(old(self)@.take(0), field_id));
        while stack.len() > 0
            invariant
                stack@.len() <= before.len(),
                forall|i: int|
                    0 <= i < stack@.len() ==> stack@[i] == before[before.len() - 1 - i],
                self@ == without_field(
                    old(self)@.take(before.len() - stack@.len()),
                    field_id,
                ),
                old(self)@ == entries_view(before),
                self.buffers() == old(self).buffers(),
            decreases stack@.len(),
        {
            let ghost done = before.len() - stack@.len();
            let ghost kept = self@;
            match stack.pop() {
                Some(entry) => {
                    assert(entry == before[done]);
                    assert(old(self)@.take(done + 1).drop_last() =~= old(self)@.take(done));
                    if entry.field_id != field_id {
                        self.entries.push(entry);
                        assert(self@ =~= kept.push(entry@));
                    }
                },
                None => {},
            }
        }
        assert(old(self)@.take(before.len() as int) =~= old(self)@);
    }

    /// Reserves a span of `data.len()` bytes inside the object and copies
    /// `data` into it.
    pub fn allocate_buffer(&mut self, data: &[u8]) -> (buffer: AllocatedBuffer)
        ensures
            buffer.inner == old(self).buffers().len(),
            final(self).buffers() == old(self).buffers().push(data@),
            final(self)@ == old(self)@,
    {
        let inner = self.buffers.len();
        self.buffers.push(slice_to_vec(data));
        assert(self.buffers() =~= old(self).buffers().push(data@));
        AllocatedBuffer { inner }
    }

    /// A copy of the span that `buffer` names, if this object reserved it.
    pub fn get_buffer(&self, buffer: &AllocatedBuffer) -> (r: Option<Vec<u8>>)
        ensures
            match r {
                Some(data) => buffer.inner < self.buffers().len() && data@
                    == self.buffers()[buffer.inner as int],
                None => self.buffers().len() <= buffer.inner,
            },
    {
        if buffer.inner < self.buffers.len() {
            Some(slice_to_vec(self.buffers[buffer.inner].as_slice()))
        } else {
            None
        }
    }
}

impl Clone for Object {
    /// A deep copy: the same entries, nested objects included, and the same
    /// reserved spans, in storage of its own.
    fn clone(&self) -> (r: Self)
        ensures
            r@ == self@,
            r.buffers() == self.buffers(),
        decreases self,
    {
        let mut entries: Vec<Entry> = Vec::new();
        let mut i: usize = 0;
        while i < self.entries.len()
            invariant
                i <= self.entries@.len(),
                entries@.len() == i,
                forall|j: int| 0 <= j < i ==> entries@[j]@ == self.entries@[j]@,
            decreases self.entries@.len() - i,
        {
            let entry = &self.entries[i];
            let value = match &entry.value {
                Value::Varint(w) => Value::Varint(*w),
                Value::Fixed32(w) => Value::Fixed32(*w),
                Value::Fixed64(w) => Value::Fixed64(*w),
                Value::Bytes(data) => Value::Bytes(slice_to_vec(data.as_slice())),
                Value::Object(child) => Value::Object(child.clone()),
            };
            entries.push(Entry { field_id: entry.field_id, value });
            i = i + 1;
        }
        let mut buffers: Vec<Vec<u8>> = Vec::new();
        let mut k: usize = 0;
        while k < self.buffers.len()
            invariant
                k <= self.buffers@.len(),
                buffers@.len() == k,
                forall|j: int| 0 <= j < k ==> buffers@[j]@ == self.buffers@[j]@,
            decreases self.buffers@.len() - k,
        {
            buffers.push(slice_to_vec(self.buffers[k].as_slice()));
            k = k + 1;
        }
        let r = Object { entries, detached: Vec::new(), buffers };
        assert(r@ =~= self@);
        assert(r.buffers() =~= self.buffers());
        r
    }
}

} // verus!
