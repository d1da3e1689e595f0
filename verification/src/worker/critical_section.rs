//! Critical sections: the brackets inside a batch that mark operations to be
//! applied as one unit.
//!
//! A batch is cut into atomic units. An operation outside every critical
//! section is a unit by itself. An entering marker opens a unit that runs
//! through the next leaving marker, or to the end of the batch where none
//! follows. A consumer that applies whole units never sees the state between
//! the two markers of a critical section.

use crate::worker::op::{OpList, WorkerOp};
use crate::worker::DecodeError;
use vstd::prelude::*;

verus! {

/// What an entry of a batch means for critical sections.
#[derive(Clone, Copy, Debug, PartialEq, Eq, Structural)]
pub enum Marker {
    /// The entry enters a critical section.
    Enter,
    /// The entry leaves a critical section.
    Leave,
    /// Any other entry.
    Other,
}

/// The marker of one entry of a decoded batch.
pub open spec fn marker_of(entry: Result<WorkerOp, DecodeError>) -> Marker {
    match entry {
        Ok(WorkerOp::CriticalSection(op)) => if op.in_critical_section {
            Marker::Enter
        } else {
            Marker::Leave
        },
        _ => Marker::Other,
    }
}

/// The markers of a decoded batch, entry by entry.
pub open spec fn markers(ops: Seq<Result<WorkerOp, DecodeError>>) -> Seq<Marker> {
    ops.map_values(|entry: Result<WorkerOp, DecodeError>| marker_of(entry))
}

/// Whether a critical section is open just before position `at`: the last
/// marker before it entered one.
pub open spec fn open_before(marks: Seq<Marker>, at: int) -> bool
    decreases at,
{
    if at <= 0 || at > marks.len() {
        false
    } else {
        match marks[at - 1] {
            Marker::Enter => true,
            Marker::Leave => false,
            Marker::Other => open_before(marks, at - 1),
        }
    }
}

/// The position just after the first leaving marker at or after `from`, or
/// the length of the batch where none follows.
pub open spec fn closing(marks: Seq<Marker>, from: int) -> int
    decreases marks.len() - from,
{
    if from < 0 || from >= marks.len() {
        marks.len() as int
    } else if marks[from] == Marker::Leave {
        from + 1
    } else {
        closing(marks, from + 1)
    }
}

/// Where the atomic unit that starts at `start` ends (exclusive).
pub open spec fn unit_end(marks: Seq<Marker>, start: int) -> int {
    if 0 <= start < marks.len() && marks[start] == Marker::Enter {
        closing(marks, start + 1)
    } else {
        start + 1
    }
}

/// The atomic units of the batch from `start` on, each as the positions of
/// its first entry and of the entry after its last.
pub open spec fn units_from(marks: Seq<Marker>, start: int) -> Seq<(int, int)>
    decreases marks.len() - start,
{
    if start < 0 || start >= marks.len() {
        Seq::empty()
    } else {
        let end = unit_end(marks, start);
        if end <= start || end > marks.len() {
            Seq::empty()
        } else {
            seq![(start, end)] + units_from(marks, end)
        }
    }
}

/// The closing position lies after `from` and within the batch.
pub proof fn lemma_closing_bounds(marks: Seq<Marker>, from: int)
    requires
        0 <= from <= marks.len(),
    ensures
        from <= closing(marks, from) <= marks.len(),
        from < marks.len() ==> from < closing(marks, from),
    decreases marks.len() - from,
{
    if from < marks.len() && marks[from] != Marker::Leave {
        lemma_closing_bounds(marks, from + 1);
    }
}

/// No leaving marker stands between `from` and the last position before
/// the closing position.
pub proof fn lemma_closing_scan(marks: Seq<Marker>, from: int, at: int)
    requires
        0 <= from <= at < marks.len(),
        at + 1 < closing(marks, from),
    ensures
        marks[at] != Marker::Leave,
    decreases marks.len() - from,
{
    if marks[from] != Marker::Leave && at > from {
        lemma_closing_scan(marks, from + 1, at);
    }
}

/// A closing position inside the batch stands just after a leaving marker.
pub proof fn lemma_closing_leave(marks: Seq<Marker>, from: int)
    requires
        0 <= from <= marks.len(),
        closing(marks, from) < marks.len(),
    ensures
        from < closing(marks, from),
        marks[closing(marks, from) - 1] == Marker::Leave,
    decreases marks.len() - from,
{
    if from < marks.len() && marks[from] != Marker::Leave {
        lemma_closing_leave(marks, from + 1);
    }
}

/// Every position after an entering marker and before its closing position
/// lies inside the critical section.
pub proof fn lemma_open_inside(marks: Seq<Marker>, start: int, at: int)
    requires
        0 <= start < marks.len(),
        marks[start] == Marker::Enter,
        start < at < closing(marks, start + 1),
    ensures
        open_before(marks, at),
    decreases at,
{
    lemma_closing_bounds(marks, start + 1);
    if at > start + 1 {
        lemma_closing_scan(marks, start + 1, at - 1);
        lemma_open_inside(marks, start, at - 1);
    }
}

/// Atomicity: every position strictly inside a unit lies inside the
/// critical section that the unit's first entry opened. So the cuts between
/// units never fall between the two markers of a critical section.
pub proof fn law_unit_is_atomic(marks: Seq<Marker>, start: int, at: int)
    requires
        0 <= start < marks.len(),
        start < at < unit_end(marks, start),
    ensures
        marks[start] == Marker::Enter,
        open_before(marks, at),
{
    lemma_open_inside(marks, start, at);
}

/// A unit ends within the batch, after its start, and where it ends before
/// the end of the batch no critical section is open: either it was a single
/// entry that opened none, or its last entry is the leaving marker. The
/// exception is a single entry inside a section that an earlier unit left
/// open, which cannot happen after a unit that ended as this law says.
pub proof fn law_unit_ends_outside(marks: Seq<Marker>, start: int)
    requires
        0 <= start < marks.len(),
        !open_before(marks, start),
    ensures
        start < unit_end(marks, start) <= marks.len(),
        unit_end(marks, start) < marks.len() ==> !open_before(marks, unit_end(marks, start)),
{
    if marks[start] == Marker::Enter {
        lemma_closing_bounds(marks, start + 1);
        if closing(marks, start + 1) < marks.len() {
            lemma_closing_leave(marks, start + 1);
        }
    }
}

/// The units cover the batch: they follow one another without gap or
/// overlap, from `start` to the end of the batch.
pub proof fn law_units_partition(marks: Seq<Marker>, start: int)
    requires
        0 <= start <= marks.len(),
    ensures
        forall|i: int|
            0 <= i < units_from(marks, start).len() ==> (#[trigger] units_from(marks, start)[i]).0
                < units_from(marks, start)[i].1 <= marks.len(),
        units_from(marks, start).len() > 0 ==> units_from(marks, start)[0].0 == start
            && units_from(marks, start).last().1 == marks.len(),
        forall|i: int|
            0 <= i < units_from(marks, start).len() - 1 ==> (#[trigger] units_from(
                marks,
                start,
            )[i]).1 == units_from(marks, start)[i + 1].0,
        start < marks.len() ==> units_from(marks, start).len() > 0,
    decreases marks.len() - start,
{
    if start < marks.len() {
        let end = unit_end(marks, start);
        if marks[start] == Marker::Enter {
            lemma_closing_bounds(marks, start + 1);
        }
        law_units_partition(marks, end);
        let rest = units_from(marks, end);
        let all = units_from(marks, start);
        assert(all =~= seq![(start, end)] + rest);
        assert forall|i: int| 0 <= i < all.len() - 1 implies (#[trigger] all[i]).1 == all[i
            + 1].0 by {
            if i > 0 {
                assert(all[i] == rest[i - 1]);
                assert(all[i + 1] == rest[i]);
            } else {
                assert(all[1] == rest[0]);
            }
        }
        assert forall|i: int| 0 <= i < all.len() implies (#[trigger] all[i]).0 < all[i].1
            <= marks.len() by {
            if i > 0 {
                assert(all[i] == rest[i - 1]);
            }
        }
        if rest.len() > 0 {
            assert(all.last() == rest.last());
        }
    }
}

impl OpList {
    /// The marker of the entry at `index`.
    fn marker(&self, index: usize) -> (marker: Marker)
        requires
            index < self.ops@.len(),
        ensures
            marker == markers(self.ops@)[index as int],
    {
        match &self.ops[index] {
            Ok(WorkerOp::CriticalSection(op)) => if op.in_critical_section {
                Marker::Enter
            } else {
                Marker::Leave
            },
            _ => Marker::Other,
        }
    }

    /// Where the atomic unit that starts at `start` ends (exclusive). A
    /// position past the batch gives the length of the batch.
    pub fn unit_end(&self, start: usize) -> (end: usize)
        ensures
            start < self.ops@.len() ==> end == unit_end(markers(self.ops@), start as int),
            start >= self.ops@.len() ==> end == self.ops@.len(),
    {
        let len = self.ops.len();
        if start >= len {
            return len;
        }
        match self.marker(start) {
            Marker::Enter => {},
            _ => {
                return start + 1;
            },
        }
        let ghost marks = markers(self.ops@);
        let mut at: usize = start + 1;
        while at < len
            invariant
                start < at <= len,
                len == self.ops@.len(),
                marks == markers(self.ops@),
                marks[start as int] == Marker::Enter,
                closing(marks, at as int) == closing(marks, start + 1),
            decreases len - at,
        {
            match self.marker(at) {
                Marker::Leave => {
                    assert(closing(marks, at as int) == at + 1);
                    return at + 1;
                },
                _ => {
                    assert(closing(marks, at as int) == closing(marks, at + 1));
                },
            }
            at = at + 1;
        }
        assert(closing(marks, at as int) == len);
        len
    }

    /// The atomic units of the batch, in order, each as the positions of its
    /// first entry and of the entry after its last.
    pub fn atomic_units(&self) -> (units: Vec<(usize, usize)>)
        ensures
            units@.len() == units_from(markers(self.ops@), 0).len(),
            forall|i: int|
                0 <= i < units@.len() ==> (#[trigger] units@[i]).0 == units_from(
                    markers(self.ops@),
                    0,
                )[i].0 && units@[i].1 == units_from(markers(self.ops@), 0)[i].1,
    {
        let ghost marks = markers(self.ops@);
        let len = self.ops.len();
        let mut units: Vec<(usize, usize)> = Vec::new();
        let mut start: usize = 0;
        let ghost mut done: Seq<(int, int)> = Seq::empty();
        assert(done + units_from(marks, 0) =~= units_from(marks, 0));
        while start < len
            invariant
                start <= len,
                len == self.ops@.len(),
                marks == markers(self.ops@),
                units@.len() == done.len(),
                forall|i: int|
                    0 <= i < units@.len() ==> (#[trigger] units@[i]).0 == done[i].0 && units@[i].1
                        == done[i].1,
                done + units_from(marks, start as int) == units_from(marks, 0),
            decreases len - start,
        {
            let end = self.unit_end(start);
            proof {
                if marks[start as int] == Marker::Enter {
                    lemma_closing_bounds(marks, start + 1);
                }
                assert(done.push((start as int, end as int)) + units_from(marks, end as int)
                    =~= done + units_from(marks, start as int));
                done = done.push((start as int, end as int));
            }
            units.push((start, end));
            start = end;
        }
        assert(done + units_from(marks, start as int) =~= done);
        units
    }
}

} // verus!
