use vstd::prelude::*;

use std::collections::VecDeque;

pub use crate::geometry::{Axis, SideRotation};
use crate::geometry::unit;
use crate::puzzle::{slice_turn, MoveError, Puzzle};

verus! {

/// A request to turn one slice: the slice is the set of cubies whose
/// coordinate along `side.0` equals `side.1`.
#[derive(Debug, Clone, Copy)]
pub struct SideMoveEvent {
    pub side: (Axis, i32),
    pub rotate: SideRotation,
}

impl SideMoveEvent {
    pub fn new(axis: Axis, coordinate: i32, rotate: SideRotation) -> (r: SideMoveEvent)
        ensures
            r == (SideMoveEvent { side: (axis, coordinate), rotate }),
    {
        SideMoveEvent { side: (axis, coordinate), rotate }
    }
}

/// Moves waiting to be applied, oldest first.
#[derive(Debug)]
pub struct SideMoveQueue(pub VecDeque<SideMoveEvent>);

impl SideMoveQueue {
    pub fn new() -> (r: SideMoveQueue)
        ensures
            r.0@ == Seq::<SideMoveEvent>::empty(),
    {
        SideMoveQueue(VecDeque::new())
    }

    pub fn len(&self) -> (r: usize)
        ensures
            r == self.0@.len(),
    {
        self.0.len()
    }

    pub fn is_empty(&self) -> (r: bool)
        ensures
            r == (self.0@.len() == 0),
    {
        self.0.len() == 0
    }

    /// Appends `event` behind every pending move.
    pub fn enqueue(&mut self, event: SideMoveEvent)
        ensures
            final(self).0@ == old(self).0@.push(event),
    {
        self.0.push_back(event);
    }

    /// Removes and returns the oldest pending move; `None` when nothing is
    /// pending.
    pub fn dequeue(&mut self) -> (r: Option<SideMoveEvent>)
        ensures
            old(self).0@.len() == 0 ==> r is None && final(self).0@ == old(self).0@,
            old(self).0@.len() > 0 ==> r == Some(old(self).0@[0]) && final(self).0@
                == old(self).0@.drop_first(),
    {
        let r = self.0.pop_front();
        proof {
            if old(self).0@.len() > 0 {
                assert(old(self).0@.subrange(1, old(self).0@.len() as int)
                    =~= old(self).0@.drop_first());
            }
        }
        r
    }

    /// One processing step: takes the oldest pending move and applies it to
    /// `puzzle`. `Ok(None)` when nothing was pending, `Ok(Some(event))` once
    /// `event` has been applied whole, and the invariant violation when its
    /// coordinate lies outside {-1, 0, 1}, in which case the puzzle is
    /// untouched and the move is dropped.
    pub fn process_next(&mut self, puzzle: &mut Puzzle) -> (r: Result<
        Option<SideMoveEvent>,
        MoveError,
    >)
        requires
            old(puzzle).wf(),
        ensures
            final(puzzle).wf(),
            old(self).0@.len() == 0 ==> r == Ok::<Option<SideMoveEvent>, MoveError>(None),
            old(self).0@.len() == 0 ==> final(self).0@ == old(self).0@,
            old(self).0@.len() == 0 ==> *final(puzzle) == *old(puzzle),
            old(self).0@.len() > 0 ==> final(self).0@ == old(self).0@.drop_first(),
            ({
                let ev = old(self).0@[0];
                old(self).0@.len() > 0 && unit(ev.side.1 as int) ==> r == Ok::<
                    Option<SideMoveEvent>,
                    MoveError,
                >(Some(ev)) && final(puzzle).cubies@ == slice_turn(old(puzzle).cubies@, ev)
            }),
            ({
                let ev = old(self).0@[0];
                old(self).0@.len() > 0 && !unit(ev.side.1 as int) ==> r == Err::<
                    Option<SideMoveEvent>,
                    MoveError,
                >(MoveError::InvariantViolation) && *final(puzzle) == *old(puzzle)
            }),
    {
        match self.dequeue() {
            None => Ok(None),
            Some(event) => match puzzle.apply(event) {
                Ok(()) => Ok(Some(event)),
                Err(e) => Err(e),
            },
        }
    }
}

/// A point in world space, in thousandths of a scene unit.
#[derive(Debug, Clone, Copy, PartialEq, Eq, Structural)]
pub struct WorldPoint {
    pub x: i64,
    pub y: i64,
    pub z: i64,
}

/// The state of a pointer gesture: idle, with both fields empty, or
/// dragging, with the point where it began and the index of the touched
/// cubie.
#[derive(Debug, Clone, Copy, PartialEq, Eq, Structural)]
pub struct MouseDraggingRecorder {
    pub start_pos: Option<WorldPoint>,
    pub piece: Option<usize>,
}

impl MouseDraggingRecorder {
    /// Both fields are set, or neither.
    pub open spec fn wf(self) -> bool {
        self.start_pos.is_some() == self.piece.is_some()
    }

    pub open spec fn is_idle_spec(self) -> bool {
        self.start_pos is None && self.piece is None
    }

    /// A recorder in the idle state.
    pub fn new() -> (r: MouseDraggingRecorder)
        ensures
            r.is_idle_spec(),
            r.wf(),
    {
        MouseDraggingRecorder { start_pos: None, piece: None }
    }

    pub fn is_idle(&self) -> (r: bool)
        ensures
            r == self.is_idle_spec(),
    {
        self.start_pos.is_none() && self.piece.is_none()
    }

    /// A gesture began at `start` on cubie `piece`: both fields are set.
    pub fn begin(&mut self, start: WorldPoint, piece: usize)
        ensures
            final(self).start_pos == Some(start),
            final(self).piece == Some(piece),
            final(self).wf(),
    {
        self.start_pos = Some(start);
        self.piece = Some(piece);
    }

    /// Back to idle: both fields are emptied.
    pub fn clear(&mut self)
        ensures
            final(self).start_pos is None,
            final(self).piece is None,
            final(self).wf(),
    {
        self.start_pos = None;
        self.piece = None;
    }
}

} // verus!
