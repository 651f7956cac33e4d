use vstd::prelude::*;

use crate::cube::{lemma_axis_unit_in_lattice, lemma_turn_keeps_frame, Cube, MAX_CUBE_SIZE};
use crate::geometry::{
    lemma_turn_cycles, lemma_turn_in_lattice, lemma_turn_injective, lemma_turn_inverse, turn_spec,
    unit, Axis, Pos, SideRotation,
};
use crate::census::lemma_slice_size;
use crate::slide::SideMoveEvent;

verus! {

/// Why a move could not be applied.
#[derive(Debug, Clone, Copy, PartialEq, Eq, Structural)]
pub enum MoveError {
    /// The slice did not hold exactly nine cubies.
    InvariantViolation,
}

/// Number of cubies in a whole puzzle.
pub const CUBIE_COUNT: usize = 27;

/// Number of cubies in one slice.
pub const SLICE_SIZE: usize = 9;

/// The lattice invariant: 27 well-formed cubies on pairwise distinct points
/// of {-1, 0, 1}³.
pub open spec fn lattice(s: Seq<Cube>) -> bool {
    &&& s.len() == CUBIE_COUNT
    &&& forall|i: int| 0 <= i < s.len() ==> #[trigger] s[i].wf()
    &&& forall|i: int, j: int|
        0 <= i < s.len() && 0 <= j < s.len() && i != j ==> #[trigger] s[i].current_pos
            != #[trigger] s[j].current_pos
}

/// The cubie lies in the slice that `ev` turns.
pub open spec fn in_slice(c: Cube, ev: SideMoveEvent) -> bool {
    c.current_pos.coord(ev.side.0) == ev.side.1 as int
}

pub open spec fn moved(c: Cube, ev: SideMoveEvent) -> Cube {
    if in_slice(c, ev) {
        c.turned(ev.side.0, ev.rotate)
    } else {
        c
    }
}

/// The cubies after the slice of `ev` has been turned; all others stay.
pub open spec fn slice_turn(s: Seq<Cube>, ev: SideMoveEvent) -> Seq<Cube> {
    Seq::new(s.len(), |i: int| moved(s[i], ev))
}

/// The cubies after each move of `evs`, in order.
pub open spec fn apply_moves(s: Seq<Cube>, evs: Seq<SideMoveEvent>) -> Seq<Cube>
    decreases evs.len(),
{
    if evs.len() == 0 {
        s
    } else {
        apply_moves(slice_turn(s, evs[0]), evs.drop_first())
    }
}

/// How many cubies lie in the slice of `ev`.
pub open spec fn slice_count(s: Seq<Cube>, ev: SideMoveEvent) -> nat
    decreases s.len(),
{
    if s.len() == 0 {
        0
    } else {
        slice_count(s.drop_last(), ev) + if in_slice(s.last(), ev) {
            1nat
        } else {
            0nat
        }
    }
}

/// One turned cubie stays well formed.
proof fn lemma_moved_wf(c: Cube, ev: SideMoveEvent)
    requires
        c.wf(),
    ensures
        moved(c, ev).wf(),
        moved(c, ev).current_pos.coord(ev.side.0) == c.current_pos.coord(ev.side.0),
{
    lemma_turn_in_lattice(ev.side.0, ev.rotate, c.current_pos);
    lemma_turn_keeps_frame(c, ev.side.0, ev.rotate);
}

/// A slice turn keeps the lattice invariant, whatever the event.
pub proof fn lemma_slice_turn_keeps_lattice(s: Seq<Cube>, ev: SideMoveEvent)
    requires
        lattice(s),
    ensures
        lattice(slice_turn(s, ev)),
{
    let t = slice_turn(s, ev);
    assert forall|i: int| 0 <= i < t.len() implies #[trigger] t[i].wf() by {
        lemma_moved_wf(s[i], ev);
    }
    assert forall|i: int, j: int|
        0 <= i < t.len() && 0 <= j < t.len() && i != j implies #[trigger] t[i].current_pos
        != #[trigger] t[j].current_pos by {
        assert(s[i].wf() && s[j].wf());
        lemma_moved_wf(s[i], ev);
        lemma_moved_wf(s[j], ev);
        if in_slice(s[i], ev) && in_slice(s[j], ev) {
            if t[i].current_pos == t[j].current_pos {
                lemma_turn_injective(
                    ev.side.0,
                    ev.rotate,
                    s[i].current_pos,
                    s[j].current_pos,
                );
            }
        }
    }
}

/// The lattice invariant holds after any sequence of moves.
pub proof fn lemma_moves_keep_lattice(s: Seq<Cube>, evs: Seq<SideMoveEvent>)
    requires
        lattice(s),
    ensures
        lattice(apply_moves(s, evs)),
    decreases evs.len(),
{
    if evs.len() > 0 {
        lemma_slice_turn_keeps_lattice(s, evs[0]);
        lemma_moves_keep_lattice(slice_turn(s, evs[0]), evs.drop_first());
    }
}

/// Every cubie is well formed.
pub open spec fn all_wf(s: Seq<Cube>) -> bool {
    forall|i: int| 0 <= i < s.len() ==> #[trigger] s[i].wf()
}

pub open spec fn with_rotation(ev: SideMoveEvent, rotate: SideRotation) -> SideMoveEvent {
    SideMoveEvent { rotate, ..ev }
}

proof fn lemma_cube_undo(c: Cube, ev: SideMoveEvent)
    requires
        c.wf(),
    ensures
        moved(moved(c, ev), with_rotation(ev, ev.rotate.inverse())) == c,
{
    let (axis, rot) = (ev.side.0, ev.rotate);
    lemma_turn_in_lattice(axis, rot, c.current_pos);
    lemma_axis_unit_in_lattice(c.orientation.right);
    lemma_axis_unit_in_lattice(c.orientation.up);
    lemma_axis_unit_in_lattice(c.orientation.front);
    lemma_turn_inverse(axis, rot, c.current_pos);
    lemma_turn_inverse(axis, rot, c.orientation.right);
    lemma_turn_inverse(axis, rot, c.orientation.up);
    lemma_turn_inverse(axis, rot, c.orientation.front);
}

proof fn lemma_cube_cycles(c: Cube, ev: SideMoveEvent)
    requires
        c.wf(),
    ensures
        ({
            let q = with_rotation(ev, SideRotation::Clockwise90);
            moved(moved(moved(moved(c, q), q), q), q) == c
        }),
        ({
            let h = with_rotation(ev, SideRotation::Clockwise180);
            moved(moved(c, h), h) == c
        }),
{
    let axis = ev.side.0;
    let p0 = c.current_pos;
    let p1 = turn_spec(axis, SideRotation::Clockwise90, p0);
    let p2 = turn_spec(axis, SideRotation::Clockwise90, p1);
    lemma_turn_in_lattice(axis, SideRotation::Clockwise90, p0);
    lemma_turn_in_lattice(axis, SideRotation::Clockwise90, p1);
    lemma_turn_in_lattice(axis, SideRotation::Clockwise90, p2);
    lemma_turn_in_lattice(axis, SideRotation::Clockwise180, p0);
    lemma_axis_unit_in_lattice(c.orientation.right);
    lemma_axis_unit_in_lattice(c.orientation.up);
    lemma_axis_unit_in_lattice(c.orientation.front);
    lemma_turn_cycles(axis, c.current_pos);
    lemma_turn_cycles(axis, c.orientation.right);
    lemma_turn_cycles(axis, c.orientation.up);
    lemma_turn_cycles(axis, c.orientation.front);
}

/// A turn followed by the opposite turn of the same slice (a clockwise
/// quarter turn and then a counterclockwise one, say) restores every cubie,
/// position and orientation.
pub proof fn lemma_turn_then_undo(s: Seq<Cube>, ev: SideMoveEvent)
    requires
        all_wf(s),
    ensures
        slice_turn(slice_turn(s, ev), with_rotation(ev, ev.rotate.inverse())) == s,
{
    let t = slice_turn(slice_turn(s, ev), with_rotation(ev, ev.rotate.inverse()));
    assert forall|i: int| 0 <= i < s.len() implies t[i] == s[i] by {
        lemma_cube_undo(s[i], ev);
    }
    assert(t =~= s);
}

/// Four clockwise quarter turns of one slice restore every cubie, position
/// and orientation.
pub proof fn lemma_four_quarter_turns(s: Seq<Cube>, axis: Axis, coordinate: i32)
    requires
        all_wf(s),
    ensures
        ({
            let q = SideMoveEvent { side: (axis, coordinate), rotate: SideRotation::Clockwise90 };
            slice_turn(slice_turn(slice_turn(slice_turn(s, q), q), q), q) == s
        }),
{
    let q = SideMoveEvent { side: (axis, coordinate), rotate: SideRotation::Clockwise90 };
    let t = slice_turn(slice_turn(slice_turn(slice_turn(s, q), q), q), q);
    assert forall|i: int| 0 <= i < s.len() implies t[i] == s[i] by {
        lemma_cube_cycles(s[i], q);
    }
    assert(t =~= s);
}

/// Two half turns of one slice restore every cubie, position and
/// orientation.
pub proof fn lemma_two_half_turns(s: Seq<Cube>, axis: Axis, coordinate: i32)
    requires
        all_wf(s),
    ensures
        ({
            let h = SideMoveEvent { side: (axis, coordinate), rotate: SideRotation::Clockwise180 };
            slice_turn(slice_turn(s, h), h) == s
        }),
{
    let h = SideMoveEvent { side: (axis, coordinate), rotate: SideRotation::Clockwise180 };
    let t = slice_turn(slice_turn(s, h), h);
    assert forall|i: int| 0 <= i < s.len() implies t[i] == s[i] by {
        lemma_cube_cycles(s[i], h);
    }
    assert(t =~= s);
}

/// The cubie built at lattice index `k`: x varies slowest, z fastest.
pub open spec fn home_pos(k: int) -> Pos {
    Pos::from_ints(k / 9 - 1, (k / 3) % 3 - 1, k % 3 - 1)
}

/// The puzzle as built: cubie `k` sits unturned at `home_pos(k)`.
pub open spec fn solved(s: Seq<Cube>, size: u32) -> bool {
    &&& s.len() == CUBIE_COUNT
    &&& forall|k: int|
        0 <= k < s.len() ==> #[trigger] s[k] == Cube::new_spec(home_pos(k), size)
}

proof fn lemma_home_pos_injective(i: int, j: int)
    requires
        0 <= i < 27,
        0 <= j < 27,
        home_pos(i) == home_pos(j),
    ensures
        i == j,
{
    assert(i == 9 * (i / 9) + 3 * ((i / 3) % 3) + i % 3);
    assert(j == 9 * (j / 9) + 3 * ((j / 3) % 3) + j % 3);
}

/// The 27 cubies of a puzzle, held by index.
pub struct Puzzle {
    pub cubies: Vec<Cube>,
}

impl Puzzle {
    pub open spec fn wf(self) -> bool {
        lattice(self.cubies@)
    }

    /// The cubies of the slice of `event`, by index, in increasing order.
    pub fn slice_members(&self, event: SideMoveEvent) -> (r: Vec<usize>)
        ensures
            r@.len() == slice_count(self.cubies@, event),
            forall|k: int| 0 <= k < r@.len() ==> (#[trigger] r@[k] as int) < self.cubies@.len()
                && in_slice(self.cubies@[r@[k] as int], event),
            forall|i: int|
                0 <= i < self.cubies@.len() && in_slice(#[trigger] self.cubies@[i], event)
                    ==> r@.contains(i as usize),
            forall|k: int, l: int| 0 <= k < l < r@.len() ==> r@[k] < r@[l],
    {
        let mut r: Vec<usize> = Vec::new();
        let mut i: usize = 0;
        while i < self.cubies.len()
            invariant
                i <= self.cubies@.len(),
                r@.len() == slice_count(self.cubies@.take(i as int), event),
                forall|k: int| 0 <= k < r@.len() ==> (#[trigger] r@[k] as int) < i
                    && in_slice(self.cubies@[r@[k] as int], event),
                forall|m: int|
                    0 <= m < i && in_slice(#[trigger] self.cubies@[m], event)
                        ==> r@.contains(m as usize),
                forall|k: int, l: int| 0 <= k < l < r@.len() ==> r@[k] < r@[l],
            decreases self.cubies.len() - i,
        {
            let ghost prev = r@;
            assert(self.cubies@.take(i + 1).drop_last() =~= self.cubies@.take(i as int));
            if self.cubies[i].current_pos.coord_of(event.side.0) == event.side.1 {
                r.push(i);
                assert forall|m: int|
                    0 <= m < i + 1 && in_slice(#[trigger] self.cubies@[m], event)
                        implies r@.contains(m as usize) by {
                    if m < i {
                        let k = choose|k: int| 0 <= k < prev.len() && prev[k] == m as usize;
                        assert(r@[k] == m as usize);
                    } else {
                        assert(r@[prev.len() as int] == i);
                    }
                }
            }
            i = i + 1;
        }
        assert(self.cubies@.take(i as int) =~= self.cubies@);
        r
    }

    /// Turns the slice of `event`. Its coordinate must be -1, 0 or 1, which
    /// selects exactly nine cubies; any other selects none, and then nothing
    /// moves and the invariant violation is reported.
    pub fn apply(&mut self, event: SideMoveEvent) -> (r: Result<(), MoveError>)
        requires
            old(self).wf(),
        ensures
            final(self).wf(),
            r is Ok <==> unit(event.side.1 as int),
            r is Ok ==> final(self).cubies@ == slice_turn(old(self).cubies@, event),
            r is Err ==> r == Err::<(), MoveError>(MoveError::InvariantViolation),
            r is Err ==> *final(self) == *old(self),
    {
        proof {
            lemma_slice_size(self.cubies@, event);
        }
        let members = self.slice_members(event);
        if members.len() != SLICE_SIZE {
            return Err(MoveError::InvariantViolation);
        }
        let ghost start = self.cubies@;
        let mut i: usize = 0;
        while i < self.cubies.len()
            invariant
                self.cubies@.len() == start.len(),
                i <= start.len(),
                lattice(start),
                forall|k: int| 0 <= k < i ==> #[trigger] self.cubies@[k] == moved(start[k], event),
                forall|k: int| i <= k < start.len() ==> #[trigger] self.cubies@[k] == start[k],
            decreases start.len() - i,
        {
            let mut c = self.cubies[i];
            assert(c.wf());
            if c.current_pos.coord_of(event.side.0) == event.side.1 {
                c.turn_with(event.side.0, event.rotate);
            }
            self.cubies.set(i, c);
            i = i + 1;
        }
        assert(self.cubies@ =~= slice_turn(start, event));
        proof {
            lemma_slice_turn_keeps_lattice(start, event);
        }
        Ok(())
    }
}

/// Builds the 27 unturned cubies of edge `cube_size`, x varying slowest and
/// z fastest.
pub fn create_cube(cube_size: u32) -> (r: Puzzle)
    requires
        0 < cube_size <= MAX_CUBE_SIZE,
    ensures
        r.wf(),
        solved(r.cubies@, cube_size),
{
    let mut cubies: Vec<Cube> = Vec::new();
    let mut k: usize = 0;
    while k < CUBIE_COUNT
        invariant
            k <= CUBIE_COUNT,
            cubies@.len() == k,
            0 < cube_size <= MAX_CUBE_SIZE,
            forall|m: int| 0 <= m < k ==> #[trigger] cubies@[m] == Cube::new_spec(home_pos(m), cube_size),
        decreases CUBIE_COUNT - k,
    {
        let x = (k / 9) as i32 - 1;
        let y = ((k / 3) % 3) as i32 - 1;
        let z = (k % 3) as i32 - 1;
        cubies.push(Cube::new(Pos::new(x, y, z), cube_size));
        k = k + 1;
    }
    let r = Puzzle { cubies };
    assert forall|i: int, j: int|
        0 <= i < r.cubies@.len() && 0 <= j < r.cubies@.len() && i != j implies #[trigger] r.cubies@[i].current_pos
        != #[trigger] r.cubies@[j].current_pos by {
        if home_pos(i) == home_pos(j) {
            lemma_home_pos_injective(i, j);
        }
    }
    r
}

} // verus!
