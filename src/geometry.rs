use vstd::prelude::*;

verus! {

/// A point of the integer grid; cubie centres lie in {-1, 0, 1}³.
#[derive(Debug, Clone, Copy, PartialEq, Eq, Structural)]
pub struct Pos {
    pub x: i32,
    pub y: i32,
    pub z: i32,
}

/// The coordinate that selects a slice.
#[derive(Debug, Clone, Copy, PartialEq, Eq, Structural)]
pub enum Axis {
    X,
    Y,
    Z,
}

/// How far a slice is turned.
#[derive(Debug, Clone, Copy, PartialEq, Eq, Structural)]
pub enum SideRotation {
    Clockwise90,
    Clockwise180,
    Counterclockwise90,
}

pub open spec fn unit(v: int) -> bool {
    -1 <= v <= 1
}

impl Pos {
    /// Every coordinate is -1, 0 or 1.
    pub open spec fn in_lattice(self) -> bool {
        unit(self.x as int) && unit(self.y as int) && unit(self.z as int)
    }

    /// The coordinate of this point along `axis`.
    pub open spec fn coord(self, axis: Axis) -> int {
        match axis {
            Axis::X => self.x as int,
            Axis::Y => self.y as int,
            Axis::Z => self.z as int,
        }
    }

    pub open spec fn from_ints(x: int, y: int, z: int) -> Pos {
        Pos { x: x as i32, y: y as i32, z: z as i32 }
    }

    pub fn new(x: i32, y: i32, z: i32) -> (r: Pos)
        ensures
            r == (Pos { x, y, z }),
    {
        Pos { x, y, z }
    }

    pub fn coord_of(&self, axis: Axis) -> (r: i32)
        ensures
            r as int == self.coord(axis),
    {
        match axis {
            Axis::X => self.x,
            Axis::Y => self.y,
            Axis::Z => self.z,
        }
    }
}

impl SideRotation {
    /// The turn that undoes this one.
    pub open spec fn inverse(self) -> SideRotation {
        match self {
            SideRotation::Clockwise90 => SideRotation::Counterclockwise90,
            SideRotation::Clockwise180 => SideRotation::Clockwise180,
            SideRotation::Counterclockwise90 => SideRotation::Clockwise90,
        }
    }
}

/// Turns the pair (b, c) of in-plane coordinates, taken in cyclic order after
/// the axis: a quarter turn clockwise maps (b, c) to (c, -b).
pub open spec fn turn_plane(rot: SideRotation, b: int, c: int) -> (int, int) {
    match rot {
        SideRotation::Clockwise90 => (c, -b),
        SideRotation::Clockwise180 => (-b, -c),
        SideRotation::Counterclockwise90 => (-c, b),
    }
}

/// The image of `p` under the turn `rot` about `axis`; the coordinate along
/// the axis is kept. About Z a clockwise quarter turn maps (x, y) to (y, -x).
pub open spec fn turn_spec(axis: Axis, rot: SideRotation, p: Pos) -> Pos {
    match axis {
        Axis::X => {
            let (b, c) = turn_plane(rot, p.y as int, p.z as int);
            Pos::from_ints(p.x as int, b, c)
        },
        Axis::Y => {
            let (b, c) = turn_plane(rot, p.z as int, p.x as int);
            Pos::from_ints(c, p.y as int, b)
        },
        Axis::Z => {
            let (b, c) = turn_plane(rot, p.x as int, p.y as int);
            Pos::from_ints(b, c, p.z as int)
        },
    }
}

fn turn_pair(rot: SideRotation, b: i32, c: i32) -> (r: (i32, i32))
    requires
        unit(b as int),
        unit(c as int),
    ensures
        (r.0 as int, r.1 as int) == turn_plane(rot, b as int, c as int),
{
    match rot {
        SideRotation::Clockwise90 => (c, -b),
        SideRotation::Clockwise180 => (-b, -c),
        SideRotation::Counterclockwise90 => (-c, b),
    }
}

/// Turns a lattice point (or a unit direction) about `axis`.
pub fn turn(axis: Axis, rot: SideRotation, p: Pos) -> (r: Pos)
    requires
        p.in_lattice(),
    ensures
        r == turn_spec(axis, rot, p),
        r.in_lattice(),
        r.coord(axis) == p.coord(axis),
{
    match axis {
        Axis::X => {
            let (b, c) = turn_pair(rot, p.y, p.z);
            Pos { x: p.x, y: b, z: c }
        },
        Axis::Y => {
            let (b, c) = turn_pair(rot, p.z, p.x);
            Pos { x: c, y: p.y, z: b }
        },
        Axis::Z => {
            let (b, c) = turn_pair(rot, p.x, p.y);
            Pos { x: b, y: c, z: p.z }
        },
    }
}

/// A turn keeps lattice points in the lattice and keeps the coordinate
/// along its axis.
pub proof fn lemma_turn_in_lattice(axis: Axis, rot: SideRotation, p: Pos)
    requires
        p.in_lattice(),
    ensures
        turn_spec(axis, rot, p).in_lattice(),
        turn_spec(axis, rot, p).coord(axis) == p.coord(axis),
{
}

/// Undoing: the inverse turn brings every lattice point back.
pub proof fn lemma_turn_inverse(axis: Axis, rot: SideRotation, p: Pos)
    requires
        p.in_lattice(),
    ensures
        turn_spec(axis, rot.inverse(), turn_spec(axis, rot, p)) == p,
{
}

/// Four quarter turns, or two half turns, are the identity on the lattice.
pub proof fn lemma_turn_cycles(axis: Axis, p: Pos)
    requires
        p.in_lattice(),
    ensures
        turn_spec(axis, SideRotation::Clockwise90, turn_spec(axis, SideRotation::Clockwise90,
            turn_spec(axis, SideRotation::Clockwise90, turn_spec(axis, SideRotation::Clockwise90, p))))
            == p,
        turn_spec(axis, SideRotation::Clockwise180, turn_spec(axis, SideRotation::Clockwise180, p))
            == p,
{
}

/// A turn is one-to-one.
pub proof fn lemma_turn_injective(axis: Axis, rot: SideRotation, p: Pos, q: Pos)
    requires
        p.in_lattice(),
        q.in_lattice(),
        turn_spec(axis, rot, p) == turn_spec(axis, rot, q),
    ensures
        p == q,
{
    lemma_turn_inverse(axis, rot, p);
    lemma_turn_inverse(axis, rot, q);
}

} // verus!
