use vstd::prelude::*;

use crate::geometry::{lemma_turn_in_lattice, turn, turn_spec, unit, Axis, Pos, SideRotation};

verus! {

/// The six outward directions of the puzzle.
#[derive(Debug, Clone, Copy, PartialEq, Eq, Structural)]
pub enum Face {
    Up,
    Down,
    Left,
    Right,
    Front,
    Back,
}

/// Sticker colours, one per face of the solved puzzle.
#[derive(Debug, Clone, Copy, PartialEq, Eq, Structural)]
pub enum StickerColor {
    White,
    Yellow,
    Red,
    Green,
    Blue,
    Orange,
}

impl Face {
    /// The unit vector pointing out of this face.
    pub open spec fn normal(self) -> Pos {
        match self {
            Face::Up => Pos { x: 0, y: 1, z: 0 },
            Face::Down => Pos { x: 0, y: -1i32, z: 0 },
            Face::Left => Pos { x: -1i32, y: 0, z: 0 },
            Face::Right => Pos { x: 1, y: 0, z: 0 },
            Face::Front => Pos { x: 0, y: 0, z: 1 },
            Face::Back => Pos { x: 0, y: 0, z: -1i32 },
        }
    }

    /// The colour that this face carries when the puzzle is solved.
    pub open spec fn home_color(self) -> StickerColor {
        match self {
            Face::Up => StickerColor::White,
            Face::Down => StickerColor::Yellow,
            Face::Left => StickerColor::Red,
            Face::Right => StickerColor::Green,
            Face::Front => StickerColor::Blue,
            Face::Back => StickerColor::Orange,
        }
    }

    /// A point lies on this face's outer layer.
    pub open spec fn touches(self, p: Pos) -> bool {
        match self {
            Face::Up => p.y == 1,
            Face::Down => p.y == -1,
            Face::Left => p.x == -1,
            Face::Right => p.x == 1,
            Face::Front => p.z == 1,
            Face::Back => p.z == -1,
        }
    }

    pub fn color(self) -> (r: StickerColor)
        ensures
            r == self.home_color(),
    {
        match self {
            Face::Up => StickerColor::White,
            Face::Down => StickerColor::Yellow,
            Face::Left => StickerColor::Red,
            Face::Right => StickerColor::Green,
            Face::Front => StickerColor::Blue,
            Face::Back => StickerColor::Orange,
        }
    }
}

/// The face whose outward normal is `v`, if `v` is one of the six.
pub open spec fn face_of_spec(v: Pos) -> Option<Face> {
    if v == Face::Up.normal() {
        Some(Face::Up)
    } else if v == Face::Down.normal() {
        Some(Face::Down)
    } else if v == Face::Left.normal() {
        Some(Face::Left)
    } else if v == Face::Right.normal() {
        Some(Face::Right)
    } else if v == Face::Front.normal() {
        Some(Face::Front)
    } else if v == Face::Back.normal() {
        Some(Face::Back)
    } else {
        None
    }
}

/// One of the six unit vectors along the axes.
pub open spec fn is_axis_unit(v: Pos) -> bool {
    face_of_spec(v).is_some()
}

pub fn face_of(v: Pos) -> (r: Option<Face>)
    ensures
        r == face_of_spec(v),
{
    if v.x == 0 && v.y == 1 && v.z == 0 {
        Some(Face::Up)
    } else if v.x == 0 && v.y == -1 && v.z == 0 {
        Some(Face::Down)
    } else if v.x == -1 && v.y == 0 && v.z == 0 {
        Some(Face::Left)
    } else if v.x == 1 && v.y == 0 && v.z == 0 {
        Some(Face::Right)
    } else if v.x == 0 && v.y == 0 && v.z == 1 {
        Some(Face::Front)
    } else if v.x == 0 && v.y == 0 && v.z == -1 {
        Some(Face::Back)
    } else {
        None
    }
}

/// The axis along which an axis unit vector points.
pub open spec fn axis_of(v: Pos) -> Axis {
    if v.x != 0 {
        Axis::X
    } else if v.y != 0 {
        Axis::Y
    } else {
        Axis::Z
    }
}

pub open spec fn vsum(u: Pos, v: Pos) -> Pos {
    Pos::from_ints(u.x + v.x, u.y + v.y, u.z + v.z)
}

/// `a · v` for a in {-1, 0, 1}.
pub open spec fn signed(a: int, v: Pos) -> Pos {
    if a == 1 {
        v
    } else if a == -1 {
        neg(v)
    } else {
        Pos { x: 0, y: 0, z: 0 }
    }
}

pub open spec fn neg(v: Pos) -> Pos {
    Pos::from_ints(-(v.x as int), -(v.y as int), -(v.z as int))
}

/// The orientation of a cubie: where its own right, up and front directions
/// point now. A cubie that has not been turned has the identity frame.
#[derive(Debug, Clone, Copy, PartialEq, Eq, Structural)]
pub struct Orientation {
    pub right: Pos,
    pub up: Pos,
    pub front: Pos,
}

impl Orientation {
    pub open spec fn identity() -> Orientation {
        Orientation {
            right: Face::Right.normal(),
            up: Face::Up.normal(),
            front: Face::Front.normal(),
        }
    }

    /// The three directions are axis unit vectors along three different
    /// axes.
    pub open spec fn wf(self) -> bool {
        &&& is_axis_unit(self.right)
        &&& is_axis_unit(self.up)
        &&& is_axis_unit(self.front)
        &&& axis_of(self.right) != axis_of(self.up)
        &&& axis_of(self.up) != axis_of(self.front)
        &&& axis_of(self.right) != axis_of(self.front)
    }

    /// Where the point `p` of the cubie's own frame lies now:
    /// p.x · right + p.y · up + p.z · front.
    pub open spec fn place(self, p: Pos) -> Pos {
        let along_right = signed(p.x as int, self.right);
        let along_up = signed(p.y as int, self.up);
        let along_front = signed(p.z as int, self.front);
        vsum(vsum(along_right, along_up), along_front)
    }

    /// Where the cubie's own face `f` points now.
    pub open spec fn image(self, f: Face) -> Pos {
        match f {
            Face::Up => self.up,
            Face::Down => neg(self.up),
            Face::Right => self.right,
            Face::Left => neg(self.right),
            Face::Front => self.front,
            Face::Back => neg(self.front),
        }
    }

    pub open spec fn turned(self, axis: Axis, rot: SideRotation) -> Orientation {
        Orientation {
            right: turn_spec(axis, rot, self.right),
            up: turn_spec(axis, rot, self.up),
            front: turn_spec(axis, rot, self.front),
        }
    }
}

/// One of the 27 small cubes. `init_pos` is where it was built,
/// `current_pos` where it is now, `size` its edge in hundredths of a scene
/// unit.
#[derive(Debug, Clone, Copy, PartialEq, Eq, Structural)]
pub struct Cube {
    pub init_pos: Pos,
    pub current_pos: Pos,
    pub orientation: Orientation,
    pub size: u32,
}

/// Largest cubie edge, in hundredths of a scene unit.
pub const MAX_CUBE_SIZE: u32 = 10000;

/// Gap between a cubie's body and its stickers, in hundredths of a scene unit.
pub const STICKER_CLEARANCE: u32 = 1;

/// A sticker as drawn: the face it now points out of, its colour, and the
/// offset of its centre from the cubie's centre.
#[derive(Debug, Clone, Copy, PartialEq, Eq, Structural)]
pub struct Sticker {
    pub face: Face,
    pub color: StickerColor,
    pub offset: Pos,
}

/// Distance from a cubie's centre to its stickers.
pub open spec fn sticker_distance(size: u32) -> int {
    size as int / 2 + STICKER_CLEARANCE as int
}

pub open spec fn scaled(v: Pos, k: int) -> Pos {
    Pos::from_ints(v.x * k, v.y * k, v.z * k)
}

pub open spec fn bool_count(b: bool) -> nat {
    if b { 1 } else { 0 }
}

impl Cube {
    /// Both positions lie in the lattice, the orientation is a proper frame,
    /// and the current position is that frame applied to the home position.
    pub open spec fn wf(self) -> bool {
        &&& self.init_pos.in_lattice()
        &&& self.current_pos.in_lattice()
        &&& self.orientation.wf()
        &&& self.current_pos == self.orientation.place(self.init_pos)
        &&& 0 < self.size <= MAX_CUBE_SIZE
    }

    /// How many of its faces lie on the outside of the puzzle.
    pub open spec fn exposed_count(self) -> nat {
        bool_count(self.current_pos.y == 1) + bool_count(self.current_pos.y == -1)
            + bool_count(self.current_pos.x == -1) + bool_count(self.current_pos.x == 1)
            + bool_count(self.current_pos.z == 1) + bool_count(self.current_pos.z == -1)
    }

    /// The cubie after its slice was turned: position and orientation turn
    /// together.
    pub open spec fn turned(self, axis: Axis, rot: SideRotation) -> Cube {
        Cube {
            current_pos: turn_spec(axis, rot, self.current_pos),
            orientation: self.orientation.turned(axis, rot),
            ..self
        }
    }

    /// The sticker that the cubie's own face `f` carries, as it stands now.
    pub open spec fn sticker_spec(self, f: Face) -> Sticker {
        let dir = self.orientation.image(f);
        Sticker {
            face: face_of_spec(dir).unwrap(),
            color: f.home_color(),
            offset: scaled(dir, sticker_distance(self.size)),
        }
    }

    pub open spec fn sticker_if(self, f: Face) -> Seq<Sticker> {
        if f.touches(self.init_pos) {
            seq![self.sticker_spec(f)]
        } else {
            seq![]
        }
    }

    /// The stickers, one for each face that lay outside when the cubie was
    /// built, in the order up, down, left, right, front, back of that build.
    pub open spec fn stickers_spec(self) -> Seq<Sticker> {
        self.sticker_if(Face::Up) + self.sticker_if(Face::Down) + self.sticker_if(Face::Left)
            + self.sticker_if(Face::Right) + self.sticker_if(Face::Front) + self.sticker_if(
            Face::Back,
        )
    }

    pub open spec fn new_spec(init_pos: Pos, size: u32) -> Cube {
        Cube { init_pos, current_pos: init_pos, orientation: Orientation::identity(), size }
    }

    /// A cubie that has not been moved.
    pub fn new(init_pos: Pos, size: u32) -> (r: Cube)
        requires
            init_pos.in_lattice(),
            0 < size <= MAX_CUBE_SIZE,
        ensures
            r == Cube::new_spec(init_pos, size),
            r.wf(),
    {
        Cube {
            init_pos,
            current_pos: init_pos,
            orientation: Orientation {
                right: Pos { x: 1, y: 0, z: 0 },
                up: Pos { x: 0, y: 1, z: 0 },
                front: Pos { x: 0, y: 0, z: 1 },
            },
            size,
        }
    }

    pub fn has_up_face(&self) -> (r: bool)
        ensures
            r == (self.current_pos.y == 1),
    {
        self.current_pos.y == 1
    }

    pub fn has_down_face(&self) -> (r: bool)
        ensures
            r == (self.current_pos.y == -1),
    {
        self.current_pos.y == -1
    }

    pub fn has_left_face(&self) -> (r: bool)
        ensures
            r == (self.current_pos.x == -1),
    {
        self.current_pos.x == -1
    }

    pub fn has_right_face(&self) -> (r: bool)
        ensures
            r == (self.current_pos.x == 1),
    {
        self.current_pos.x == 1
    }

    pub fn has_front_face(&self) -> (r: bool)
        ensures
            r == (self.current_pos.z == 1),
    {
        self.current_pos.z == 1
    }

    pub fn has_back_face(&self) -> (r: bool)
        ensures
            r == (self.current_pos.z == -1),
    {
        self.current_pos.z == -1
    }

    /// Number of faces on the outside: 3 for a corner, 2 for an edge, 1 for
    /// a face centre, 0 for the core.
    pub fn exposed_face_count(&self) -> (r: u8)
        requires
            self.wf(),
        ensures
            r as nat == self.exposed_count(),
            r <= 3,
    {
        let mut n: u8 = 0;
        if self.has_up_face() {
            n = n + 1;
        }
        if self.has_down_face() {
            n = n + 1;
        }
        if self.has_left_face() {
            n = n + 1;
        }
        if self.has_right_face() {
            n = n + 1;
        }
        if self.has_front_face() {
            n = n + 1;
        }
        if self.has_back_face() {
            n = n + 1;
        }
        n
    }

    /// Turns the cubie with its slice.
    pub fn turn_with(&mut self, axis: Axis, rot: SideRotation)
        requires
            old(self).wf(),
        ensures
            *final(self) == old(self).turned(axis, rot),
            final(self).wf(),
    {
        proof {
            lemma_turn_keeps_frame(*self, axis, rot);
        }
        self.current_pos = turn(axis, rot, self.current_pos);
        self.orientation = Orientation {
            right: turn(axis, rot, self.orientation.right),
            up: turn(axis, rot, self.orientation.up),
            front: turn(axis, rot, self.orientation.front),
        };
    }
}

impl Orientation {
    /// Where the cubie's own face `f` points now.
    pub fn image_of(&self, f: Face) -> (r: Pos)
        requires
            self.wf(),
        ensures
            r == self.image(f),
            is_axis_unit(r),
    {
        match f {
            Face::Up => self.up,
            Face::Down => Pos { x: -self.up.x, y: -self.up.y, z: -self.up.z },
            Face::Right => self.right,
            Face::Left => Pos { x: -self.right.x, y: -self.right.y, z: -self.right.z },
            Face::Front => self.front,
            Face::Back => Pos { x: -self.front.x, y: -self.front.y, z: -self.front.z },
        }
    }
}

impl Cube {
    /// The sticker that the cubie's own face `f` carries: the face it now
    /// points out of, its build-time colour, and its offset from the centre.
    pub fn sticker(&self, f: Face) -> (r: Sticker)
        requires
            self.wf(),
        ensures
            r == self.sticker_spec(f),
    {
        let dir = self.orientation.image_of(f);
        let d = (self.size / 2 + STICKER_CLEARANCE) as i32;
        let face = match face_of(dir) {
            Some(face) => face,
            // never taken: `dir` is an axis unit vector
            None => f,
        };
        Sticker {
            face,
            color: f.color(),
            offset: scale(dir, d),
        }
    }

    /// Edge length of a sticker: nine tenths of the cubie's edge.
    pub fn sticker_edge(&self) -> (r: u32)
        requires
            self.wf(),
        ensures
            r == self.size * 9 / 10,
    {
        self.size * 9 / 10
    }

    /// The stickers the cubie carries, each drawn where it points now.
    /// Colours travel with the cubie: they were fixed when it was built.
    pub fn stickers(&self) -> (r: Vec<Sticker>)
        requires
            self.wf(),
        ensures
            r@ == self.stickers_spec(),
            r@.len() == self.exposed_count(),
            forall|k: int| 0 <= k < r@.len() ==> (#[trigger] r@[k]).face.touches(self.current_pos),
    {
        let mut r: Vec<Sticker> = Vec::new();
        if self.init_pos.y == 1 {
            r.push(self.sticker(Face::Up));
        }
        if self.init_pos.y == -1 {
            r.push(self.sticker(Face::Down));
        }
        if self.init_pos.x == -1 {
            r.push(self.sticker(Face::Left));
        }
        if self.init_pos.x == 1 {
            r.push(self.sticker(Face::Right));
        }
        if self.init_pos.z == 1 {
            r.push(self.sticker(Face::Front));
        }
        if self.init_pos.z == -1 {
            r.push(self.sticker(Face::Back));
        }
        assert(r@ =~= self.stickers_spec());
        proof {
            lemma_sticker_count(*self);
            lemma_stickers_exposed(*self);
        }
        r
    }
}

fn scale_unit(v: i32, k: i32) -> (r: i32)
    requires
        unit(v as int),
        0 <= k <= MAX_CUBE_SIZE,
    ensures
        r == v * k,
{
    if v == 0 {
        assert(v * k == 0) by (nonlinear_arith)
            requires
                v == 0,
        ;
        0
    } else if v == 1 {
        assert(v * k == k) by (nonlinear_arith)
            requires
                v == 1,
        ;
        k
    } else {
        assert(v * k == -k) by (nonlinear_arith)
            requires
                v == -1,
        ;
        -k
    }
}

fn scale(v: Pos, k: i32) -> (r: Pos)
    requires
        v.in_lattice(),
        0 <= k <= MAX_CUBE_SIZE,
    ensures
        r == scaled(v, k as int),
{
    Pos { x: scale_unit(v.x, k), y: scale_unit(v.y, k), z: scale_unit(v.z, k) }
}

pub proof fn lemma_turn_keeps_axis_unit(axis: Axis, rot: SideRotation, v: Pos)
    requires
        is_axis_unit(v),
    ensures
        is_axis_unit(turn_spec(axis, rot, v)),
        turn_spec(axis, rot, v).in_lattice(),
{
}

proof fn lemma_turn_axes(axis: Axis, rot: SideRotation, u: Pos, v: Pos)
    requires
        is_axis_unit(u),
        is_axis_unit(v),
        axis_of(u) != axis_of(v),
    ensures
        axis_of(turn_spec(axis, rot, u)) != axis_of(turn_spec(axis, rot, v)),
{
}

proof fn lemma_turn_signed(axis: Axis, rot: SideRotation, a: int, v: Pos)
    requires
        unit(a),
        is_axis_unit(v),
    ensures
        turn_spec(axis, rot, signed(a, v)) == signed(a, turn_spec(axis, rot, v)),
        signed(a, v).in_lattice(),
{
}

proof fn lemma_turn_add(axis: Axis, rot: SideRotation, u: Pos, v: Pos)
    requires
        -2 <= u.x <= 2 && -2 <= u.y <= 2 && -2 <= u.z <= 2,
        v.in_lattice(),
    ensures
        turn_spec(axis, rot, vsum(u, v)) == vsum(turn_spec(axis, rot, u), turn_spec(axis, rot, v)),
{
    match axis {
        Axis::X => match rot {
            SideRotation::Clockwise90 => {},
            SideRotation::Clockwise180 => {},
            SideRotation::Counterclockwise90 => {},
        },
        Axis::Y => match rot {
            SideRotation::Clockwise90 => {},
            SideRotation::Clockwise180 => {},
            SideRotation::Counterclockwise90 => {},
        },
        Axis::Z => match rot {
            SideRotation::Clockwise90 => {},
            SideRotation::Clockwise180 => {},
            SideRotation::Counterclockwise90 => {},
        },
    }
}

/// An axis unit vector lies in the lattice.
pub proof fn lemma_axis_unit_in_lattice(v: Pos)
    requires
        is_axis_unit(v),
    ensures
        v.in_lattice(),
{
}

/// Turning a well-formed cubie keeps its frame proper and keeps its
/// position equal to its frame applied to its home position.
pub proof fn lemma_turn_keeps_frame(c: Cube, axis: Axis, rot: SideRotation)
    requires
        c.wf(),
    ensures
        c.turned(axis, rot).wf(),
{
    let o = c.orientation;
    let p = c.init_pos;
    lemma_turn_keeps_axis_unit(axis, rot, o.right);
    lemma_turn_keeps_axis_unit(axis, rot, o.up);
    lemma_turn_keeps_axis_unit(axis, rot, o.front);
    lemma_turn_axes(axis, rot, o.right, o.up);
    lemma_turn_axes(axis, rot, o.up, o.front);
    lemma_turn_axes(axis, rot, o.right, o.front);
    lemma_turn_in_lattice(axis, rot, c.current_pos);
    lemma_turn_signed(axis, rot, p.x as int, o.right);
    lemma_turn_signed(axis, rot, p.y as int, o.up);
    lemma_turn_signed(axis, rot, p.z as int, o.front);
    let a = signed(p.x as int, o.right);
    let b = signed(p.y as int, o.up);
    let d = signed(p.z as int, o.front);
    lemma_turn_add(axis, rot, a, b);
    lemma_turn_add(axis, rot, vsum(a, b), d);
}

/// A cubie carries one sticker for each face it exposes where it stands
/// now: a turn moves stickers between faces but never hides or shows one.
pub proof fn lemma_sticker_count(c: Cube)
    requires
        c.wf(),
    ensures
        c.stickers_spec().len() == c.exposed_count(),
{
    let o = c.orientation;
    let p = c.init_pos;
    lemma_axis_unit_in_lattice(o.right);
    lemma_axis_unit_in_lattice(o.up);
    lemma_axis_unit_in_lattice(o.front);
    assert(bool_count(p.x == 1) + bool_count(p.x == -1) == bool_count(p.x != 0));
    assert(bool_count(p.y == 1) + bool_count(p.y == -1) == bool_count(p.y != 0));
    assert(bool_count(p.z == 1) + bool_count(p.z == -1) == bool_count(p.z != 0));
}

proof fn lemma_stickers_exposed(c: Cube)
    requires
        c.wf(),
    ensures
        forall|k: int|
            0 <= k < c.stickers_spec().len() ==> (#[trigger] c.stickers_spec()[k]).face.touches(
                c.current_pos,
            ),
{
    if Face::Up.touches(c.init_pos) {
        lemma_sticker_on_exposed_face(c, Face::Up);
    }
    if Face::Down.touches(c.init_pos) {
        lemma_sticker_on_exposed_face(c, Face::Down);
    }
    if Face::Left.touches(c.init_pos) {
        lemma_sticker_on_exposed_face(c, Face::Left);
    }
    if Face::Right.touches(c.init_pos) {
        lemma_sticker_on_exposed_face(c, Face::Right);
    }
    if Face::Front.touches(c.init_pos) {
        lemma_sticker_on_exposed_face(c, Face::Front);
    }
    if Face::Back.touches(c.init_pos) {
        lemma_sticker_on_exposed_face(c, Face::Back);
    }
}

/// Every sticker lies on a face that the cubie exposes where it stands now.
pub proof fn lemma_sticker_on_exposed_face(c: Cube, f: Face)
    requires
        c.wf(),
        f.touches(c.init_pos),
    ensures
        c.sticker_spec(f).face.touches(c.current_pos),
{
}

} // verus!
