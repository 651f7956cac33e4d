use rubik::cube::{face_of, Cube, Face, StickerColor};
use rubik::geometry::{turn, Axis, Pos, SideRotation};
use rubik::puzzle::{create_cube, MoveError, Puzzle};
use rubik::slide::{MouseDraggingRecorder, SideMoveEvent, SideMoveQueue, WorldPoint};

fn positions(p: &Puzzle) -> Vec<(i32, i32, i32)> {
    p.cubies.iter().map(|c| (c.current_pos.x, c.current_pos.y, c.current_pos.z)).collect()
}

fn assert_lattice(p: &Puzzle) {
    let ps = positions(p);
    assert_eq!(ps.len(), 27);
    for (i, a) in ps.iter().enumerate() {
        assert!([-1, 0, 1].contains(&a.0) && [-1, 0, 1].contains(&a.1) && [-1, 0, 1].contains(&a.2));
        for b in ps.iter().skip(i + 1) {
            assert_ne!(a, b);
        }
    }
}

#[test]
fn exposed_faces_by_position() {
    let corner = Cube::new(Pos::new(1, 1, 1), 100);
    let centre = Cube::new(Pos::new(1, 0, 0), 100);
    let core = Cube::new(Pos::new(0, 0, 0), 100);
    assert_eq!(corner.exposed_face_count(), 3);
    assert_eq!(centre.exposed_face_count(), 1);
    assert_eq!(core.exposed_face_count(), 0);
    assert!(corner.has_up_face() && corner.has_right_face() && corner.has_front_face());
    assert!(!corner.has_down_face() && !corner.has_left_face() && !corner.has_back_face());
    assert!(centre.has_right_face() && !centre.has_up_face());
}

#[test]
fn initial_lattice_census() {
    let p = create_cube(100);
    assert_lattice(&p);
    let mut by_count = [0usize; 4];
    for c in p.cubies.iter() {
        by_count[c.exposed_face_count() as usize] += 1;
    }
    assert_eq!(by_count, [1, 6, 12, 8]);
    assert_eq!(p.cubies[0].init_pos, Pos::new(-1, -1, -1));
    assert_eq!(p.cubies[5].init_pos, Pos::new(-1, 0, 1));
    assert_eq!(p.cubies[26].init_pos, Pos::new(1, 1, 1));
}

#[test]
fn one_drain_moves_exactly_the_top_slice() {
    let mut p = create_cube(100);
    let before = p.cubies.clone();
    let mut q = SideMoveQueue::new();
    q.enqueue(SideMoveEvent::new(Axis::Y, 1, SideRotation::Clockwise90));
    let r = q.process_next(&mut p);
    assert!(matches!(r, Ok(Some(_))));
    assert!(q.is_empty());
    let mut moved = 0;
    for (b, a) in before.iter().zip(p.cubies.iter()) {
        if b.current_pos.y == 1 {
            assert_eq!(a.current_pos.y, 1);
            if b.current_pos != Pos::new(0, 1, 0) {
                assert_ne!(a.current_pos, b.current_pos);
            }
            moved += 1;
        } else {
            assert_eq!(a, b);
        }
    }
    assert_eq!(moved, 9);
    assert_lattice(&p);
}

#[test]
fn drag_recorder_round_trip() {
    let mut d = MouseDraggingRecorder::new();
    assert!(d.is_idle());
    d.begin(WorldPoint { x: 500, y: 1510, z: -20 }, 26);
    assert_eq!(d.start_pos, Some(WorldPoint { x: 500, y: 1510, z: -20 }));
    assert_eq!(d.piece, Some(26));
    assert!(!d.is_idle());
    d.clear();
    assert!(d.is_idle());
    assert_eq!(d.start_pos, None);
    assert_eq!(d.piece, None);
}

#[test]
fn four_quarter_turns_restore_slice() {
    let mut p = create_cube(100);
    let before = p.cubies.clone();
    let ev = SideMoveEvent::new(Axis::X, 1, SideRotation::Clockwise90);
    p.apply(ev).unwrap();
    assert_ne!(p.cubies, before);
    p.apply(ev).unwrap();
    p.apply(ev).unwrap();
    p.apply(ev).unwrap();
    assert_eq!(p.cubies, before);
}

#[test]
fn two_half_turns_restore_slice() {
    let mut p = create_cube(100);
    let before = p.cubies.clone();
    let ev = SideMoveEvent::new(Axis::Z, -1, SideRotation::Clockwise180);
    p.apply(ev).unwrap();
    assert_ne!(p.cubies, before);
    p.apply(ev).unwrap();
    assert_eq!(p.cubies, before);
}

#[test]
fn quarter_turn_then_back_restores_slice() {
    let mut p = create_cube(100);
    let before = p.cubies.clone();
    p.apply(SideMoveEvent::new(Axis::Y, 0, SideRotation::Clockwise90)).unwrap();
    assert_ne!(p.cubies, before);
    p.apply(SideMoveEvent::new(Axis::Y, 0, SideRotation::Counterclockwise90)).unwrap();
    assert_eq!(p.cubies, before);
}

#[test]
fn lattice_kept_over_a_scramble() {
    let mut p = create_cube(100);
    let axes = [Axis::X, Axis::Y, Axis::Z];
    let rots = [SideRotation::Clockwise90, SideRotation::Clockwise180, SideRotation::Counterclockwise90];
    for k in 0..40usize {
        let ev = SideMoveEvent::new(axes[k % 3], (k % 5) as i32 % 3 - 1, rots[(k / 3) % 3]);
        p.apply(ev).unwrap();
        assert_lattice(&p);
    }
}

#[test]
fn turn_about_z_maps_x_y_to_y_minus_x() {
    assert_eq!(turn(Axis::Z, SideRotation::Clockwise90, Pos::new(1, 0, 1)), Pos::new(0, -1, 1));
    assert_eq!(turn(Axis::Z, SideRotation::Clockwise90, Pos::new(1, 1, 0)), Pos::new(1, -1, 0));
    assert_eq!(turn(Axis::Z, SideRotation::Clockwise180, Pos::new(1, 1, -1)), Pos::new(-1, -1, -1));
    assert_eq!(turn(Axis::Z, SideRotation::Counterclockwise90, Pos::new(0, -1, 0)), Pos::new(1, 0, 0));
    assert_eq!(turn(Axis::X, SideRotation::Clockwise90, Pos::new(1, 1, 0)), Pos::new(1, 0, -1));
    assert_eq!(turn(Axis::Y, SideRotation::Clockwise90, Pos::new(1, 1, 0)), Pos::new(0, 1, 1));
}

#[test]
fn slice_outside_the_lattice_is_a_violation() {
    let mut p = create_cube(100);
    let before = p.cubies.clone();
    let r = p.apply(SideMoveEvent::new(Axis::X, 2, SideRotation::Clockwise90));
    assert_eq!(r, Err(MoveError::InvariantViolation));
    assert_eq!(p.cubies, before);
    assert_eq!(p.slice_members(SideMoveEvent::new(Axis::X, 2, SideRotation::Clockwise90)).len(), 0);
    assert_eq!(p.slice_members(SideMoveEvent::new(Axis::Z, 0, SideRotation::Clockwise90)).len(), 9);
}

#[test]
fn empty_queue_signals_nothing_pending() {
    let mut p = create_cube(100);
    let mut q = SideMoveQueue::new();
    assert!(q.dequeue().is_none());
    assert!(matches!(q.process_next(&mut p), Ok(None)));
}

#[test]
fn queue_is_fifo() {
    let mut q = SideMoveQueue::new();
    q.enqueue(SideMoveEvent::new(Axis::X, -1, SideRotation::Clockwise90));
    q.enqueue(SideMoveEvent::new(Axis::Z, 1, SideRotation::Clockwise180));
    assert_eq!(q.len(), 2);
    let a = q.dequeue().unwrap();
    assert_eq!((a.side.0, a.side.1, a.rotate), (Axis::X, -1, SideRotation::Clockwise90));
    let b = q.dequeue().unwrap();
    assert_eq!((b.side.0, b.side.1, b.rotate), (Axis::Z, 1, SideRotation::Clockwise180));
    assert!(q.dequeue().is_none());
}

#[test]
fn stickers_of_a_fresh_corner() {
    let c = Cube::new(Pos::new(1, 1, 1), 100);
    let s = c.stickers();
    assert_eq!(s.len(), 3);
    assert_eq!((s[0].face, s[0].color, s[0].offset), (Face::Up, StickerColor::White, Pos::new(0, 51, 0)));
    assert_eq!((s[1].face, s[1].color, s[1].offset), (Face::Right, StickerColor::Green, Pos::new(51, 0, 0)));
    assert_eq!((s[2].face, s[2].color, s[2].offset), (Face::Front, StickerColor::Blue, Pos::new(0, 0, 51)));
    assert_eq!(c.sticker_edge(), 90);
    assert_eq!(Cube::new(Pos::new(0, 0, 0), 100).stickers().len(), 0);
    let d = Cube::new(Pos::new(-1, -1, -1), 100).stickers();
    let colors: Vec<StickerColor> = d.iter().map(|s| s.color).collect();
    assert_eq!(colors, vec![StickerColor::Yellow, StickerColor::Red, StickerColor::Orange]);
}

#[test]
fn stickers_travel_with_the_cubie() {
    let mut p = create_cube(100);
    // turn the top layer so that the up-right-front corner moves
    p.apply(SideMoveEvent::new(Axis::Y, 1, SideRotation::Clockwise90)).unwrap();
    let c = p.cubies[26];
    assert_eq!(c.init_pos, Pos::new(1, 1, 1));
    assert_eq!(c.current_pos, Pos::new(-1, 1, 1));
    assert!(c.has_left_face() && !c.has_right_face());
    let s = c.stickers();
    assert_eq!((s[0].face, s[0].color), (Face::Up, StickerColor::White));
    assert_eq!((s[1].face, s[1].color), (Face::Front, StickerColor::Green));
    assert_eq!((s[2].face, s[2].color), (Face::Left, StickerColor::Blue));
    assert_eq!(s[2].offset, Pos::new(-51, 0, 0));
}

#[test]
fn face_lookup_by_normal() {
    assert_eq!(face_of(Pos::new(0, -1, 0)), Some(Face::Down));
    assert_eq!(face_of(Pos::new(-1, 0, 0)), Some(Face::Left));
    assert_eq!(face_of(Pos::new(1, 1, 0)), None);
}
