use vstd::prelude::*;
use vstd::set_lib::{lemma_int_range, lemma_map_size, lemma_subset_equality, set_int_range};

use crate::cube::Cube;
use crate::geometry::{unit, Axis, Pos};
use crate::puzzle::{home_pos, in_slice, lattice, slice_count};
use crate::slide::SideMoveEvent;

verus! {

/// The index of a lattice point among the 27, x varying slowest.
pub open spec fn lattice_index(p: Pos) -> int {
    9 * (p.x + 1) + 3 * (p.y + 1) + (p.z + 1)
}

proof fn lemma_index_round_trip(p: Pos)
    requires
        p.in_lattice(),
    ensures
        0 <= lattice_index(p) < 27,
        home_pos(lattice_index(p)) == p,
{
}

proof fn lemma_home_round_trip(k: int)
    requires
        0 <= k < 27,
    ensures
        home_pos(k).in_lattice(),
        lattice_index(home_pos(k)) == k,
{
}

pub open spec fn index_of_cubie(s: Seq<Cube>) -> spec_fn(int) -> int {
    |i: int| lattice_index(s[i].current_pos)
}

/// Pigeonhole: 27 distinct lattice points fill the whole lattice.
pub proof fn lemma_lattice_complete(s: Seq<Cube>, q: Pos)
    requires
        lattice(s),
        q.in_lattice(),
    ensures
        exists|i: int| 0 <= i < s.len() && #[trigger] s[i].current_pos == q,
{
    let f = index_of_cubie(s);
    let r = set_int_range(0, 27);
    lemma_int_range(0, 27);
    assert forall|i: int, j: int| r.contains(i) && r.contains(j) && #[trigger] f(i) == #[trigger] f(
        j,
    ) implies i == j by {
        assert(s[i].wf() && s[j].wf());
        lemma_index_round_trip(s[i].current_pos);
        lemma_index_round_trip(s[j].current_pos);
    }
    let img = r.map(f);
    lemma_map_size(r, img, f);
    assert forall|k: int| img.contains(k) implies r.contains(k) by {
        let i = choose|i: int| r.contains(i) && f(i) == k;
        assert(s[i].wf());
        lemma_index_round_trip(s[i].current_pos);
    }
    lemma_subset_equality(img, r);
    lemma_index_round_trip(q);
    assert(r.contains(lattice_index(q)));
    let i = choose|i: int| r.contains(i) && f(i) == lattice_index(q);
    assert(s[i].wf());
    lemma_index_round_trip(s[i].current_pos);
}

pub open spec fn slice_indices(s: Seq<Cube>, ev: SideMoveEvent, n: int) -> Set<int> {
    set_int_range(0, n).filter(|i: int| in_slice(s[i], ev))
}

proof fn lemma_count_as_set(s: Seq<Cube>, ev: SideMoveEvent, n: int)
    requires
        0 <= n <= s.len(),
    ensures
        slice_indices(s, ev, n).finite(),
        slice_count(s.take(n), ev) == slice_indices(s, ev, n).len(),
    decreases n,
{
    if n == 0 {
        assert(slice_indices(s, ev, 0) =~= Set::<int>::empty());
    } else {
        lemma_count_as_set(s, ev, n - 1);
        assert(s.take(n).drop_last() =~= s.take(n - 1));
        let prev = slice_indices(s, ev, n - 1);
        assert(!prev.contains(n - 1));
        if in_slice(s[n - 1], ev) {
            assert(slice_indices(s, ev, n) =~= prev.insert(n - 1));
        } else {
            assert(slice_indices(s, ev, n) =~= prev);
        }
    }
}

/// The point of the plane at `axis` = `c` numbered `j` (0 ≤ j < 9).
pub open spec fn plane_point(axis: Axis, c: int, j: int) -> Pos {
    match axis {
        Axis::X => Pos::from_ints(c, j / 3 - 1, j % 3 - 1),
        Axis::Y => Pos::from_ints(j / 3 - 1, c, j % 3 - 1),
        Axis::Z => Pos::from_ints(j / 3 - 1, j % 3 - 1, c),
    }
}

pub open spec fn plane_indices(axis: Axis, c: int) -> Set<int> {
    set_int_range(0, 27).filter(|k: int| home_pos(k).coord(axis) == c)
}

proof fn lemma_plane_size(axis: Axis, c: int)
    ensures
        plane_indices(axis, c).finite(),
        plane_indices(axis, c).len() == if unit(c) {
            9nat
        } else {
            0nat
        },
{
    let b = plane_indices(axis, c);
    if !unit(c) {
        assert forall|k: int| !b.contains(k) by {
            if 0 <= k < 27 {
                lemma_home_round_trip(k);
            }
        }
        assert(b =~= Set::<int>::empty());
    } else {
        let g = |j: int| lattice_index(plane_point(axis, c, j));
        let r = set_int_range(0, 9);
        lemma_int_range(0, 9);
        assert forall|i: int, j: int| r.contains(i) && r.contains(j) && #[trigger] g(i)
            == #[trigger] g(j) implies i == j by {
            lemma_index_round_trip(plane_point(axis, c, i));
            lemma_index_round_trip(plane_point(axis, c, j));
        }
        assert forall|k: int| #[trigger] b.contains(k) <==> r.map(g).contains(k) by {
            if b.contains(k) {
                lemma_home_round_trip(k);
                let p = home_pos(k);
                let j = match axis {
                    Axis::X => 3 * (p.y + 1) + (p.z + 1),
                    Axis::Y => 3 * (p.x + 1) + (p.z + 1),
                    Axis::Z => 3 * (p.x + 1) + (p.y + 1),
                };
                assert(plane_point(axis, c, j) == p);
                assert(r.contains(j) && g(j) == k);
            }
            if r.map(g).contains(k) {
                let j = choose|j: int| r.contains(j) && g(j) == k;
                lemma_index_round_trip(plane_point(axis, c, j));
            }
        }
        assert(b =~= r.map(g));
        lemma_map_size(r, b, g);
    }
}

/// Under the lattice invariant a slice at coordinate -1, 0 or 1 holds
/// exactly nine cubies, and a slice at any other coordinate none.
pub proof fn lemma_slice_size(s: Seq<Cube>, ev: SideMoveEvent)
    requires
        lattice(s),
    ensures
        slice_count(s, ev) == if unit(ev.side.1 as int) {
            9nat
        } else {
            0nat
        },
{
    let (axis, c) = (ev.side.0, ev.side.1 as int);
    let f = index_of_cubie(s);
    lemma_count_as_set(s, ev, 27);
    assert(s.take(27) =~= s);
    let a = slice_indices(s, ev, 27);
    let b = plane_indices(axis, c);
    assert forall|i: int, j: int| a.contains(i) && a.contains(j) && #[trigger] f(i) == #[trigger] f(
        j,
    ) implies i == j by {
        assert(s[i].wf() && s[j].wf());
        lemma_index_round_trip(s[i].current_pos);
        lemma_index_round_trip(s[j].current_pos);
    }
    assert forall|k: int| #[trigger] b.contains(k) <==> a.map(f).contains(k) by {
        if b.contains(k) {
            lemma_home_round_trip(k);
            lemma_lattice_complete(s, home_pos(k));
            let i = choose|i: int| 0 <= i < s.len() && #[trigger] s[i].current_pos == home_pos(k);
            assert(s[i].wf());
            lemma_index_round_trip(s[i].current_pos);
            assert(a.contains(i) && f(i) == k);
        }
        if a.map(f).contains(k) {
            let i = choose|i: int| a.contains(i) && f(i) == k;
            assert(s[i].wf());
            lemma_index_round_trip(s[i].current_pos);
        }
    }
    assert(b =~= a.map(f));
    lemma_map_size(a, b, f);
    lemma_plane_size(axis, c);
}

} // verus!
