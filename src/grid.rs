//! The playing field: its size, the hidden target, and the cells searched so far.

use crate::point::{chebyshev, Point};
use rand::rngs::StdRng;
use vstd::prelude::*;

verus! {

broadcast use vstd::seq_lib::group_seq_properties;

/// A `width` by `height` field with a hidden target. `searched` lists each
/// searched cell once; cells are never unmarked.
pub struct Grid {
    pub width: u8,
    pub height: u8,
    pub target: Point,
    pub searched: Vec<Point>,
}

impl Grid {
    pub open spec fn wf(&self) -> bool {
        &&& self.width > 0
        &&& self.height > 0
        &&& self.target.within(self.width as int, self.height as int)
        &&& self.searched@.no_duplicates()
        &&& forall|i: int|
            0 <= i < self.searched@.len() ==> (#[trigger] self.searched@[i]).within(
                self.width as int,
                self.height as int,
            )
    }

    /// The set of cells searched so far.
    pub open spec fn searched_cells(&self) -> Set<Point> {
        self.searched@.to_set()
    }

    /// A field with the target at a given cell and nothing searched.
    pub fn with_target(width: u8, height: u8, target: Point) -> (r: Grid)
        requires
            width > 0,
            height > 0,
            target.within(width as int, height as int),
        ensures
            r.wf(),
            r.width == width,
            r.height == height,
            r.target == target,
            r.searched_cells() == Set::<Point>::empty(),
    {
        let r = Grid { width, height, target, searched: Vec::new() };
        assert(r.searched_cells() =~= Set::<Point>::empty());
        r
    }

    /// A field with the target drawn at random and nothing searched.
    pub fn new(width: u8, height: u8, rng: &mut StdRng) -> (r: Grid)
        requires
            width > 0,
            height > 0,
        ensures
            r.wf(),
            r.width == width,
            r.height == height,
            r.searched_cells() == Set::<Point>::empty(),
    {
        let target = Point::random(rng, width, height);
        Grid::with_target(width, height, target)
    }

    pub fn is_searched(&self, p: Point) -> (r: bool)
        ensures
            r == self.searched_cells().contains(p),
    {
        let mut i: usize = 0;
        while i < self.searched.len()
            invariant
                i <= self.searched@.len(),
                forall|j: int| 0 <= j < i ==> self.searched@[j] != p,
            decreases self.searched@.len() - i,
        {
            if self.searched[i] == p {
                assert(self.searched@[i as int] == p);
                return true;
            }
            i = i + 1;
        }
        false
    }

    /// Marks `p` as searched; marking it again changes nothing.
    pub fn mark_searched(&mut self, p: Point)
        requires
            old(self).wf(),
            p.within(old(self).width as int, old(self).height as int),
        ensures
            final(self).wf(),
            final(self).width == old(self).width,
            final(self).height == old(self).height,
            final(self).target == old(self).target,
            final(self).searched_cells() == old(self).searched_cells().insert(p),
    {
        if self.is_searched(p) {
            assert(self.searched_cells() =~= old(self).searched_cells().insert(p));
        } else {
            let ghost before = self.searched@;
            self.searched.push(p);
            assert(self.searched@ == before.push(p));
            assert(self.searched_cells() =~= old(self).searched_cells().insert(p)) by {
                assert forall|q: Point| #[trigger]
                    self.searched@.contains(q) <==> before.contains(q) || q == p by {
                    if before.contains(q) {
                        let k = choose|k: int| 0 <= k < before.len() && before[k] == q;
                        assert(self.searched@[k] == q);
                    }
                    if q == p {
                        assert(self.searched@[before.len() as int] == q);
                    }
                    if self.searched@.contains(q) && q != p {
                        let k = choose|k: int| 0 <= k < self.searched@.len() && self.searched@[k] == q;
                        assert(before[k] == q);
                    }
                }
            }
        }
    }

    pub fn is_target(&self, p: Point) -> (r: bool)
        ensures
            r == (p == self.target),
    {
        p == self.target
    }

    /// How far `p` lies from the target.
    pub fn distance_from_target(&self, p: Point) -> (r: u8)
        ensures
            r == chebyshev(p, self.target),
    {
        p.distance_to(self.target)
    }

    /// How many cells have been searched.
    pub fn searched_count(&self) -> (r: usize)
        requires
            self.wf(),
        ensures
            r == self.searched_cells().len(),
    {
        proof {
            self.searched@.unique_seq_to_set();
        }
        self.searched.len()
    }
}

} // verus!
