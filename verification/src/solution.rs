//! The answer of the clear-sequence solver: a short run of placements, held
//! in a fixed-capacity vector.

use arrayvec::ArrayVec;
use vstd::prelude::*;
use crate::piece::FallingPiece;

verus! {

/// The most placements a clear sequence can have.
pub const SOLUTION_WINDOW: usize = 10;

/// A run of at most ten placements that leaves the field empty.
///
/// The placements sit in an `arrayvec::ArrayVec` of capacity ten, which the
/// verifier does not look into: what it holds is `solution_placements`.
#[verifier::external_body]
pub struct Solution {
    placements: ArrayVec<[FallingPiece; 10]>,
}

/// The placements that a solution holds, the first to be played first.
pub uninterp spec fn solution_placements(s: Solution) -> Seq<FallingPiece>;

impl View for Solution {
    type V = Seq<FallingPiece>;

    open spec fn view(&self) -> Seq<FallingPiece> {
        solution_placements(*self)
    }
}

impl Solution {
    /// `ArrayVec::new`: a vector that holds nothing.
    #[verifier::external_body]
    fn raw_new() -> (s: Solution)
        ensures
            solution_placements(s) == Seq::<FallingPiece>::empty(),
    {
        Solution { placements: ArrayVec::new() }
    }

    /// `ArrayVec::len`: the number of elements held, which never exceeds the
    /// capacity of ten.
    #[verifier::external_body]
    fn raw_len(&self) -> (n: usize)
        ensures
            n == solution_placements(*self).len(),
            n <= SOLUTION_WINDOW,
    {
        self.placements.len()
    }

    /// `ArrayVec::try_push`: appends the element where fewer than ten are
    /// held and reports success; a full vector is left as it was.
    #[verifier::external_body]
    fn raw_try_push(&mut self, mv: FallingPiece) -> (pushed: bool)
        ensures
            pushed == (solution_placements(*old(self)).len() < SOLUTION_WINDOW),
            pushed ==> solution_placements(*final(self)) == solution_placements(*old(self)).push(mv),
            !pushed ==> solution_placements(*final(self)) == solution_placements(*old(self)),
    {
        self.placements.try_push(mv).is_ok()
    }

    /// Indexing through `ArrayVec`'s `Deref` to a slice of the elements
    /// held: the element at position `i`.
    #[verifier::external_body]
    fn raw_get(&self, i: usize) -> (mv: FallingPiece)
        requires
            i < solution_placements(*self).len(),
        ensures
            mv == solution_placements(*self)[i as int],
    {
        self.placements[i]
    }

    /// The number of placements.
    pub fn len(&self) -> (n: usize)
        ensures
            n == self@.len(),
            n <= SOLUTION_WINDOW,
    {
        self.raw_len()
    }

    /// Packs a run of placements, which succeeds exactly where there are at
    /// most ten of them.
    pub fn from_placements(mvs: &Vec<FallingPiece>) -> (r: Option<Solution>)
        ensures
            r is Some <==> mvs.len() <= SOLUTION_WINDOW,
            r matches Some(s) ==> s@ == mvs@,
    {
        let mut s = Solution::raw_new();
        let mut i: usize = 0;
        while i < mvs.len()
            invariant
                i <= mvs.len(),
                i <= SOLUTION_WINDOW,
                s@ == mvs@.take(i as int),
            decreases mvs.len() - i,
        {
            let pushed = s.raw_try_push(mvs[i]);
            if !pushed {
                return None;
            }
            i += 1;
        }
        Some(s)
    }

    /// The placements, the first to be played first.
    pub fn placements(&self) -> (mvs: Vec<FallingPiece>)
        ensures
            mvs@ == self@,
    {
        let n = self.raw_len();
        let mut mvs: Vec<FallingPiece> = Vec::new();
        let mut i: usize = 0;
        while i < n
            invariant
                i <= n,
                n == self@.len(),
                mvs@ == self@.take(i as int),
            decreases n - i,
        {
            mvs.push(self.raw_get(i));
            i += 1;
        }
        mvs
    }
}

} // verus!
