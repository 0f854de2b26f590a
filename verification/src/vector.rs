//! Vector Function Utility Structs

use std::collections::VecDeque;
use vstd::prelude::*;

verus! {

/// One sampled point of the curve. Each field carries the raw 32-bit pattern
/// of one coordinate; this module never interprets the bits, it only stores
/// samples and hands them back in order, so the renderer may put any encoding
/// of a coordinate here.
#[derive(Clone, Copy, PartialEq, Eq, Structural, Debug)]
pub struct Point {
    pub x: u32,
    pub y: u32,
    pub z: u32,
}

/// A set of points to draw the function with.
///
/// Samples enter through `fill_span`, which pushes them on the front of a
/// double-ended queue, and leave through `next`, which pops them off the back:
/// the queue reverses the samples once on the way in and once on the way out,
/// so they come back in the order they were produced.
pub struct PointCollection<FN> {
    /// The vector function defining the points, by sample index
    function: FN,
    /// Points in the current range for the function
    points: VecDeque<Point>,
}

impl<FN> View for PointCollection<FN> {
    type V = Seq<Point>;

    /// The stored points, front to back.
    closed spec fn view(&self) -> Seq<Point> {
        self.points@
    }
}

impl<FN> PointCollection<FN> {
    /// The function the points are drawn from.
    pub closed spec fn func(&self) -> FN {
        self.function
    }

    /// Creates a new point collection from a 3 space function
    pub fn from_fn(function: FN) -> (collection: Self)
        ensures
            collection@ == Seq::<Point>::empty(),
            collection.func() == function,
    {
        Self { function, points: VecDeque::new() }
    }

    /// Fills the points of the collection with function values at the sample
    /// indices `0..steps`, pushing each on the front of the queue: afterwards
    /// the stored prefix holds the new samples in reverse order of production,
    /// in front of whatever was stored before.
    pub fn fill_span(&mut self, steps: usize) where FN: Fn(usize) -> Point
        requires
            forall|t: usize| t < steps ==> call_requires(old(self).func(), (t,)),
        ensures
            final(self).func() == old(self).func(),
            final(self)@.len() == old(self)@.len() + steps,
            final(self)@.skip(steps as int) == old(self)@,
            forall|j: int|
                0 <= j < steps ==> call_ensures(
                    old(self).func(),
                    (((steps - 1 - j) as usize),),
                    #[trigger] final(self)@[j],
                ),
    {
        let mut t: usize = 0;
        while t < steps
            invariant
                t <= steps,
                forall|u: usize| u < steps ==> call_requires(old(self).func(), (u,)),
                self.func() == old(self).func(),
                self@.len() == old(self)@.len() + t,
                self@.skip(t as int) == old(self)@,
                forall|j: int|
                    0 <= j < t ==> call_ensures(
                        old(self).func(),
                        (((t - 1 - j) as usize),),
                        #[trigger] self@[j],
                    ),
            decreases steps - t,
        {
            let coords = (self.function)(t);
            self.points.push_front(coords);
            t += 1;
        }
    }

    /// Removes and returns the point at the back of the queue: the oldest
    /// stored sample, or `None` once the collection is empty.
    pub fn next(&mut self) -> (point: Option<Point>)
        ensures
            final(self).func() == old(self).func(),
            match point {
                Some(p) => {
                    &&& old(self)@.len() > 0
                    &&& p == old(self)@.last()
                    &&& final(self)@ == old(self)@.drop_last()
                },
                None => {
                    &&& old(self)@.len() == 0
                    &&& final(self)@ == old(self)@
                },
            },
    {
        self.points.pop_back()
    }
}

/// Filling and then draining restores the order of production: when a queue of
/// `steps` points stores, as `fill_span` leaves it, the sample for index
/// `steps - 1 - j` at each position `j`, then the point that the `k`-th call
/// of `next` returns (position `steps - 1 - k` from the front) is a value the
/// function may return for sample index `k`.
pub proof fn lemma_drain_restores_sample_order<FN: Fn(usize) -> Point>(
    f: FN,
    pts: Seq<Point>,
    steps: usize,
    k: int,
)
    requires
        pts.len() == steps,
        forall|j: int|
            0 <= j < steps ==> call_ensures(f, (((steps - 1 - j) as usize),), #[trigger] pts[j]),
        0 <= k < steps,
    ensures
        call_ensures(f, ((k as usize),), pts[steps - 1 - k]),
{
    assert(call_ensures(f, (((steps - 1 - (steps - 1 - k)) as usize),), pts[steps - 1 - k]));
}

} // verus!
