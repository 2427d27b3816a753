//! The reference orbit handed to the renderer.
//!
//! The orbit of the reference point is recorded iterate by iterate, each
//! narrowed to single precision, until the budget is used up or an iterate
//! leaves the disc of radius two. The buffer that the renderer gets always
//! has one entry per iteration of the budget: what follows the recorded
//! iterates is zero padding.

use vstd::prelude::*;
use crate::bits::{above_four, exceeds_four};

verus! {

/// One step of the orbit as the generator sees it: the narrowed components
/// of the iterate before the step, and the narrowed squared magnitude of the
/// iterate after it. All three are single-precision bit patterns.
#[derive(Clone, Copy, Debug, PartialEq, Eq, Structural)]
pub struct OrbitStep {
    pub re: u32,
    pub im: u32,
    pub norm_after: u32,
}

/// The entry that pads an orbit: zero in both components.
pub open spec fn padding() -> (u32, u32) {
    (0u32, 0u32)
}

/// A run of `count` padding entries.
pub open spec fn padded(count: int) -> Seq<(u32, u32)> {
    Seq::new(count as nat, |i: int| padding())
}

/// How many iterates an orbit with these steps records: every step up to
/// and including the first after which the iterate has left, the budget at
/// most. `from` is the step to look at first.
pub open spec fn valid_from(steps: Seq<OrbitStep>, from: nat, max_iter: nat) -> nat
    decreases max_iter - from,
{
    if from >= max_iter || from >= steps.len() {
        from
    } else if above_four(steps[from as int].norm_after) {
        from + 1
    } else {
        valid_from(steps, from + 1, max_iter)
    }
}

/// The number of meaningful entries of the orbit with these steps.
pub open spec fn valid_length(steps: Seq<OrbitStep>, max_iter: nat) -> nat {
    valid_from(steps, 0, max_iter)
}

/// The orbit with these steps: the recorded iterates, then padding up to the
/// budget.
pub open spec fn orbit_entries(steps: Seq<OrbitStep>, max_iter: nat) -> Seq<(u32, u32)> {
    Seq::new(
        max_iter,
        |i: int|
            if i < valid_length(steps, max_iter) {
                (steps[i].re, steps[i].im)
            } else {
                padding()
            },
    )
}

/// An orbit in the making.
pub struct OrbitBuilder {
    max_iter: u32,
    points: Vec<(u32, u32)>,
    open: bool,
}

impl OrbitBuilder {
    /// The iteration budget, which is also the length of the finished orbit.
    pub closed spec fn budget(&self) -> u32 {
        self.max_iter
    }

    /// The iterates recorded so far.
    pub closed spec fn recorded(&self) -> Seq<(u32, u32)> {
        self.points@
    }

    /// No recorded iterate has been followed by one that left.
    pub closed spec fn is_open(&self) -> bool {
        self.open
    }

    /// No more iterates are recorded than the budget allows.
    pub open spec fn wf(&self) -> bool {
        self.recorded().len() <= self.budget()
    }

    /// Whether another step is wanted.
    pub open spec fn unfinished(&self) -> bool {
        self.is_open() && self.recorded().len() < self.budget()
    }

    /// Starts an orbit of `max_iter` entries.
    pub fn new(max_iter: u32) -> (builder: Self)
        ensures
            builder.wf(),
            builder.budget() == max_iter,
            builder.recorded() == Seq::<(u32, u32)>::empty(),
            builder.is_open(),
    {
        OrbitBuilder { max_iter, points: Vec::new(), open: true }
    }

    /// Whether the caller is to take another step and record it.
    pub fn wants_step(&self) -> (r: bool)
        ensures
            r == self.unfinished(),
    {
        self.open && self.points.len() < self.max_iter as usize
    }

    /// Records one step. The iterate before the step joins the orbit; where
    /// the iterate after it has left, the orbit is closed. Once no step is
    /// wanted, nothing is recorded.
    pub fn record(&mut self, step: OrbitStep)
        requires
            old(self).wf(),
        ensures
            final(self).wf(),
            final(self).budget() == old(self).budget(),
            old(self).unfinished() ==> final(self).recorded() == old(self).recorded().push(
                (step.re, step.im),
            ) && final(self).is_open() == !above_four(step.norm_after),
            !old(self).unfinished() ==> final(self).recorded() == old(self).recorded()
                && final(self).is_open() == old(self).is_open(),
    {
        if self.wants_step() {
            self.points.push((step.re, step.im));
            if exceeds_four(step.norm_after) {
                self.open = false;
            }
        }
    }

    /// Ends the orbit: the entries for the renderer and the number of
    /// meaningful ones among them.
    pub fn finish(self) -> (r: (Vec<(u32, u32)>, u32))
        requires
            self.wf(),
        ensures
            r.0@ == self.recorded() + padded(self.budget() - self.recorded().len()),
            r.0@.len() == self.budget(),
            r.1 == self.recorded().len(),
            r.1 <= self.budget(),
    {
        let ghost recorded = self.points@;
        let valid: u32 = self.points.len() as u32;
        let mut orbit = self.points;
        while orbit.len() < self.max_iter as usize
            invariant
                valid <= orbit@.len() <= self.max_iter,
                recorded.len() == valid,
                forall|i: int| 0 <= i < valid ==> orbit@[i] == recorded[i],
                forall|i: int| valid <= i < orbit@.len() ==> orbit@[i] == padding(),
            decreases self.max_iter - orbit@.len(),
        {
            orbit.push((0, 0));
        }
        assert(orbit@ =~= recorded + padded(self.max_iter - recorded.len()));
        (orbit, valid)
    }
}

/// The orbit whose steps were recorded beforehand: runs an [`OrbitBuilder`]
/// over them. Steps past the first iterate that left, or past the budget,
/// are not looked at.
pub fn calculate_orbit(steps: &Vec<OrbitStep>, max_iter: u32) -> (r: (Vec<(u32, u32)>, u32))
    ensures
        r.0@ == orbit_entries(steps@, max_iter as nat),
        r.1 == valid_length(steps@, max_iter as nat),
        r.0@.len() == max_iter,
        r.1 <= max_iter,
{
    let mut builder = OrbitBuilder::new(max_iter);
    let mut i: usize = 0;
    while i < steps.len() && builder.wants_step()
        invariant
            builder.wf(),
            builder.budget() == max_iter,
            i <= steps.len(),
            builder.recorded().len() == i,
            forall|j: int| 0 <= j < i ==> builder.recorded()[j] == (steps@[j].re, steps@[j].im),
            builder.unfinished() ==> valid_from(steps@, i as nat, max_iter as nat) == valid_length(
                steps@,
                max_iter as nat,
            ),
            !builder.unfinished() ==> i == valid_length(steps@, max_iter as nat),
        decreases steps.len() - i,
    {
        builder.record(steps[i]);
        i += 1;
    }
    let r = builder.finish();
    proof {
        let want = orbit_entries(steps@, max_iter as nat);
        assert(r.1 == valid_length(steps@, max_iter as nat));
        assert(r.0@.len() == want.len());
        assert forall|j: int| 0 <= j < r.0@.len() implies r.0@[j] == want[j] by {
            if j < r.1 {
                assert(r.0@[j] == builder.recorded()[j]);
            }
        }
        assert(r.0@ =~= want);
    }
    r
}

/// The number of meaningful entries lies between the step it is counted
/// from and the budget.
pub proof fn lemma_valid_from_bounds(steps: Seq<OrbitStep>, from: nat, max_iter: nat)
    requires
        from <= max_iter,
    ensures
        from <= valid_from(steps, from, max_iter) <= max_iter,
        valid_from(steps, from, max_iter) <= steps.len() || from > steps.len(),
    decreases max_iter - from,
{
    if from < max_iter && from < steps.len() && !above_four(steps[from as int].norm_after) {
        lemma_valid_from_bounds(steps, from + 1, max_iter);
    }
}

/// An orbit has exactly as many entries as its budget, no more meaningful
/// ones than that, and only padding behind them.
pub proof fn orbit_shape(steps: Seq<OrbitStep>, max_iter: nat)
    ensures
        orbit_entries(steps, max_iter).len() == max_iter,
        valid_length(steps, max_iter) <= max_iter,
        forall|i: int|
            valid_length(steps, max_iter) <= i < max_iter ==> orbit_entries(steps, max_iter)[i]
                == padding(),
{
    lemma_valid_from_bounds(steps, 0, max_iter);
}

} // verus!
