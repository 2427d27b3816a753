//! Escape-time evaluation.
//!
//! A point `c` is iterated as `z <- z * z + c` from `z = 0`. After each
//! step the components of `z` are narrowed to single precision and held
//! against a cheap bound; only when that trips is the squared magnitude of
//! `z`, rounded to 24 bits, held against four. The index of the first
//! iterate that trips both is the escape time; a point that survives every
//! step scores the full budget.
//!
//! The iteration itself is arbitrary-precision arithmetic and is done by the
//! caller. [`EscapeProbe`] tells it what to compute next and decides on what
//! comes back.

use vstd::prelude::*;
use crate::bits::{above_four, exceeds_four, magnitude_above_two, magnitude_exceeds_two};

verus! {

/// What the evaluator may read of one iterate: the single-precision
/// narrowings of its two components and of its squared magnitude, as bit
/// patterns.
#[derive(Clone, Copy, Debug, PartialEq, Eq, Structural)]
pub struct Sample {
    pub re: u32,
    pub im: u32,
    pub norm: u32,
}

/// The cheap bound: one of the components is above two in absolute value.
pub open spec fn coarse_escape(re: u32, im: u32) -> bool {
    magnitude_above_two(re) || magnitude_above_two(im)
}

/// An iterate counts as escaped when the cheap bound trips and the squared
/// magnitude confirms it. Both tiers are wanted: a squared magnitude above
/// four whose components both narrow to at most two is not an escape.
pub open spec fn sample_escapes(s: Sample) -> bool {
    coarse_escape(s.re, s.im) && above_four(s.norm)
}

/// The index of the first escaped iterate among `samples[from..]`, looking
/// no further than `max_checks` iterates in all; `max_checks` where there is
/// none. `samples[i]` is the iterate after step `i + 1`.
pub open spec fn first_escape(samples: Seq<Sample>, from: nat, max_checks: nat) -> nat
    decreases max_checks - from,
{
    if from >= max_checks || from >= samples.len() {
        max_checks
    } else if sample_escapes(samples[from as int]) {
        from
    } else {
        first_escape(samples, from + 1, max_checks)
    }
}

/// The escape time of the orbit whose iterates are `samples`.
pub open spec fn escape_time(samples: Seq<Sample>, max_checks: nat) -> nat {
    first_escape(samples, 0, max_checks)
}

/// Where an evaluation stands.
#[derive(Clone, Copy, Debug, PartialEq, Eq, Structural)]
pub enum ProbeState {
    /// The caller is to take the next step and report the narrowed
    /// components of the iterate, which has this index.
    Iterating { index: u32 },
    /// The iterate with this index tripped the cheap bound: the caller is to
    /// report its squared magnitude.
    Measuring { index: u32 },
    /// The evaluation is over, with this escape time.
    Finished { score: u32 },
}

/// The state once iterate `index` has been found not to have escaped.
pub open spec fn resumed(index: u32, max_checks: u32) -> ProbeState {
    if index + 1 >= max_checks {
        ProbeState::Finished { score: max_checks }
    } else {
        ProbeState::Iterating { index: (index + 1) as u32 }
    }
}

/// The state at the start of an evaluation.
pub open spec fn started(max_checks: u32) -> ProbeState {
    if max_checks == 0 {
        ProbeState::Finished { score: 0 }
    } else {
        ProbeState::Iterating { index: 0 }
    }
}

/// The state after the components of the awaited iterate were reported.
/// Outside `Iterating` a report changes nothing.
pub open spec fn after_iterate(state: ProbeState, max_checks: u32, re: u32, im: u32) -> ProbeState {
    match state {
        ProbeState::Iterating { index } => if coarse_escape(re, im) {
            ProbeState::Measuring { index }
        } else {
            resumed(index, max_checks)
        },
        _ => state,
    }
}

/// The state after the squared magnitude of the iterate in question was
/// reported. Outside `Measuring` a report changes nothing.
pub open spec fn after_measure(state: ProbeState, max_checks: u32, norm: u32) -> ProbeState {
    match state {
        ProbeState::Measuring { index } => if above_four(norm) {
            ProbeState::Finished { score: index }
        } else {
            resumed(index, max_checks)
        },
        _ => state,
    }
}

/// The state after an iterate was reported in full, as much of it as the
/// evaluator asks for.
pub open spec fn after_sample(state: ProbeState, max_checks: u32, s: Sample) -> ProbeState {
    after_measure(after_iterate(state, max_checks, s.re, s.im), max_checks, s.norm)
}

/// A state that an evaluation with this budget can be in.
pub open spec fn state_within(state: ProbeState, max_checks: u32) -> bool {
    match state {
        ProbeState::Iterating { index } => index < max_checks,
        ProbeState::Measuring { index } => index < max_checks,
        ProbeState::Finished { score } => score <= max_checks,
    }
}

/// One escape-time evaluation in progress.
pub struct EscapeProbe {
    max_checks: u32,
    state: ProbeState,
}

impl EscapeProbe {
    /// The iteration budget.
    pub closed spec fn budget(&self) -> u32 {
        self.max_checks
    }

    /// Where the evaluation stands.
    pub closed spec fn stage(&self) -> ProbeState {
        self.state
    }

    /// The state is one that the budget allows.
    pub open spec fn wf(&self) -> bool {
        state_within(self.stage(), self.budget())
    }

    /// Starts an evaluation of up to `max_checks` iterates.
    pub fn new(max_checks: u32) -> (probe: Self)
        ensures
            probe.wf(),
            probe.budget() == max_checks,
            probe.stage() == started(max_checks),
    {
        if max_checks == 0 {
            EscapeProbe { max_checks, state: ProbeState::Finished { score: 0 } }
        } else {
            EscapeProbe { max_checks, state: ProbeState::Iterating { index: 0 } }
        }
    }

    /// What the caller is to do next.
    pub fn state(&self) -> (s: ProbeState)
        ensures
            s == self.stage(),
    {
        self.state
    }

    /// The escape time, once the evaluation is over.
    pub fn score(&self) -> (r: Option<u32>)
        requires
            self.wf(),
        ensures
            r == (match self.stage() {
                ProbeState::Finished { score } => Some(score),
                _ => None,
            }),
            r matches Some(score) ==> score <= self.budget(),
    {
        match self.state {
            ProbeState::Finished { score } => Some(score),
            _ => None,
        }
    }

    fn resume(&mut self, index: u32)
        requires
            index < old(self).budget(),
        ensures
            final(self).budget() == old(self).budget(),
            final(self).stage() == resumed(index, old(self).budget()),
            final(self).wf(),
    {
        if index >= self.max_checks - 1 {
            self.state = ProbeState::Finished { score: self.max_checks };
        } else {
            self.state = ProbeState::Iterating { index: index + 1 };
        }
    }

    /// Takes the narrowed components of the iterate that was asked for.
    pub fn iterated(&mut self, re: u32, im: u32)
        requires
            old(self).wf(),
        ensures
            final(self).wf(),
            final(self).budget() == old(self).budget(),
            final(self).stage() == after_iterate(old(self).stage(), old(self).budget(), re, im),
    {
        if let ProbeState::Iterating { index } = self.state {
            if magnitude_exceeds_two(re) || magnitude_exceeds_two(im) {
                self.state = ProbeState::Measuring { index };
            } else {
                self.resume(index);
            }
        }
    }

    /// Takes the squared magnitude that was asked for.
    pub fn measured(&mut self, norm: u32)
        requires
            old(self).wf(),
        ensures
            final(self).wf(),
            final(self).budget() == old(self).budget(),
            final(self).stage() == after_measure(old(self).stage(), old(self).budget(), norm),
    {
        if let ProbeState::Measuring { index } = self.state {
            if exceeds_four(norm) {
                self.state = ProbeState::Finished { score: index };
            } else {
                self.resume(index);
            }
        }
    }
}

/// The escape time of an orbit whose iterates were recorded beforehand:
/// runs an [`EscapeProbe`] over them. Iterates that are missing from the
/// record count as not escaped.
pub fn get_escape_time(samples: &Vec<Sample>, max_checks: u32) -> (score: u32)
    ensures
        score == escape_time(samples@, max_checks as nat),
        score <= max_checks,
{
    let mut probe = EscapeProbe::new(max_checks);
    let mut i: usize = 0;
    while i < samples.len()
        invariant
            probe.wf(),
            probe.budget() == max_checks,
            i <= samples.len(),
            match probe.stage() {
                ProbeState::Iterating { index } => index == i && first_escape(
                    samples@,
                    i as nat,
                    max_checks as nat,
                ) == escape_time(samples@, max_checks as nat),
                ProbeState::Measuring { index } => false,
                ProbeState::Finished { score } => score == escape_time(
                    samples@,
                    max_checks as nat,
                ),
            },
        decreases samples.len() - i,
    {
        if let Some(score) = probe.score() {
            return score;
        }
        let s = samples[i];
        probe.iterated(s.re, s.im);
        probe.measured(s.norm);
        proof {
            lemma_first_escape_bounds(samples@, (i + 1) as nat, max_checks as nat);
        }
        i += 1;
    }
    match probe.score() {
        Some(score) => score,
        None => max_checks,
    }
}

/// An escape time lies between the index it is searched from and the budget.
pub proof fn lemma_first_escape_bounds(samples: Seq<Sample>, from: nat, max_checks: nat)
    requires
        from <= max_checks,
    ensures
        from <= first_escape(samples, from, max_checks) <= max_checks,
    decreases max_checks - from,
{
    if from < max_checks && from < samples.len() && !sample_escapes(samples[from as int]) {
        lemma_first_escape_bounds(samples, from + 1, max_checks);
    }
}

/// The escape time never exceeds the budget.
pub proof fn escape_time_within_budget(samples: Seq<Sample>, max_checks: nat)
    ensures
        0 <= escape_time(samples, max_checks) <= max_checks,
{
    lemma_first_escape_bounds(samples, 0, max_checks);
}

/// No iterate before the one found has escaped.
pub proof fn lemma_none_before(samples: Seq<Sample>, from: nat, max_checks: nat, j: nat)
    requires
        from <= j < first_escape(samples, from, max_checks),
        j < samples.len(),
    ensures
        !sample_escapes(samples[j as int]),
    decreases max_checks - from,
{
    if from < max_checks && from < samples.len() && !sample_escapes(samples[from as int]) {
        if j > from {
            lemma_none_before(samples, from + 1, max_checks, j);
        }
    }
}

/// The escape time is the index of the first escaped iterate among the first
/// `max_checks`, and the budget itself where none of them has escaped.
pub proof fn escape_time_is_first(samples: Seq<Sample>, max_checks: nat)
    ensures
        ({
            let t = escape_time(samples, max_checks);
            &&& forall|j: nat| j < t && j < samples.len() ==> !sample_escapes(#[trigger] samples[j as int])
            &&& t < max_checks ==> t < samples.len() && sample_escapes(samples[t as int])
        }),
{
    let t = escape_time(samples, max_checks);
    assert forall|j: nat| j < t && j < samples.len() implies !sample_escapes(
        #[trigger] samples[j as int],
    ) by {
        lemma_none_before(samples, 0, max_checks, j);
    }
    lemma_found_escapes(samples, 0, max_checks);
}

/// Where the search stops short of the budget, it stops at an escaped
/// iterate.
pub proof fn lemma_found_escapes(samples: Seq<Sample>, from: nat, max_checks: nat)
    requires
        from <= max_checks,
    ensures
        first_escape(samples, from, max_checks) < max_checks ==> first_escape(
            samples,
            from,
            max_checks,
        ) < samples.len() && sample_escapes(
            samples[first_escape(samples, from, max_checks) as int],
        ),
    decreases max_checks - from,
{
    if from < max_checks && from < samples.len() && !sample_escapes(samples[from as int]) {
        lemma_found_escapes(samples, from + 1, max_checks);
    }
}

/// An orbit none of whose recorded iterates has escaped scores the whole
/// budget.
pub proof fn survivor_scores_budget(samples: Seq<Sample>, from: nat, max_checks: nat)
    requires
        forall|j: int| 0 <= j < samples.len() ==> !sample_escapes(#[trigger] samples[j]),
    ensures
        first_escape(samples, from, max_checks) == max_checks,
    decreases max_checks - from,
{
    if from < max_checks && from < samples.len() {
        survivor_scores_budget(samples, from + 1, max_checks);
    }
}

/// The origin never escapes: its iterates are all zero, and an orbit whose
/// narrowed iterates are zero scores the whole budget, whatever the budget.
pub proof fn origin_never_escapes(samples: Seq<Sample>, max_checks: nat)
    requires
        forall|j: int|
            0 <= j < samples.len() ==> (#[trigger] samples[j]).re == 0 && samples[j].im == 0,
    ensures
        escape_time(samples, max_checks) == max_checks,
{
    assert((0u32 >> 23) & 0xff == 0) by (bit_vector);
    survivor_scores_budget(samples, 0, max_checks);
}

/// The state of a probe that was started with this budget and has taken
/// these iterates, one after the other.
pub open spec fn probe_after(samples: Seq<Sample>, max_checks: u32) -> ProbeState
    decreases samples.len(),
{
    if samples.len() == 0 {
        started(max_checks)
    } else {
        after_sample(probe_after(samples.drop_last(), max_checks), max_checks, samples.last())
    }
}

/// Where a probe stands after the first `k` iterates of an orbit: finished
/// with the escape time if an iterate among them has escaped or the budget
/// is used up, and waiting for iterate `k` otherwise.
pub proof fn probe_tracks_escape_time(samples: Seq<Sample>, max_checks: u32, k: nat)
    requires
        k <= samples.len(),
    ensures
        ({
            let t = escape_time(samples, max_checks as nat);
            probe_after(samples.take(k as int), max_checks) == (if t < k || k >= max_checks {
                ProbeState::Finished { score: t as u32 }
            } else {
                ProbeState::Iterating { index: k as u32 }
            })
        }),
    decreases k,
{
    let t = escape_time(samples, max_checks as nat);
    escape_time_within_budget(samples, max_checks as nat);
    escape_time_is_first(samples, max_checks as nat);
    if k > 0 {
        let j = (k - 1) as nat;
        probe_tracks_escape_time(samples, max_checks, j);
        assert(samples.take(k as int).drop_last() =~= samples.take(j as int));
        assert(samples.take(k as int).last() == samples[j as int]);
        if t >= j && j < max_checks {
            if sample_escapes(samples[j as int]) {
                if t > j {
                    assert(!sample_escapes(samples[j as int]));
                }
            }
        }
    } else {
        assert(samples.take(0).len() == 0);
    }
}

/// A probe that has taken as many iterates of an orbit as its budget asks
/// for has finished, with the escape time of the orbit.
pub proof fn probe_finds_escape_time(samples: Seq<Sample>, max_checks: u32)
    requires
        samples.len() >= max_checks,
    ensures
        probe_after(samples, max_checks) == (ProbeState::Finished {
            score: escape_time(samples, max_checks as nat) as u32,
        }),
{
    probe_tracks_escape_time(samples, max_checks, samples.len());
    assert(samples.take(samples.len() as int) =~= samples);
}

} // verus!
