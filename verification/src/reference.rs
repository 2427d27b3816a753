//! Choice of a reference point.
//!
//! When the centre of the view does not survive the iteration budget, a
//! fixed pattern of nine points around it is scored, in order, and the first
//! point with the highest score is taken, the centre itself unless a point
//! of the pattern does strictly better. The search ends at once when a point
//! survives the whole budget.
//!
//! Placing and scoring the candidates is arbitrary-precision work of the
//! caller. [`ReferenceSearch`] names the candidate to score next and keeps
//! the best.

use vstd::prelude::*;

verus! {

/// The number of points in the search pattern.
pub const PATTERN_LEN: usize = 9;

const TENTH: u64 = 0x3FB9_9999_9999_999A;

const NEG_TENTH: u64 = 0xBFB9_9999_9999_999A;

const FIFTH: u64 = 0x3FC9_9999_9999_999A;

const NEG_FIFTH: u64 = 0xBFC9_9999_9999_999A;

/// The search pattern: for each candidate the offset from the centre, in
/// units of the search radius (the reciprocal of the zoom), as a pair of
/// double-precision bit patterns. The centre comes first, then the four
/// diagonals at a tenth, then the four cardinals at a fifth.
pub open spec fn pattern() -> Seq<(u64, u64)> {
    seq![
        (0u64, 0u64),
        (0x3FB9_9999_9999_999Au64, 0x3FB9_9999_9999_999Au64),
        (0x3FB9_9999_9999_999Au64, 0xBFB9_9999_9999_999Au64),
        (0xBFB9_9999_9999_999Au64, 0x3FB9_9999_9999_999Au64),
        (0xBFB9_9999_9999_999Au64, 0xBFB9_9999_9999_999Au64),
        (0x3FC9_9999_9999_999Au64, 0u64),
        (0xBFC9_9999_9999_999Au64, 0u64),
        (0u64, 0x3FC9_9999_9999_999Au64),
        (0u64, 0xBFC9_9999_9999_999Au64),
    ]
}

/// The offset of candidate `index`, if the pattern has one.
pub fn pattern_offset(index: usize) -> (r: Option<(u64, u64)>)
    ensures
        index < PATTERN_LEN ==> r == Some(pattern()[index as int]),
        index >= PATTERN_LEN ==> r.is_none(),
        pattern().len() == PATTERN_LEN,
{
    match index {
        0 => Some((0, 0)),
        1 => Some((TENTH, TENTH)),
        2 => Some((TENTH, NEG_TENTH)),
        3 => Some((NEG_TENTH, TENTH)),
        4 => Some((NEG_TENTH, NEG_TENTH)),
        5 => Some((FIFTH, 0)),
        6 => Some((NEG_FIFTH, 0)),
        7 => Some((0, FIFTH)),
        8 => Some((0, NEG_FIFTH)),
        _ => None,
    }
}

/// The best score after the centre and these candidates, in order: a
/// candidate replaces the best so far only with a strictly higher score.
pub open spec fn running_best(center_score: u32, scores: Seq<u32>) -> u32
    decreases scores.len(),
{
    if scores.len() == 0 {
        center_score
    } else {
        let before = running_best(center_score, scores.drop_last());
        if scores.last() > before {
            scores.last()
        } else {
            before
        }
    }
}

/// `best` and `best_score` are the outcome of a search over these scores:
/// no score is higher than `best_score`; `best` is the first candidate that
/// has it, and is `None`, for the centre, where no candidate beats the
/// centre's own score.
pub open spec fn is_best(
    center_score: u32,
    scores: Seq<u32>,
    best: Option<usize>,
    best_score: u32,
) -> bool {
    &&& best_score >= center_score
    &&& forall|j: int| 0 <= j < scores.len() ==> scores[j] <= best_score
    &&& match best {
        None => best_score == center_score,
        Some(k) => {
            &&& k < scores.len()
            &&& scores[k as int] == best_score
            &&& best_score > center_score
            &&& forall|j: int| 0 <= j < k ==> scores[j] < best_score
        },
    }
}

/// How many candidates a search looks at, given that it has looked at `n`:
/// it goes on until the pattern or the scores run out, or the best so far
/// has survived the whole budget.
pub open spec fn consulted_from(center_score: u32, scores: Seq<u32>, n: nat, max_iter: u32) -> nat
    decreases PATTERN_LEN - n,
{
    if n >= PATTERN_LEN || n >= scores.len() || running_best(center_score, scores.take(n as int))
        == max_iter {
        n
    } else {
        consulted_from(center_score, scores, n + 1, max_iter)
    }
}

/// How many candidates a search over these scores looks at.
pub open spec fn consulted(center_score: u32, scores: Seq<u32>, max_iter: u32) -> nat {
    consulted_from(center_score, scores, 0, max_iter)
}

/// A search for a reference point in progress.
pub struct ReferenceSearch {
    max_iter: u32,
    center_score: u32,
    scores: Vec<u32>,
    best: Option<usize>,
    best_score: u32,
}

impl ReferenceSearch {
    /// The iteration budget that the scores were taken with.
    pub closed spec fn budget(&self) -> u32 {
        self.max_iter
    }

    /// The score of the centre.
    pub closed spec fn center(&self) -> u32 {
        self.center_score
    }

    /// The scores of the candidates looked at so far, in pattern order.
    pub closed spec fn seen(&self) -> Seq<u32> {
        self.scores@
    }

    /// The best candidate so far; `None` stands for the centre.
    pub closed spec fn leader(&self) -> Option<usize> {
        self.best
    }

    /// The best score so far.
    pub closed spec fn leader_score(&self) -> u32 {
        self.best_score
    }

    /// The leader is the best of what was seen, and no more was seen than
    /// the pattern holds.
    pub open spec fn wf(&self) -> bool {
        &&& self.seen().len() <= PATTERN_LEN
        &&& is_best(self.center(), self.seen(), self.leader(), self.leader_score())
        &&& self.leader_score() == running_best(self.center(), self.seen())
    }

    /// Whether another candidate is to be scored.
    pub open spec fn pending(&self) -> bool {
        self.leader_score() != self.budget() && self.seen().len() < PATTERN_LEN
    }

    /// Starts a search around a centre with this score.
    pub fn new(center_score: u32, max_iter: u32) -> (search: Self)
        ensures
            search.wf(),
            search.budget() == max_iter,
            search.center() == center_score,
            search.seen() == Seq::<u32>::empty(),
            search.leader() == None::<usize>,
            search.leader_score() == center_score,
    {
        ReferenceSearch {
            max_iter,
            center_score,
            scores: Vec::new(),
            best: None,
            best_score: center_score,
        }
    }

    /// The candidate to score next, by its place in the pattern; `None` when
    /// the search is over.
    pub fn next_candidate(&self) -> (r: Option<usize>)
        ensures
            self.pending() ==> r == Some(self.seen().len() as usize),
            !self.pending() ==> r.is_none(),
    {
        if self.best_score != self.max_iter && self.scores.len() < PATTERN_LEN {
            Some(self.scores.len())
        } else {
            None
        }
    }

    /// Takes the score of the candidate that was asked for. Once the search
    /// is over, a score changes nothing.
    pub fn record(&mut self, score: u32)
        requires
            old(self).wf(),
        ensures
            final(self).wf(),
            final(self).budget() == old(self).budget(),
            final(self).center() == old(self).center(),
            old(self).pending() ==> final(self).seen() == old(self).seen().push(score),
            !old(self).pending() ==> final(self).seen() == old(self).seen() && final(self).leader()
                == old(self).leader(),
    {
        if self.best_score != self.max_iter && self.scores.len() < PATTERN_LEN {
            let index = self.scores.len();
            self.scores.push(score);
            assert(self.scores@.drop_last() =~= old(self).scores@);
            if score > self.best_score {
                self.best_score = score;
                self.best = Some(index);
            }
        }
    }

    /// The best point found, `None` standing for the centre, and its score,
    /// which is never lower than the centre's.
    pub fn outcome(&self) -> (r: (Option<usize>, u32))
        requires
            self.wf(),
        ensures
            r.0 == self.leader(),
            r.1 == self.leader_score(),
            r.1 >= self.center(),
            is_best(self.center(), self.seen(), r.0, r.1),
    {
        (self.best, self.best_score)
    }
}

/// The search over candidate scores that were taken beforehand: runs a
/// [`ReferenceSearch`] over them. Returns the best point, `None` standing
/// for the centre, its score, and how many candidates were looked at.
pub fn find_best_reference(center_score: u32, scores: &Vec<u32>, max_iter: u32) -> (r: (
    Option<usize>,
    u32,
    usize,
))
    ensures
        r.2 == consulted(center_score, scores@, max_iter),
        r.2 <= PATTERN_LEN && r.2 <= scores@.len(),
        is_best(center_score, scores@.take(r.2 as int), r.0, r.1),
        r.1 == running_best(center_score, scores@.take(r.2 as int)),
        r.1 >= center_score,
        center_score == max_iter ==> r == (None::<usize>, center_score, 0usize),
{
    let mut search = ReferenceSearch::new(center_score, max_iter);
    let mut i: usize = 0;
    assert(scores@.take(0) =~= Seq::<u32>::empty());
    while i < scores.len() && search.next_candidate().is_some()
        invariant
            search.wf(),
            search.budget() == max_iter,
            search.center() == center_score,
            i <= scores.len(),
            search.seen() == scores@.take(i as int),
            consulted_from(center_score, scores@, i as nat, max_iter) == consulted(
                center_score,
                scores@,
                max_iter,
            ),
        decreases scores.len() - i,
    {
        search.record(scores[i]);
        assert(scores@.take(i as int).push(scores@[i as int]) =~= scores@.take(i + 1));
        i += 1;
    }
    let (best, best_score) = search.outcome();
    (best, best_score, i)
}

/// The best score of a search is never lower than the centre's own.
pub proof fn best_not_below_center(center_score: u32, scores: Seq<u32>)
    ensures
        running_best(center_score, scores) >= center_score,
    decreases scores.len(),
{
    if scores.len() > 0 {
        best_not_below_center(center_score, scores.drop_last());
    }
}

} // verus!
