//! Containment voting: choosing, among several detection passes, the
//! candidate box that the other passes corroborate most.

use vstd::prelude::*;
use crate::geometry::Rect;

verus! {

/// Number of detection passes collected before the vote is taken.
pub const HISTORY_CAPACITY: usize = 5;

/// Every box of the sample is well formed.
pub open spec fn sample_wf(sample: Seq<Rect>) -> bool {
    forall|k: int| 0 <= k < sample.len() ==> (#[trigger] sample[k]).wf()
}

/// Whether every box of the sample is well formed.
pub fn sample_is_well_formed(sample: &Vec<Rect>) -> (b: bool)
    ensures
        b == sample_wf(sample@),
{
    let mut k: usize = 0;
    while k < sample.len()
        invariant
            k <= sample.len(),
            forall|m: int| 0 <= m < k ==> (#[trigger] sample@[m]).wf(),
        decreases sample.len() - k,
    {
        if !sample[k].is_well_formed() {
            return false;
        }
        k += 1;
    }
    true
}

/// Some candidate of `sample` has its center inside `candidate`.
pub open spec fn sample_supports(sample: Seq<Rect>, candidate: Rect) -> bool {
    exists|k: int| 0 <= k < sample.len() && candidate.contains_center_of(&#[trigger] sample[k])
}

/// How many of the first `n` samples, the sample `own` left aside, support
/// `candidate`.
pub open spec fn support_among(samples: Seq<Seq<Rect>>, own: int, candidate: Rect, n: int) -> nat
    decreases n,
{
    if n <= 0 {
        0
    } else {
        let rest = support_among(samples, own, candidate, n - 1);
        if n - 1 != own && sample_supports(samples[n - 1], candidate) {
            rest + 1
        } else {
            rest
        }
    }
}

/// `(i, j)` names a candidate: box `j` of sample `i`.
pub open spec fn is_candidate(samples: Seq<Seq<Rect>>, i: int, j: int) -> bool {
    0 <= i < samples.len() && 0 <= j < samples[i].len()
}

/// The number of other samples that support candidate `(i, j)`.
pub open spec fn support(samples: Seq<Seq<Rect>>, i: int, j: int) -> nat {
    support_among(samples, i, samples[i][j], samples.len() as int)
}

/// Candidate `(a, b)` comes before `(i, j)` in collection order.
pub open spec fn precedes(a: int, b: int, i: int, j: int) -> bool {
    a < i || (a == i && b < j)
}

/// Candidate `(i, j)` wins the vote: no candidate has more support, and
/// every candidate collected before it has strictly less.
pub open spec fn is_winner(samples: Seq<Seq<Rect>>, i: int, j: int) -> bool {
    &&& is_candidate(samples, i, j)
    &&& forall|a: int, b: int| #[trigger]
        is_candidate(samples, a, b) ==> {
            &&& support(samples, a, b) <= support(samples, i, j)
            &&& precedes(a, b, i, j) ==> support(samples, a, b) < support(samples, i, j)
        }
}

/// The index of the winning candidate, if the samples hold any candidate.
pub open spec fn winning_index(samples: Seq<Seq<Rect>>) -> Option<(int, int)> {
    if exists|i: int, j: int| is_winner(samples, i, j) {
        Some(choose|i: int, j: int| is_winner(samples, i, j))
    } else {
        None
    }
}

/// The winning box, if the samples hold any candidate.
pub open spec fn winning_box(samples: Seq<Seq<Rect>>) -> Option<Rect> {
    match winning_index(samples) {
        Some((i, j)) => Some(samples[i][j]),
        None => None,
    }
}

/// The vote has at most one winner.
pub proof fn lemma_winner_unique(samples: Seq<Seq<Rect>>, i: int, j: int, a: int, b: int)
    requires
        is_winner(samples, i, j),
        is_winner(samples, a, b),
    ensures
        i == a,
        j == b,
{
    assert(is_candidate(samples, i, j));
    assert(is_candidate(samples, a, b));
    if precedes(a, b, i, j) {
        assert(support(samples, a, b) < support(samples, i, j));
        assert(support(samples, i, j) <= support(samples, a, b));
    } else if precedes(i, j, a, b) {
        assert(support(samples, i, j) < support(samples, a, b));
        assert(support(samples, a, b) <= support(samples, i, j));
    }
}

/// The vote is a function of the collected samples: two histories that hold
/// the same samples in the same order have the same winner, at the same place
/// and with the same box.
pub proof fn lemma_vote_deterministic(
    first: Seq<Seq<Rect>>,
    second: Seq<Seq<Rect>>,
    i: int,
    j: int,
    a: int,
    b: int,
)
    requires
        first == second,
        is_winner(first, i, j),
        is_winner(second, a, b),
    ensures
        i == a,
        j == b,
        first[i][j] == second[a][b],
        winning_index(first) == Some((i, j)),
        winning_index(second) == Some((i, j)),
        winning_box(first) == winning_box(second),
{
    lemma_winner_unique(first, i, j, a, b);
    lemma_winner_is_chosen(first, i, j);
}

/// A winner is the one that `winning_index` names.
pub proof fn lemma_winner_is_chosen(samples: Seq<Seq<Rect>>, i: int, j: int)
    requires
        is_winner(samples, i, j),
    ensures
        winning_index(samples) == Some((i, j)),
        winning_box(samples) == Some(samples[i][j]),
{
    let (a, b) = choose|a: int, b: int| is_winner(samples, a, b);
    lemma_winner_unique(samples, i, j, a, b);
}

/// A candidate with strictly more support than every other candidate wins,
/// wherever in the collection order it stands.
pub proof fn lemma_strict_maximum_wins(samples: Seq<Seq<Rect>>, i: int, j: int)
    requires
        is_candidate(samples, i, j),
        forall|a: int, b: int| #[trigger]
            is_candidate(samples, a, b) && !(a == i && b == j) ==> support(samples, a, b)
                < support(samples, i, j),
    ensures
        is_winner(samples, i, j),
        winning_box(samples) == Some(samples[i][j]),
{
    assert forall|a: int, b: int| #[trigger] is_candidate(samples, a, b) implies {
        &&& support(samples, a, b) <= support(samples, i, j)
        &&& precedes(a, b, i, j) ==> support(samples, a, b) < support(samples, i, j)
    } by {
        if a == i && b == j {
        }
    }
    lemma_winner_is_chosen(samples, i, j);
}

/// How many of the first `n` samples are not the sample `own`.
pub open spec fn others(own: int, n: int) -> int {
    if 0 <= own < n {
        n - 1
    } else {
        n
    }
}

/// The support of a candidate never exceeds the number of other samples.
/// It reaches that number exactly when every other sample supports the
/// candidate.
pub proof fn lemma_support_bounded(samples: Seq<Seq<Rect>>, own: int, candidate: Rect, n: int)
    requires
        0 <= n,
    ensures
        support_among(samples, own, candidate, n) <= n,
        0 <= own < n ==> support_among(samples, own, candidate, n) <= n - 1,
        (forall|t: int|
            0 <= t < n && t != own ==> sample_supports(#[trigger] samples[t], candidate))
            ==> support_among(samples, own, candidate, n) == others(own, n),
        (exists|t: int|
            0 <= t < n && t != own && !sample_supports(#[trigger] samples[t], candidate))
            ==> support_among(samples, own, candidate, n) < others(own, n),
    decreases n,
{
    if n > 0 {
        lemma_support_bounded(samples, own, candidate, n - 1);
        if exists|t: int|
            0 <= t < n && t != own && !sample_supports(#[trigger] samples[t], candidate) {
            let t = choose|t: int|
                0 <= t < n && t != own && !sample_supports(#[trigger] samples[t], candidate);
            if t < n - 1 {
                assert(0 <= t < n - 1 && t != own && !sample_supports(samples[t], candidate));
            }
        }
    }
}

/// A candidate that every other sample supports wins the vote, wherever it
/// stands in the collection order, provided each other candidate is left
/// unsupported by at least one sample other than its own.
pub proof fn lemma_unanimous_candidate_wins(samples: Seq<Seq<Rect>>, i: int, j: int)
    requires
        is_candidate(samples, i, j),
        forall|t: int|
            0 <= t < samples.len() && t != i ==> sample_supports(
                #[trigger] samples[t],
                samples[i][j],
            ),
        forall|a: int, b: int| #[trigger]
            is_candidate(samples, a, b) && !(a == i && b == j) ==> exists|t: int|
                0 <= t < samples.len() && t != a && !sample_supports(
                    #[trigger] samples[t],
                    samples[a][b],
                ),
    ensures
        support(samples, i, j) == samples.len() - 1,
        is_winner(samples, i, j),
        winning_box(samples) == Some(samples[i][j]),
{
    let n = samples.len() as int;
    lemma_support_bounded(samples, i, samples[i][j], n);
    assert forall|a: int, b: int| #[trigger]
        is_candidate(samples, a, b) && !(a == i && b == j) implies support(samples, a, b) < support(
        samples,
        i,
        j,
    ) by {
        lemma_support_bounded(samples, a, samples[a][b], n);
    }
    lemma_strict_maximum_wins(samples, i, j);
}

/// Among the candidates up to and including `(i, j)`, the earliest one with
/// the most support.
proof fn lemma_prefix_winner(samples: Seq<Seq<Rect>>, i: int, j: int) -> (w: (int, int))
    requires
        is_candidate(samples, i, j),
        forall|t: int| 0 <= t < samples.len() ==> (#[trigger] samples[t]).len() > 0,
    ensures
        is_candidate(samples, w.0, w.1),
        !precedes(i, j, w.0, w.1),
        forall|a: int, b: int| #[trigger]
            is_candidate(samples, a, b) && !precedes(i, j, a, b) ==> {
                &&& support(samples, a, b) <= support(samples, w.0, w.1)
                &&& precedes(a, b, w.0, w.1) ==> support(samples, a, b) < support(
                    samples,
                    w.0,
                    w.1,
                )
            },
    decreases i, j,
{
    if i == 0 && j == 0 {
        (0, 0)
    } else {
        let (pi, pj) = if j > 0 {
            (i, j - 1)
        } else {
            (i - 1, samples[i - 1].len() - 1)
        };
        assert(is_candidate(samples, pi, pj));
        let prev = lemma_prefix_winner(samples, pi, pj);
        let w = if support(samples, i, j) > support(samples, prev.0, prev.1) {
            (i, j)
        } else {
            prev
        };
        assert forall|a: int, b: int| #[trigger]
            is_candidate(samples, a, b) && !precedes(i, j, a, b) implies {
            &&& support(samples, a, b) <= support(samples, w.0, w.1)
            &&& precedes(a, b, w.0, w.1) ==> support(samples, a, b) < support(samples, w.0, w.1)
        } by {
            if !(a == i && b == j) {
                assert(!precedes(pi, pj, a, b));
            }
        }
        w
    }
}

/// Where every sample holds a candidate there is a winner, and its box is
/// one of the collected boxes.
pub proof fn lemma_winner_exists(samples: Seq<Seq<Rect>>)
    requires
        samples.len() > 0,
        forall|t: int| 0 <= t < samples.len() ==> (#[trigger] samples[t]).len() > 0,
    ensures
        winning_index(samples) matches Some((i, j)) && is_winner(samples, i, j),
        winning_box(samples).is_some(),
        (forall|t: int| 0 <= t < samples.len() ==> sample_wf(#[trigger] samples[t]))
            ==> winning_box(samples).unwrap().wf(),
{
    let last_i = samples.len() - 1;
    let last_j = samples[last_i].len() - 1;
    assert(is_candidate(samples, last_i, last_j));
    let w = lemma_prefix_winner(samples, last_i, last_j);
    assert forall|a: int, b: int| #[trigger] is_candidate(samples, a, b) implies {
        &&& support(samples, a, b) <= support(samples, w.0, w.1)
        &&& precedes(a, b, w.0, w.1) ==> support(samples, a, b) < support(samples, w.0, w.1)
    } by {
        assert(!precedes(last_i, last_j, a, b));
    }
    assert(is_winner(samples, w.0, w.1));
    lemma_winner_is_chosen(samples, w.0, w.1);
    if forall|t: int| 0 <= t < samples.len() ==> sample_wf(#[trigger] samples[t]) {
        assert(sample_wf(samples[w.0]));
    }
}

/// The candidate boxes of the detection passes made so far, oldest first.
#[derive(Debug)]
pub struct DetectionHistory {
    samples: Vec<Vec<Rect>>,
}

impl View for DetectionHistory {
    type V = Seq<Seq<Rect>>;

    closed spec fn view(&self) -> Seq<Seq<Rect>> {
        Seq::new(self.samples@.len(), |i: int| self.samples@[i]@)
    }
}

impl DetectionHistory {
    /// At most `HISTORY_CAPACITY` samples, none of them empty, all boxes
    /// well formed.
    pub open spec fn wf(&self) -> bool {
        &&& self@.len() <= HISTORY_CAPACITY
        &&& forall|i: int|
            0 <= i < self@.len() ==> (#[trigger] self@[i]).len() > 0 && sample_wf(self@[i])
    }

    /// The history holds as many samples as the vote needs.
    pub open spec fn full(&self) -> bool {
        self@.len() >= HISTORY_CAPACITY
    }

    /// A history without samples.
    pub fn new() -> (h: DetectionHistory)
        ensures
            h@ == Seq::<Seq<Rect>>::empty(),
            h.wf(),
            !h.full(),
    {
        let h = DetectionHistory { samples: Vec::new() };
        assert(h@ =~= Seq::<Seq<Rect>>::empty());
        h
    }

    /// Number of samples collected.
    pub fn len(&self) -> (n: usize)
        ensures
            n == self@.len(),
    {
        self.samples.len()
    }

    /// The candidates of sample `i`, if there is such a sample.
    pub fn sample(&self, i: usize) -> (candidates: Option<&Vec<Rect>>)
        ensures
            candidates.is_some() == (i < self@.len()),
            candidates matches Some(c) ==> c@ == self@[i as int],
    {
        if i < self.samples.len() {
            Some(&self.samples[i])
        } else {
            None
        }
    }

    /// Whether the vote can be taken.
    pub fn is_full(&self) -> (b: bool)
        ensures
            b == self.full(),
    {
        self.samples.len() >= HISTORY_CAPACITY
    }

    /// Appends the candidates of one detection pass. A pass without
    /// candidates is not a sample, and a full history takes no more: in both
    /// cases nothing changes.
    pub fn record(&mut self, sample: Vec<Rect>) -> (recorded: bool)
        requires
            old(self).wf(),
            sample_wf(sample@),
        ensures
            recorded == (!old(self).full() && sample@.len() > 0),
            recorded ==> final(self)@ == old(self)@.push(sample@),
            !recorded ==> final(self)@ == old(self)@,
            final(self).wf(),
    {
        if self.samples.len() >= HISTORY_CAPACITY || sample.len() == 0 {
            false
        } else {
            let ghost before = self@;
            let ghost added = sample@;
            self.samples.push(sample);
            assert(self@ =~= before.push(added));
            true
        }
    }

    /// Whether some box of sample `t` has its center inside `candidate`.
    fn sample_holds(&self, t: usize, candidate: &Rect) -> (b: bool)
        requires
            self.wf(),
            candidate.wf(),
            t < self@.len(),
        ensures
            b == sample_supports(self@[t as int], *candidate),
    {
        let sample = &self.samples[t];
        assert(sample@ == self@[t as int]);
        let mut k: usize = 0;
        while k < sample.len()
            invariant
                k <= sample.len(),
                candidate.wf(),
                sample_wf(sample@),
                t < self@.len(),
                sample@ == self@[t as int],
                forall|m: int| 0 <= m < k ==> !candidate.contains_center_of(&#[trigger] sample@[m]),
            decreases sample.len() - k,
        {
            if candidate.holds_center_of(&sample[k]) {
                assert(candidate.contains_center_of(&sample@[k as int]));
                return true;
            }
            k += 1;
        }
        false
    }

    /// Counts the samples other than `i` that support candidate `(i, j)`.
    pub fn count_support(&self, i: usize, j: usize) -> (count: usize)
        requires
            self.wf(),
            is_candidate(self@, i as int, j as int),
        ensures
            count == support(self@, i as int, j as int),
    {
        let candidate = self.samples[i][j];
        assert(candidate == self@[i as int][j as int]);
        assert(sample_wf(self@[i as int]));
        let n = self.samples.len();
        let mut count: usize = 0;
        let mut t: usize = 0;
        while t < n
            invariant
                self.wf(),
                candidate.wf(),
                n == self@.len(),
                t <= n,
                count <= t,
                count == support_among(self@, i as int, candidate, t as int),
            decreases n - t,
        {
            if t != i && self.sample_holds(t, &candidate) {
                count += 1;
            }
            t += 1;
        }
        count
    }

    /// The place of the winning candidate, if there is any candidate.
    pub fn winner_index(&self) -> (best: Option<(usize, usize)>)
        requires
            self.wf(),
        ensures
            match best {
                Some((i, j)) => is_winner(self@, i as int, j as int) && winning_index(self@)
                    == Some((i as int, j as int)),
                None => self@.len() == 0 && winning_index(self@) == None::<(int, int)>,
            },
    {
        let n = self.samples.len();
        if n == 0 {
            assert forall|i: int, j: int| !is_winner(self@, i, j) by {}
            return None;
        }
        let mut best_i: usize = 0;
        let mut best_j: usize = 0;
        let mut best_count: usize = self.count_support(0, 0);
        let mut i: usize = 0;
        while i < n
            invariant
                self.wf(),
                n == self@.len(),
                n > 0,
                i <= n,
                is_candidate(self@, best_i as int, best_j as int),
                best_count == support(self@, best_i as int, best_j as int),
                i == 0 ==> best_i == 0 && best_j == 0,
                i > 0 ==> best_i < i,
                forall|a: int, b: int| #[trigger]
                    is_candidate(self@, a, b) && a < i ==> {
                        &&& support(self@, a, b) <= best_count
                        &&& precedes(a, b, best_i as int, best_j as int) ==> support(self@, a, b)
                            < best_count
                    },
            decreases n - i,
        {
            let m = self.samples[i].len();
            assert(m == self@[i as int].len());
            let mut j: usize = 0;
            while j < m
                invariant
                    self.wf(),
                    n == self@.len(),
                    i < n,
                    m == self@[i as int].len(),
                    j <= m,
                    is_candidate(self@, best_i as int, best_j as int),
                    best_count == support(self@, best_i as int, best_j as int),
                    i == 0 && j == 0 ==> best_i == 0 && best_j == 0,
                    precedes(best_i as int, best_j as int, i as int, j as int) || (best_i == i
                        && best_j == j && j == 0 && i == 0),
                    forall|a: int, b: int| #[trigger]
                        is_candidate(self@, a, b) && precedes(a, b, i as int, j as int) ==> {
                            &&& support(self@, a, b) <= best_count
                            &&& precedes(a, b, best_i as int, best_j as int) ==> support(
                                self@,
                                a,
                                b,
                            ) < best_count
                        },
                decreases m - j,
            {
                let count = self.count_support(i, j);
                if count > best_count {
                    best_count = count;
                    best_i = i;
                    best_j = j;
                }
                j += 1;
            }
            i += 1;
        }
        proof {
            assert(is_winner(self@, best_i as int, best_j as int));
            lemma_winner_is_chosen(self@, best_i as int, best_j as int);
        }
        Some((best_i, best_j))
    }

    /// Takes the vote: the candidate box that most other samples support,
    /// the earliest such candidate when several tie.
    pub fn retrieve_best_bounding_box(&self) -> (best: Option<Rect>)
        requires
            self.wf(),
        ensures
            best == winning_box(self@),
            best.is_some() <==> self@.len() > 0,
            best matches Some(b) ==> b.wf(),
    {
        match self.winner_index() {
            Some((i, j)) => {
                assert(sample_wf(self@[i as int]));
                Some(self.samples[i][j])
            },
            None => None,
        }
    }
}

} // verus!
