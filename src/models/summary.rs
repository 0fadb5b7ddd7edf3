//! Counting over probe outcomes and endpoint grades.
use vstd::prelude::*;

verus! {

/// Number of `true` entries in `s`.
pub open spec fn count_true(s: Seq<bool>) -> nat
    decreases s.len(),
{
    if s.len() == 0 {
        0
    } else {
        count_true(s.drop_last()) + if s.last() {
            1nat
        } else {
            0nat
        }
    }
}

/// Number of grades in `s` that are one of `a` or `b`.
pub open spec fn count_grades(s: Seq<char>, a: char, b: char) -> nat
    decreases s.len(),
{
    if s.len() == 0 {
        0
    } else {
        count_grades(s.drop_last(), a, b) + if s.last() == a || s.last() == b {
            1nat
        } else {
            0nat
        }
    }
}

proof fn lemma_count_true_bound(s: Seq<bool>)
    ensures
        count_true(s) <= s.len(),
    decreases s.len(),
{
    if s.len() > 0 {
        lemma_count_true_bound(s.drop_last());
    }
}

proof fn lemma_count_grades_bound(s: Seq<char>, a: char, b: char)
    ensures
        count_grades(s, a, b) <= s.len(),
    decreases s.len(),
{
    if s.len() > 0 {
        lemma_count_grades_bound(s.drop_last(), a, b);
    }
}

/// Number of successful probes among the outcomes `success`.
pub fn count_successes(success: &[bool]) -> (r: usize)
    ensures
        r == count_true(success@),
{
    let mut n: usize = 0;
    let mut i: usize = 0;
    while i < success.len()
        invariant
            i <= success@.len(),
            n == count_true(success@.subrange(0, i as int)),
        decreases success@.len() - i,
    {
        proof {
            let s = success@.subrange(0, i as int + 1);
            assert(s.drop_last() =~= success@.subrange(0, i as int));
            lemma_count_true_bound(success@.subrange(0, i as int));
        }
        if success[i] {
            n = n + 1;
        }
        i = i + 1;
    }
    assert(success@.subrange(0, i as int) =~= success@);
    n
}

/// Number of failed probes among the `last_n` most recent outcomes;
/// `newest_first` lists the outcomes from the most recent back.
pub fn count_recent_failures(newest_first: &[bool], last_n: usize) -> (r: usize)
    ensures
        ({
            let k = if last_n < newest_first@.len() {
                last_n as int
            } else {
                newest_first@.len() as int
            };
            let taken = newest_first@.subrange(0, k);
            r == k - count_true(taken)
        }),
{
    let k: usize = if last_n < newest_first.len() {
        last_n
    } else {
        newest_first.len()
    };
    let mut failures: usize = 0;
    let mut i: usize = 0;
    while i < k
        invariant
            k <= newest_first@.len(),
            i <= k,
            failures == i - count_true(newest_first@.subrange(0, i as int)),
        decreases k - i,
    {
        proof {
            let s = newest_first@.subrange(0, i as int + 1);
            assert(s.drop_last() =~= newest_first@.subrange(0, i as int));
            lemma_count_true_bound(newest_first@.subrange(0, i as int));
        }
        if !newest_first[i] {
            failures = failures + 1;
        }
        i = i + 1;
    }
    failures
}

/// High-level health summary across all monitored endpoints.
#[derive(Debug, Clone, Copy, PartialEq, Eq, Structural)]
pub struct AggregatorSummary {
    pub total_endpoints: usize,
    pub healthy_endpoints: usize,
    pub degraded_endpoints: usize,
    pub failed_endpoints: usize,
}

impl AggregatorSummary {
    /// The summary of endpoints with the given letter grades: A and B are
    /// healthy, C and D degraded, F failed.
    pub fn from_grades(grades: &[char]) -> (r: Self)
        ensures
            r.total_endpoints == grades@.len(),
            r.healthy_endpoints == count_grades(grades@, 'A', 'B'),
            r.degraded_endpoints == count_grades(grades@, 'C', 'D'),
            r.failed_endpoints == count_grades(grades@, 'F', 'F'),
    {
        let mut healthy: usize = 0;
        let mut degraded: usize = 0;
        let mut failed: usize = 0;
        let mut i: usize = 0;
        while i < grades.len()
            invariant
                i <= grades@.len(),
                healthy == count_grades(grades@.subrange(0, i as int), 'A', 'B'),
                degraded == count_grades(grades@.subrange(0, i as int), 'C', 'D'),
                failed == count_grades(grades@.subrange(0, i as int), 'F', 'F'),
            decreases grades@.len() - i,
        {
            proof {
                let p = grades@.subrange(0, i as int);
                assert(grades@.subrange(0, i as int + 1).drop_last() =~= p);
                lemma_count_grades_bound(p, 'A', 'B');
                lemma_count_grades_bound(p, 'C', 'D');
                lemma_count_grades_bound(p, 'F', 'F');
            }
            let g = grades[i];
            if g == 'A' || g == 'B' {
                healthy = healthy + 1;
            } else if g == 'C' || g == 'D' {
                degraded = degraded + 1;
            } else if g == 'F' {
                failed = failed + 1;
            }
            i = i + 1;
        }
        assert(grades@.subrange(0, i as int) =~= grades@);
        AggregatorSummary {
            total_endpoints: grades.len(),
            healthy_endpoints: healthy,
            degraded_endpoints: degraded,
            failed_endpoints: failed,
        }
    }
}

} // verus!
