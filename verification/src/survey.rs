use vstd::prelude::*;

verus! {

use crate::outcome::ValidationOutcome;

/// How many draws of `s` repeat a value already drawn earlier: each
/// position whose value occurs at a strictly earlier position counts once.
pub open spec fn dup_count(s: Seq<u64>) -> nat
    decreases s.len(),
{
    if s.len() == 0 {
        0
    } else {
        dup_count(s.drop_last()) + if s.drop_last().contains(s.last()) {
            1nat
        } else {
            0nat
        }
    }
}

/// How many draws of `s` introduce a value not drawn before: the number of
/// distinct values in `s`.
pub open spec fn uniq_count(s: Seq<u64>) -> nat
    decreases s.len(),
{
    if s.len() == 0 {
        0
    } else {
        uniq_count(s.drop_last()) + if s.drop_last().contains(s.last()) {
            0nat
        } else {
            1nat
        }
    }
}

/// Partitioning a draw sequence by equality is exhaustive: every draw is
/// either a duplicate of an earlier one or the first of its value, so the
/// two counts always sum to the number of draws.
pub proof fn lemma_survey_partition(s: Seq<u64>)
    ensures
        dup_count(s) + uniq_count(s) == s.len(),
    decreases s.len(),
{
    if s.len() > 0 {
        lemma_survey_partition(s.drop_last());
    }
}

/// The first draw of a non-empty sequence is never a duplicate, so the
/// duplicate rate `dup_count(s) / s.len()` always lies in `[0, 1)`.
pub proof fn lemma_duplicate_rate_bounded(s: Seq<u64>)
    requires
        s.len() >= 1,
    ensures
        dup_count(s) < s.len(),
    decreases s.len(),
{
    if s.len() == 1 {
        assert(s.drop_last().len() == 0);
        assert(!s.drop_last().contains(s.last()));
    } else {
        lemma_duplicate_rate_bounded(s.drop_last());
    }
}

/// One in-progress duplicate survey: draws are handed in one at a time and
/// partitioned by equality against everything drawn earlier in the same
/// run. Duplicates are informational only — a survey never fails.
pub struct Survey {
    /// The fixed draw budget of this run.
    pub iterations: usize,
    /// How many draws have been handed in so far.
    pub drawn: usize,
    /// How many draws repeated an earlier value.
    pub duplicates: usize,
    /// The distinct values drawn so far, in first-seen order.
    pub seen: Vec<u64>,
    /// The full draw history of this run, oldest first.
    pub history: Ghost<Seq<u64>>,
}

impl Survey {
    /// The state faithfully accounts for its draw history.
    pub open spec fn wf(self) -> bool {
        &&& self.iterations >= 1
        &&& self.drawn == self.history@.len()
        &&& self.drawn <= self.iterations
        &&& self.duplicates == dup_count(self.history@)
        &&& self.seen@.len() == uniq_count(self.history@)
        &&& forall|x: u64| #[trigger] self.seen@.contains(x) <==> self.history@.contains(x)
    }

    /// All draws of the budget have been handed in.
    pub open spec fn complete(self) -> bool {
        self.drawn == self.iterations
    }

    /// Starts a survey over `iterations` draws.
    pub fn new(iterations: usize) -> (s: Survey)
        requires
            iterations >= 1,
        ensures
            s.wf(),
            s.iterations == iterations,
            s.drawn == 0,
            s.history@ == Seq::<u64>::empty(),
    {
        Survey {
            iterations,
            drawn: 0,
            duplicates: 0,
            seen: Vec::new(),
            history: Ghost(Seq::empty()),
        }
    }

    /// Accounts for one more draw: a value equal to an earlier draw of this
    /// run raises the duplicate count, a new value joins the seen set.
    pub fn step(&mut self, value: u64)
        requires
            old(self).wf(),
            !old(self).complete(),
        ensures
            final(self).wf(),
            final(self).history@ == old(self).history@.push(value),
            final(self).iterations == old(self).iterations,
            final(self).drawn == old(self).drawn + 1,
    {
        proof {
            lemma_survey_partition(old(self).history@);
        }
        let ghost h = self.history@;
        let ghost sn = self.seen@;
        let present = contains_value(&self.seen, value);
        if present {
            self.duplicates = self.duplicates + 1;
        } else {
            self.seen.push(value);
        }
        self.drawn = self.drawn + 1;
        self.history = Ghost(self.history@.push(value));
        proof {
            let h2 = self.history@;
            let sn2 = self.seen@;
            assert(h2.drop_last() =~= h);
            assert(h2.last() == value);
            assert forall|x: u64| h2.contains(x) implies (h.contains(x) || x == value) by {
                let i = choose|i: int| 0 <= i < h2.len() && h2[i] == x;
                if i < h.len() {
                    assert(h[i] == x);
                }
            }
            assert forall|x: u64| h.contains(x) implies h2.contains(x) by {
                let i = choose|i: int| 0 <= i < h.len() && h[i] == x;
                assert(h2[i] == x);
            }
            assert(h2[h.len() as int] == value);
            assert(h2.contains(value));
            if !present {
                assert(sn2 == sn.push(value));
                assert forall|x: u64| sn2.contains(x) implies (sn.contains(x) || x
                    == value) by {
                    let i = choose|i: int| 0 <= i < sn2.len() && sn2[i] == x;
                    if i < sn.len() {
                        assert(sn[i] == x);
                    }
                }
                assert forall|x: u64| sn.contains(x) implies sn2.contains(x) by {
                    let i = choose|i: int| 0 <= i < sn.len() && sn[i] == x;
                    assert(sn2[i] == x);
                }
                assert(sn2[sn.len() as int] == value);
                assert(sn2.contains(value));
            }
            assert forall|x: u64| #[trigger] sn2.contains(x) <==> h2.contains(x) by {
                if sn2.contains(x) {
                    assert(h2.contains(x));
                }
                if h2.contains(x) {
                    assert(sn.contains(x) || x == value);
                    assert(sn2.contains(x));
                }
            }
        }
    }

    /// Reports the completed run. A survey always succeeds: duplicates occur
    /// at a predictable birthday-paradox rate and do not indicate a broken
    /// source on their own.
    pub fn outcome(&self) -> (o: ValidationOutcome)
        requires
            self.wf(),
            self.complete(),
        ensures
            o == (ValidationOutcome::Survey {
                duplicates: self.duplicates,
                unique: (self.iterations - self.duplicates) as usize,
                iterations: self.iterations,
            }),
            o.success_spec(),
    {
        proof {
            lemma_survey_partition(self.history@);
        }
        ValidationOutcome::Survey {
            duplicates: self.duplicates,
            unique: self.seen.len(),
            iterations: self.iterations,
        }
    }
}

/// Whether `v` holds `value`, by linear search.
fn contains_value(v: &Vec<u64>, value: u64) -> (r: bool)
    ensures
        r == v@.contains(value),
{
    let mut i: usize = 0;
    while i < v.len()
        invariant
            0 <= i <= v@.len(),
            forall|k: int| 0 <= k < i ==> v@[k] != value,
        decreases v@.len() - i,
    {
        if v[i] == value {
            return true;
        }
        i = i + 1;
    }
    false
}

/// The survey's accounting is a function of the draw sequence alone: two
/// runs over the same draws report the same duplicate and unique counts,
/// whatever word width produced the values — only the displayed nibble
/// count differs between widths.
pub proof fn lemma_survey_width_independent(a: Survey, b: Survey)
    requires
        a.wf(),
        b.wf(),
        a.history@ == b.history@,
    ensures
        a.duplicates == b.duplicates,
        a.seen@.len() == b.seen@.len(),
{
}

} // verus!
