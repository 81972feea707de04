use vstd::prelude::*;

verus! {

use crate::outcome::ValidationOutcome;

/// Whether every draw of `s` equals the first one.
pub open spec fn all_equal_first(s: Seq<u64>) -> bool {
    forall|i: int| 0 <= i < s.len() ==> #[trigger] s[i] == s[0]
}

/// One in-progress stuck-value smoke test: draws are handed in one at a
/// time, each compared against the first draw of the run. The run stops as
/// soon as one draw differs from the first (the source is not stuck), or
/// after `iterations` equal draws (the source looks stuck).
pub struct SmokeTest {
    /// The fixed draw budget of this run.
    pub iterations: usize,
    /// How many draws have been handed in so far.
    pub drawn: usize,
    /// The first draw of the run, meaningful once `drawn >= 1`.
    pub first: u64,
    /// Whether a draw differing from the first has been seen.
    pub diverged: bool,
    /// The full draw history of this run, oldest first.
    pub history: Ghost<Seq<u64>>,
}

impl SmokeTest {
    /// The state faithfully accounts for its draw history.
    pub open spec fn wf(self) -> bool {
        &&& self.iterations >= 2
        &&& self.drawn == self.history@.len()
        &&& self.drawn <= self.iterations
        &&& (self.drawn >= 1 ==> self.first == self.history@[0])
        &&& (self.diverged <==> !all_equal_first(self.history@))
        &&& (self.diverged ==> self.drawn >= 2 && self.history@.last() != self.history@[0]
            && all_equal_first(self.history@.drop_last()))
    }

    /// The run is over: it must not consume any further draw. This is the
    /// short-circuit condition — one divergent draw ends the run at once.
    pub open spec fn done_spec(self) -> bool {
        self.diverged || self.drawn == self.iterations
    }

    /// Starts a smoke test over at most `iterations` draws. A single draw
    /// can never demonstrate "not stuck", hence the minimum of two.
    pub fn new(iterations: usize) -> (s: SmokeTest)
        requires
            iterations >= 2,
        ensures
            s.wf(),
            s.iterations == iterations,
            s.drawn == 0,
            s.history@ == Seq::<u64>::empty(),
            !s.done_spec(),
    {
        SmokeTest { iterations, drawn: 0, first: 0, diverged: false, history: Ghost(Seq::empty()) }
    }

    /// Accounts for one more draw, comparing it against the first draw of
    /// the run.
    pub fn step(&mut self, value: u64)
        requires
            old(self).wf(),
            !old(self).done_spec(),
        ensures
            final(self).wf(),
            final(self).history@ == old(self).history@.push(value),
            final(self).iterations == old(self).iterations,
            final(self).drawn == old(self).drawn + 1,
    {
        let ghost h = self.history@;
        if self.drawn == 0 {
            self.first = value;
        } else if value != self.first {
            self.diverged = true;
        }
        self.drawn = self.drawn + 1;
        self.history = Ghost(self.history@.push(value));
        proof {
            let h2 = self.history@;
            assert(h2[h.len() as int] == value);
            assert forall|i: int| 0 <= i < h.len() implies h2[i] == h[i] by {}
            if self.diverged {
                assert(!all_equal_first(h2)) by {
                    if old(self).diverged {
                        let i = choose|i: int| 0 <= i < h.len() && #[trigger] h[i] != h[0];
                        assert(h2[i] != h2[0]);
                    } else {
                        assert(h2[h.len() as int] != h2[0]);
                    }
                }
            } else {
                assert(all_equal_first(h2));
            }
        }
    }

    /// Whether the run is over. True as soon as a divergent draw is seen,
    /// so a caller that stops on `done` never consumes more draws than
    /// necessary to find the first divergence.
    pub fn done(&self) -> (r: bool)
        ensures
            r == self.done_spec(),
    {
        self.diverged || self.drawn == self.iterations
    }

    /// Reports the finished run: success with the number of draws consumed
    /// if the source varied, otherwise the repeated value and how many
    /// times in a row it was drawn (the whole budget).
    pub fn outcome(&self) -> (o: ValidationOutcome)
        requires
            self.wf(),
            self.done_spec(),
        ensures
            self.diverged ==> o == (ValidationOutcome::SmokeVaried { draws: self.drawn }),
            !self.diverged ==> o == (ValidationOutcome::SmokeStuck {
                value: self.first,
                repeats: self.iterations,
            }),
            o.success_spec() == self.diverged,
    {
        if self.diverged {
            ValidationOutcome::SmokeVaried { draws: self.drawn }
        } else {
            ValidationOutcome::SmokeStuck { value: self.first, repeats: self.iterations }
        }
    }
}

/// The short-circuit law: whenever the draw history holds any draw that
/// differs from the first one, the run is already done — it will not ask
/// for another draw.
pub proof fn lemma_smoke_short_circuit(s: SmokeTest)
    requires
        s.wf(),
    ensures
        (exists|i: int| 0 <= i < s.history@.len() && #[trigger] s.history@[i] != s.history@[0])
            ==> s.done_spec(),
{
}

/// The minimality law: a run that observed a divergence stopped on the
/// divergent draw itself — every earlier draw equalled the first, so no
/// more draws were consumed than were necessary to find the first
/// divergence.
pub proof fn lemma_smoke_minimal_draws(s: SmokeTest)
    requires
        s.wf(),
        s.diverged,
    ensures
        s.drawn >= 2,
        s.history@.last() != s.history@[0],
        all_equal_first(s.history@.drop_last()),
{
}

/// The stuck-source law: a finished run whose draws all equalled the first
/// one has consumed its whole budget, reports the repeated value, and
/// fails.
pub proof fn lemma_smoke_stuck(s: SmokeTest)
    requires
        s.wf(),
        s.done_spec(),
        all_equal_first(s.history@),
    ensures
        !s.diverged,
        s.drawn == s.iterations,
        s.drawn >= 1 ==> s.first == s.history@[0],
{
}

} // verus!
