use vstd::prelude::*;

verus! {

/// The result of one validation run for one word width.
///
/// A duplicate survey always succeeds and reports its accounting; a smoke
/// test either finds a divergent draw (success) or exhausts its budget on
/// one repeated value (failure).
#[derive(Clone, Copy, Debug, PartialEq, Eq, Structural)]
pub enum ValidationOutcome {
    /// A completed duplicate survey: `duplicates + unique == iterations`.
    Survey { duplicates: usize, unique: usize, iterations: usize },
    /// A smoke test that found a draw differing from the first one after
    /// consuming `draws` draws in total.
    SmokeVaried { draws: usize },
    /// A smoke test whose every draw equalled `value`: the source looks
    /// stuck, having produced the value `repeats` times in a row.
    SmokeStuck { value: u64, repeats: usize },
}

impl ValidationOutcome {
    /// Whether this run passed: every survey passes, and a smoke test
    /// passes exactly when it saw the source vary.
    pub open spec fn success_spec(self) -> bool {
        !(self is SmokeStuck)
    }

    pub fn success(&self) -> (r: bool)
        ensures
            r == self.success_spec(),
    {
        !matches!(self, ValidationOutcome::SmokeStuck { .. })
    }
}

} // verus!
