use vstd::prelude::*;

verus! {

use crate::error::Error;
use crate::smoke::SmokeTest;
use crate::survey::Survey;

/// The bit of the feature register, returned by the CPU identification
/// query at leaf 1, that reports the hardware random instruction.
pub const CPUID_RDRAND_BIT: usize = 30;

/// Whether the CPU identification registers report support for the
/// hardware random instruction: the extended leaf must be available
/// (`max_leaf >= 1`) and the feature bit must be set in `ecx`.
pub open spec fn cpuid_reports_rdrand(max_leaf: u32, ecx: u32) -> bool {
    max_leaf >= 1 && (ecx >> CPUID_RDRAND_BIT as u32) & 1 == 1
}

/// Decides capability from the raw CPU identification registers: the
/// caller performs the query and hands the two register values in.
pub fn rdrand_supported(max_leaf: u32, ecx: u32) -> (r: bool)
    ensures
        r == cpuid_reports_rdrand(max_leaf, ecx),
{
    max_leaf >= 1 && (ecx >> 30u32) & 1 == 1
}

/// The configuration of one validation run: whether per-value display is
/// suppressed, and whether the short stuck-value smoke test replaces the
/// full duplicate survey.
#[derive(Clone, Copy, Debug, PartialEq, Eq, Structural)]
pub struct TesterOptions {
    pub quiet: bool,
    pub smoke_test: bool,
}

impl TesterOptions {
    pub fn new(quiet: bool, smoke_test: bool) -> (r: TesterOptions)
        ensures
            r.quiet == quiet,
            r.smoke_test == smoke_test,
    {
        TesterOptions { quiet, smoke_test }
    }
}

impl Default for TesterOptions {
    /// The default configuration: verbose output, full duplicate survey.
    fn default() -> (r: TesterOptions)
        ensures
            !r.quiet,
            !r.smoke_test,
    {
        TesterOptions { quiet: false, smoke_test: false }
    }
}

/// The smallest iteration count that makes the selected algorithm
/// meaningful: a survey needs one draw, a smoke test needs two, since a
/// single draw can never demonstrate divergence.
pub open spec fn min_iterations(smoke_test: bool) -> int {
    if smoke_test {
        2
    } else {
        1
    }
}

/// The validation engine for one run: it checks capability and the
/// iteration minimum at construction, and then starts one survey or smoke
/// test per requested word width.
#[derive(Clone, Copy, Debug)]
pub struct Tester {
    pub iterations: usize,
    pub terminal_width: usize,
    pub options: TesterOptions,
}

impl Tester {
    /// The iteration count satisfies the mode-specific minimum.
    pub open spec fn wf(self) -> bool {
        self.iterations >= min_iterations(self.options.smoke_test)
    }

    /// Builds an engine. `supported` is the capability bit the caller
    /// obtained from the CPU identification query, and `terminal_width`
    /// the display width available to the presentation layer (zero when
    /// unknown). Construction fails on an unsupported processor, or when
    /// `iterations` is below the minimum the selected mode requires.
    pub fn new(iterations: usize, options: TesterOptions, supported: bool, terminal_width: usize)
        -> (r: Result<Tester, Error>)
        ensures
            (r is Ok) <==> (supported && iterations >= min_iterations(options.smoke_test)),
            !supported ==> r == Result::<Tester, Error>::Err(Error::UnsupportedProcessor),
            supported && iterations >= min_iterations(options.smoke_test) ==> (r matches Ok(t)
                && t.iterations == iterations && t.options == options && t.terminal_width
                == terminal_width && t.wf()),
            supported && iterations < min_iterations(options.smoke_test) ==> r
                == Result::<Tester, Error>::Err(Error::InsufficientIterations {
                required: min_iterations(options.smoke_test) as usize,
            }),
    {
        if supported {
            let required: usize = if options.smoke_test {
                2
            } else {
                1
            };
            if iterations >= required {
                Ok(Tester { iterations, terminal_width, options })
            } else {
                Err(Error::InsufficientIterations { required })
            }
        } else {
            Err(Error::UnsupportedProcessor)
        }
    }

    /// Whether per-value display is suppressed.
    pub fn is_quiet(&self) -> (r: bool)
        ensures
            r == self.options.quiet,
    {
        self.options.quiet
    }

    /// Whether this engine runs the stuck-value smoke test instead of the
    /// duplicate survey.
    pub fn is_smoke_test(&self) -> (r: bool)
        ensures
            r == self.options.smoke_test,
    {
        self.options.smoke_test
    }

    /// Starts the duplicate survey for one word width. The algorithm works
    /// on the drawn values alone, so one engine serves every width.
    pub fn start_survey(&self) -> (s: Survey)
        requires
            self.wf(),
            !self.options.smoke_test,
        ensures
            s.wf(),
            s.iterations == self.iterations,
            s.drawn == 0,
            s.history@ == Seq::<u64>::empty(),
    {
        Survey::new(self.iterations)
    }

    /// Starts the stuck-value smoke test for one word width.
    pub fn start_smoke_test(&self) -> (s: SmokeTest)
        requires
            self.wf(),
            self.options.smoke_test,
        ensures
            s.wf(),
            s.iterations == self.iterations,
            s.drawn == 0,
            s.history@ == Seq::<u64>::empty(),
            !s.done_spec(),
    {
        SmokeTest::new(self.iterations)
    }
}

} // verus!
