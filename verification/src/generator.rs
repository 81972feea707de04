use vstd::prelude::*;

verus! {

use crate::error::Error;
use crate::smoke::SmokeTest;
use crate::survey::Survey;
use crate::tester::min_iterations;

/// The configuration of one generator run, mirroring the tester's: quiet
/// display, and the smoke test in place of the duplicate survey.
#[derive(Clone, Copy, Debug, PartialEq, Eq, Structural)]
pub struct GeneratorOptions {
    pub quiet: bool,
    pub smoke_test: bool,
}

impl GeneratorOptions {
    pub fn new(quiet: bool, smoke_test: bool) -> (r: GeneratorOptions)
        ensures
            r.quiet == quiet,
            r.smoke_test == smoke_test,
    {
        GeneratorOptions { quiet, smoke_test }
    }
}

impl Default for GeneratorOptions {
    /// The default configuration: verbose output, full duplicate survey.
    fn default() -> (r: GeneratorOptions)
        ensures
            !r.quiet,
            !r.smoke_test,
    {
        GeneratorOptions { quiet: false, smoke_test: false }
    }
}

/// The older variant of the validation engine. It enforces the same
/// construction contract as the tester: the processor must expose the
/// hardware random instruction, and the iteration count must meet the
/// mode-specific minimum.
#[derive(Clone, Copy, Debug)]
pub struct Generator {
    pub iterations: usize,
    pub terminal_width: usize,
    pub options: GeneratorOptions,
}

impl Generator {
    /// The iteration count satisfies the mode-specific minimum.
    pub open spec fn wf(self) -> bool {
        self.iterations >= min_iterations(self.options.smoke_test)
    }

    /// Builds an engine. `supported` is the capability bit the caller
    /// obtained from the CPU identification query, and `terminal_width`
    /// the display width available to the presentation layer (zero when
    /// unknown). Construction fails on an unsupported processor, or when
    /// `iterations` is below the minimum the selected mode requires.
    pub fn new(
        iterations: usize,
        options: GeneratorOptions,
        supported: bool,
        terminal_width: usize,
    ) -> (r: Result<Generator, Error>)
        ensures
            (r is Ok) <==> (supported && iterations >= min_iterations(options.smoke_test)),
            !supported ==> r == Result::<Generator, Error>::Err(Error::UnsupportedProcessor),
            supported && iterations >= min_iterations(options.smoke_test) ==> (r matches Ok(g)
                && g.iterations == iterations && g.options == options && g.terminal_width
                == terminal_width && g.wf()),
            supported && iterations < min_iterations(options.smoke_test) ==> r == Result::<
                Generator,
                Error,
            >::Err(Error::InsufficientIterations {
                required: min_iterations(options.smoke_test) as usize,
            }),
    {
        if supported {
            let required: usize = if options.smoke_test {
                2
            } else {
                1
            };
            if iterations >= required {
                Ok(Generator { iterations, terminal_width, options })
            } else {
                Err(Error::InsufficientIterations { required })
            }
        } else {
            Err(Error::UnsupportedProcessor)
        }
    }

    /// Whether per-value display is suppressed.
    pub fn is_quiet(&self) -> (r: bool)
        ensures
            r == self.options.quiet,
    {
        self.options.quiet
    }

    /// Whether this engine runs the stuck-value smoke test instead of the
    /// duplicate survey.
    pub fn is_smoke_test(&self) -> (r: bool)
        ensures
            r == self.options.smoke_test,
    {
        self.options.smoke_test
    }

    /// Starts the duplicate survey for one word width.
    pub fn start_survey(&self) -> (s: Survey)
        requires
            self.wf(),
            !self.options.smoke_test,
        ensures
            s.wf(),
            s.iterations == self.iterations,
            s.drawn == 0,
            s.history@ == Seq::<u64>::empty(),
    {
        Survey::new(self.iterations)
    }

    /// Starts the stuck-value smoke test for one word width.
    pub fn start_smoke_test(&self) -> (s: SmokeTest)
        requires
            self.wf(),
            self.options.smoke_test,
        ensures
            s.wf(),
            s.iterations == self.iterations,
            s.drawn == 0,
            s.history@ == Seq::<u64>::empty(),
            !s.done_spec(),
    {
        SmokeTest::new(self.iterations)
    }
}

} // verus!
