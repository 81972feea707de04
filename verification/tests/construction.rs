use rdrand_test::{Error, Generator, GeneratorOptions, Tester, TesterOptions};

#[test]
fn default_mode_requires_one_iteration() {
    let opts = TesterOptions::new(false, false);
    let err = Tester::new(0, opts, true, 80).unwrap_err();
    assert_eq!(err, Error::InsufficientIterations { required: 1 });
    for iterations in [1, 2, 5, 500] {
        assert!(Tester::new(iterations, opts, true, 80).is_ok());
    }
}

#[test]
fn smoke_mode_requires_two_iterations() {
    let opts = TesterOptions::new(false, true);
    for iterations in [0, 1] {
        let err = Tester::new(iterations, opts, true, 80).unwrap_err();
        assert_eq!(err, Error::InsufficientIterations { required: 2 });
    }
    for iterations in [2, 3, 4, 100] {
        assert!(Tester::new(iterations, opts, true, 80).is_ok());
    }
}

#[test]
fn unsupported_processor_fails_construction() {
    for iterations in [0, 1, 2, 500] {
        for smoke_test in [false, true] {
            let opts = TesterOptions::new(false, smoke_test);
            let err = Tester::new(iterations, opts, false, 80).unwrap_err();
            assert_eq!(err, Error::UnsupportedProcessor);
        }
    }
}

#[test]
fn construction_keeps_configuration() {
    let opts = TesterOptions::new(true, false);
    let tester = Tester::new(7, opts, true, 132).unwrap();
    assert!(tester.is_quiet());
    assert!(!tester.is_smoke_test());
    assert_eq!(tester.iterations, 7);
    assert_eq!(tester.terminal_width, 132);

    let smoke = Tester::new(4, TesterOptions::new(false, true), true, 0).unwrap();
    assert!(!smoke.is_quiet());
    assert!(smoke.is_smoke_test());
}

#[test]
fn default_options_are_verbose_survey() {
    let opts = TesterOptions::default();
    assert!(!opts.quiet);
    assert!(!opts.smoke_test);
    let gopts = GeneratorOptions::default();
    assert!(!gopts.quiet);
    assert!(!gopts.smoke_test);
}

#[test]
fn generator_enforces_capability_and_mode_minimum() {
    let survey = GeneratorOptions::new(false, false);
    let err = Generator::new(0, survey, true, 80).unwrap_err();
    assert_eq!(err, Error::InsufficientIterations { required: 1 });
    assert!(Generator::new(1, survey, true, 80).is_ok());

    let smoke = GeneratorOptions::new(false, true);
    let err = Generator::new(1, smoke, true, 80).unwrap_err();
    assert_eq!(err, Error::InsufficientIterations { required: 2 });
    let generator = Generator::new(2, smoke, true, 80).unwrap();
    assert!(!generator.is_quiet());
    assert!(generator.is_smoke_test());

    // An unsupported processor fails construction regardless of the
    // iteration count or mode.
    for iterations in [0, 1, 2, 500] {
        for options in [survey, smoke] {
            let err = Generator::new(iterations, options, false, 80).unwrap_err();
            assert_eq!(err, Error::UnsupportedProcessor);
        }
    }
}

#[test]
fn error_messages_match_mode_minimums() {
    assert_eq!(
        Error::InsufficientIterations { required: 1 }.message(),
        "at least 1 iteration is required"
    );
    assert_eq!(
        Error::InsufficientIterations { required: 2 }.message(),
        "at least 2 iterations are required"
    );
    assert_eq!(
        Error::UnsupportedProcessor.message(),
        "current CPU does not support RDRAND"
    );
}
