use colored_noise::variant::NoiseValue;

const ALL: [NoiseValue; 8] = [
    NoiseValue::White,
    NoiseValue::Gaussian,
    NoiseValue::Triangular,
    NoiseValue::Pink,
    NoiseValue::Blue,
    NoiseValue::Violet,
    NoiseValue::Brownian,
    NoiseValue::Velvet,
];

const RATE: u32 = 44100;

#[test]
fn two_runs_with_the_fixed_seed_are_identical() {
    for variant in ALL {
        let mut a = variant.to_noise(RATE);
        let mut b = variant.to_noise(RATE);
        for i in 0..4096 {
            let sa = a.next().expect("stream is infinite");
            let sb = b.next().expect("stream is infinite");
            assert_eq!(sa, sb, "{variant:?} diverged at sample {i}");
        }
    }
}

#[test]
fn production_is_total() {
    for variant in ALL {
        let mut n = variant.to_noise(RATE);
        for _ in 0..10_000 {
            assert!(n.next().is_some());
        }
    }
}

#[test]
fn samples_are_finite_numbers() {
    for variant in ALL {
        let mut n = variant.to_noise(RATE);
        for i in 0..10_000 {
            let bits = n.next().expect("stream is infinite");
            let sample = f32::from_bits(bits);
            assert!(sample.is_finite(), "{variant:?} sample {i} not finite");
        }
    }
}

#[test]
fn seek_succeeds_and_changes_nothing() {
    for variant in ALL {
        let mut seeked = variant.to_noise(RATE);
        let mut untouched = variant.to_noise(RATE);
        for _ in 0..100 {
            assert_eq!(seeked.next(), untouched.next());
        }
        assert!(seeked.try_seek(0).is_ok());
        assert!(seeked.try_seek(1_000_000_000).is_ok());
        assert!(seeked.try_seek(u64::MAX).is_ok());
        for i in 0..1000 {
            assert_eq!(
                seeked.next(),
                untouched.next(),
                "{variant:?} diverged at sample {i} after seek"
            );
        }
    }
}

#[test]
fn metadata_matches_construction() {
    for variant in ALL {
        for rate in [1u32, 8_000, 44_100, 192_000] {
            let n = variant.to_noise(rate);
            assert_eq!(n.channels(), 1, "{variant:?} is mono");
            assert_eq!(n.sample_rate(), rate, "{variant:?} keeps its rate");
            assert_eq!(n.current_span_len(), None);
            assert_eq!(n.total_duration(), None);
        }
    }
}

#[test]
fn case_spelling_selects_the_same_sequence() {
    let mut upper = NoiseValue::parse("PINK").unwrap().to_noise(RATE);
    let mut lower = NoiseValue::parse("pink").unwrap().to_noise(RATE);
    let mut mixed = NoiseValue::parse("Pink").unwrap().to_noise(RATE);
    for _ in 0..1000 {
        let s = upper.next();
        assert_eq!(s, lower.next());
        assert_eq!(s, mixed.next());
    }
}

#[test]
fn distinct_variants_are_distinct_streams() {
    let mut white = NoiseValue::White.to_noise(RATE);
    let mut pink = NoiseValue::Pink.to_noise(RATE);
    let mut same = 0;
    for _ in 0..1000 {
        if white.next() == pink.next() {
            same += 1;
        }
    }
    assert!(same < 1000, "white and pink noise must not be the same stream");
}

#[test]
fn velvet_produces_sparse_impulses() {
    let mut n = NoiseValue::Velvet.to_noise(RATE);
    let mut nonzero = 0u32;
    for _ in 0..RATE {
        let sample = f32::from_bits(n.next().unwrap());
        if sample != 0.0 {
            nonzero += 1;
            assert!(sample == 1.0 || sample == -1.0);
        }
    }
    assert!(nonzero > 0, "velvet noise must produce impulses");
    assert!(nonzero < RATE / 2, "velvet noise must be mostly silence");
}
