use qwen3_embed::timing::{elapsed_millis, measure, PhaseTimings, Span, NANOS_PER_MILLI};

#[test]
fn elapsed_millis_counts_whole_milliseconds() {
    assert_eq!(elapsed_millis(1_000_000, 3_500_000), 2);
    assert_eq!(elapsed_millis(0, 999_999), 0);
    assert_eq!(elapsed_millis(0, 1_000_000), 1);
    assert_eq!(elapsed_millis(7, 7), 0);
    assert_eq!(elapsed_millis(250, 12_345_678_901), 12_345);
}

#[test]
fn elapsed_millis_is_zero_for_a_clock_that_went_back() {
    assert_eq!(elapsed_millis(5, 3), 0);
    assert_eq!(elapsed_millis(u128::MAX, 0), 0);
}

#[test]
fn elapsed_millis_keeps_the_low_64_bits() {
    let modulus: u128 = 1u128 << 64;
    assert_eq!(elapsed_millis(0, (modulus + 5) * NANOS_PER_MILLI), 5);
    assert_eq!(elapsed_millis(0, (modulus - 1) * NANOS_PER_MILLI), u64::MAX);
    assert_eq!(elapsed_millis(0, modulus * NANOS_PER_MILLI), 0);
    assert_eq!(elapsed_millis(0, u128::MAX), ((u128::MAX / 1_000_000) % modulus) as u64);
}

#[test]
fn elapsed_millis_does_not_decrease_as_the_clock_advances() {
    let begun: u128 = 1_234_567;
    let mut last: u64 = 0;
    let mut reading: u128 = begun;
    while reading < begun + 10_000_000 {
        let now = elapsed_millis(begun, reading);
        assert!(now >= last);
        last = now;
        reading += 333_333;
    }
    assert_eq!(last, 9);
}

#[test]
fn span_elapsed_matches_its_readings() {
    let span = Span { begun: 2_000_000, ended: 9_999_999 };
    assert_eq!(span.elapsed(), 7);
    let backwards = Span { begun: 9, ended: 1 };
    assert_eq!(backwards.elapsed(), 0);
}

#[test]
fn measure_takes_each_phase_from_its_own_readings() {
    let model_load = Span { begun: 1_000_000, ended: 251_000_000 };
    let embed = Span { begun: 251_500_000, ended: 291_900_000 };
    let similarity = Span { begun: 292_000_000, ended: 292_000_400 };
    let timings = measure(0, &model_load, &embed, &similarity, 293_100_000);
    assert_eq!(
        timings,
        PhaseTimings { model_load: 250, embed: 40, similarity: 0, total: 293 }
    );
}

#[test]
fn measure_total_covers_the_sum_of_the_phases() {
    // Three phases of 1.9 ms each: 1 ms is reported for each, and the total
    // of 5.7 ms is reported as 5.
    let model_load = Span { begun: 0, ended: 1_900_000 };
    let embed = Span { begun: 1_900_000, ended: 3_800_000 };
    let similarity = Span { begun: 3_800_000, ended: 5_700_000 };
    let timings = measure(0, &model_load, &embed, &similarity, 5_700_000);
    assert_eq!(timings.model_load, 1);
    assert_eq!(timings.embed, 1);
    assert_eq!(timings.similarity, 1);
    assert_eq!(timings.total, 5);
    assert!(timings.total >= timings.model_load + timings.embed + timings.similarity);
    assert!(timings.total >= timings.model_load);
    assert!(timings.total >= timings.embed);
    assert!(timings.total >= timings.similarity);
}

#[test]
fn measure_total_is_not_the_sum_of_the_phases() {
    let model_load = Span { begun: 10_000_000, ended: 20_000_000 };
    let embed = Span { begun: 30_000_000, ended: 40_000_000 };
    let similarity = Span { begun: 50_000_000, ended: 60_000_000 };
    let timings = measure(5_000_000, &model_load, &embed, &similarity, 75_000_000);
    assert_eq!(timings.model_load + timings.embed + timings.similarity, 30);
    assert_eq!(timings.total, 70);
}
