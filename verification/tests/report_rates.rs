use traffic_gen::report::Report;

#[test]
fn rates_are_derived_exactly_from_the_count_and_elapsed_time() {
    // 120 transactions over two seconds: 60 per second.
    let r = Report::compute(120, 2000);
    assert_eq!(r.total, 120);
    assert_eq!(r.elapsed_ms, 2000);
    assert_eq!(r.per_second_milli, 60_000);
    assert_eq!(r.per_minute_milli, 3_600_000);
    assert_eq!(r.per_hour_milli, 216_000_000);
}

#[test]
fn minute_and_hour_rates_are_sixty_fold_multiples() {
    for (total, elapsed_ms) in [(1usize, 1u64), (7, 1300), (120, 2000), (99999, 61_000)] {
        let r = Report::compute(total, elapsed_ms);
        assert_eq!(r.per_minute_milli, r.per_second_milli * 60);
        assert_eq!(r.per_hour_milli, r.per_minute_milli * 60);
    }
}

#[test]
fn fractional_rates_are_kept_in_thousandths() {
    // 3 transactions over 2 seconds: 1.5 per second.
    let r = Report::compute(3, 2000);
    assert_eq!(r.per_second_milli, 1500);
    assert_eq!(r.per_second_display(), "1.500");
    assert_eq!(r.per_minute_whole(), 90);
    assert_eq!(r.per_hour_whole(), 5400);
}

#[test]
fn displays_are_formatted_for_reading() {
    let r = Report::compute(120, 2000);
    assert_eq!(r.per_second_display(), "60.000");
    assert_eq!(r.per_minute_display(), "3,600");
    assert_eq!(r.per_hour_display(), "216,000");
}

#[test]
fn empty_run_reports_zero_rates() {
    let r = Report::compute(0, 1500);
    assert_eq!(r.per_second_milli, 0);
    assert_eq!(r.per_minute_milli, 0);
    assert_eq!(r.per_hour_milli, 0);
    assert_eq!(r.per_second_display(), "0.000");
    assert_eq!(r.per_minute_display(), "0");
}
