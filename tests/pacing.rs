use loadgen::config::RunConfig;
use loadgen::pacer::{admission_target, Pacer, Step, NANOS_PER_SEC};

const MS: u64 = 1_000_000;

/// Polls `pacer` every `every_nanos` from the start of the run until it closes,
/// and returns the indices it handed out, in order.
fn drain(pacer: &mut Pacer, every_nanos: u64) -> Vec<u64> {
    let mut out = Vec::new();
    let mut t: u64 = 0;
    loop {
        match pacer.tick(t) {
            Step::Admit { first, end } => out.extend(first..end),
            Step::Idle => {}
            Step::Close { first, end } => {
                out.extend(first..end);
                return out;
            }
        }
        t += every_nanos;
    }
}

#[test]
fn admission_target_is_floor_of_rate_times_elapsed() {
    assert_eq!(admission_target(0, 100), 0);
    assert_eq!(admission_target(9 * MS, 100), 0);
    assert_eq!(admission_target(10 * MS, 100), 1);
    assert_eq!(admission_target(1_999 * MS, 100), 199);
    assert_eq!(admission_target(2 * NANOS_PER_SEC, 100), 200);
    assert_eq!(admission_target(NANOS_PER_SEC / 2, 3), 1);
    assert_eq!(admission_target(u64::MAX, u64::MAX), (u64::MAX as u128 * u64::MAX as u128) / 1_000_000_000);
}

#[test]
fn tick_admits_what_fell_due() {
    let mut p = Pacer::new(100, 2);
    assert_eq!(p.tick(0), Step::Idle);
    assert_eq!(p.tick(10 * MS), Step::Admit { first: 0, end: 1 });
    assert_eq!(p.tick(15 * MS), Step::Idle);
    assert_eq!(p.tick(1_999 * MS), Step::Admit { first: 1, end: 199 });
    assert_eq!(p.admitted, 199);
    assert_eq!(p.tick(2 * NANOS_PER_SEC), Step::Close { first: 199, end: 200 });
    assert_eq!(p.tick(3 * NANOS_PER_SEC), Step::Close { first: 200, end: 200 });
    assert_eq!(p.admitted, 200);
}

#[test]
fn tick_never_takes_back_admitted_indices() {
    let mut p = Pacer::new(10, 5);
    assert_eq!(p.tick(NANOS_PER_SEC), Step::Admit { first: 0, end: 10 });
    // an earlier instant than the last poll admits nothing and keeps the count
    assert_eq!(p.tick(NANOS_PER_SEC / 2), Step::Idle);
    assert_eq!(p.admitted, 10);
}

#[test]
fn admitted_count_does_not_depend_on_poll_frequency() {
    for every in [1 * MS, 7 * MS, 100 * MS, 333 * MS] {
        let mut p = Pacer::new(250, 3);
        let mut t: u64 = 0;
        while t < 1_500 * MS {
            p.tick(t);
            t += every;
        }
        p.tick(1_500 * MS);
        assert_eq!(p.admitted, 375);
    }
}

#[test]
fn every_index_is_handed_out_once_in_order() {
    for every in [MS, 13 * MS, 400 * MS] {
        let mut p = Pacer::new(37, 2);
        let handed = drain(&mut p, every);
        let expected: Vec<u64> = (0..74).collect();
        assert_eq!(handed, expected);
    }
}

#[test]
fn run_at_one_hundred_per_second_for_two_seconds_admits_two_hundred() {
    let cfg = RunConfig::new(100, 2, 0, 50).unwrap();
    let mut p = cfg.pacer();
    let handed = drain(&mut p, MS);
    assert_eq!(handed.len(), 200);
    assert_eq!(cfg.total_requests(), 200);
}
