use criterion_perf_events::perf::{attribute, keep_count, Perf, Step};
use std::io::{Error, ErrorKind};
use perfcnt::linux::HardwareEventType;
use perfcnt::linux::PerfCounterBuilderLinux;
use std::hint::black_box;

#[test]
fn zero_is_identity() {
    for v in [0u64, 1, 42, u64::MAX] {
        assert_eq!(Perf::add(&Perf::zero(), &v), v);
        assert_eq!(Perf::add(&v, &Perf::zero()), v);
    }
    assert_eq!(Perf::zero(), 0);
}

#[test]
fn add_is_commutative_and_associative() {
    assert_eq!(Perf::add(&3, &4), 7);
    assert_eq!(Perf::add(&3, &4), Perf::add(&4, &3));
    let left = Perf::add(&Perf::add(&10, &20), &30);
    let right = Perf::add(&10, &Perf::add(&20, &30));
    assert_eq!(left, 60);
    assert_eq!(left, right);
    assert_eq!(Perf::add(&(u64::MAX - 1), &1), u64::MAX);
}

#[test]
fn step_messages_name_the_step() {
    assert_eq!(Step::Create.message(), "Could not create counter");
    assert_eq!(Step::Start.message(), "Could not start perf counter");
    assert_eq!(Step::Stop.message(), "Could not stop perf counter");
    assert_eq!(Step::Read.message(), "Could not read perf counter");
    assert_eq!(Step::Reset.message(), "Could not reset perf counter");
}

fn busy_loop(n: u64) -> u64 {
    let mut acc: u64 = 0;
    for i in 0..n {
        acc = black_box(acc.wrapping_mul(31).wrapping_add(i));
    }
    acc
}

// Where the machine offers no hardware counter to this process, creation
// must fail with the creation step named; otherwise a fixed loop yields a
// positive, repeatable instruction count.
#[test]
fn instructions_of_a_fixed_loop() {
    let builder = PerfCounterBuilderLinux::from_hardware_event(HardwareEventType::Instructions);
    let mut perf = match Perf::new(builder, 0) {
        Ok(p) => p,
        Err(e) => {
            assert_eq!(e.step, Step::Create);
            return;
        }
    };
    let mut counts = Vec::new();
    for _ in 0..5 {
        let token = perf.start().expect("start");
        assert_eq!(token, 0);
        black_box(busy_loop(100_000));
        counts.push(perf.end(token).expect("end"));
    }
    let lo = *counts.iter().min().unwrap();
    let hi = *counts.iter().max().unwrap();
    assert!(lo > 0);
    assert!(hi - lo <= hi / 10);
}

#[test]
fn successes_pass_through() {
    assert_eq!(attribute(Step::Read, Ok(1234u64)).unwrap(), 1234);
    assert!(attribute(Step::Stop, Ok(())).is_ok());
}

#[test]
fn each_failure_names_its_step() {
    for step in [Step::Create, Step::Start, Step::Stop, Step::Read, Step::Reset] {
        let outcome: Result<u64, Error> = Err(Error::new(ErrorKind::PermissionDenied, "denied"));
        let e = attribute(step, outcome).unwrap_err();
        assert_eq!(e.step, step);
        assert_eq!(e.source.kind(), ErrorKind::PermissionDenied);
        assert_eq!(e.source.to_string(), "denied");
    }
}

#[test]
fn count_is_kept_after_a_reset() {
    assert_eq!(keep_count(987_654, Ok(())).unwrap(), 987_654);
}

#[test]
fn failed_reset_loses_the_count() {
    let e = keep_count(987_654, Err(Error::new(ErrorKind::Other, "reset failed"))).unwrap_err();
    assert_eq!(e.step, Step::Reset);
    assert_eq!(e.source.to_string(), "reset failed");
}
