use s3_generic::copy_schedule::{CopySchedule, CopyStep, MAX_IN_FLIGHT_COPIES};

fn run(total: usize) -> (usize, usize, Vec<usize>) {
    let mut s = CopySchedule::new(total);
    let mut in_flight = 0usize;
    let mut peak = 0usize;
    let mut launched = Vec::new();
    loop {
        match s.next_step() {
            CopyStep::Launch(i) => {
                launched.push(i);
                s.record_launch();
                in_flight += 1;
                peak = peak.max(in_flight);
            }
            CopyStep::AwaitOne => {
                s.record_completion();
                in_flight -= 1;
            }
            CopyStep::Finished(n) => return (n, peak, launched),
        }
    }
}

#[test]
fn copy_concurrency_is_capped() {
    let (n, peak, launched) = run(60);
    assert_eq!(n, 60);
    assert_eq!(peak, MAX_IN_FLIGHT_COPIES);
    assert_eq!(MAX_IN_FLIGHT_COPIES, 25);
    assert_eq!(launched, (0..60).collect::<Vec<_>>());
}

#[test]
fn copy_of_few_objects_launches_all_at_once() {
    let mut s = CopySchedule::new(3);
    for i in 0..3 {
        assert_eq!(s.next_step(), CopyStep::Launch(i));
        s.record_launch();
    }
    assert_eq!(s.next_step(), CopyStep::AwaitOne);
}

#[test]
fn copy_of_nothing_finishes_at_once() {
    let (n, peak, _) = run(0);
    assert_eq!(n, 0);
    assert_eq!(peak, 0);
}
