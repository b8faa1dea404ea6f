use ssrelay::address::SockAddr;
use ssrelay::lookup::{LookupError, LookupThen};

fn a(last: u8) -> SockAddr {
    SockAddr::V4(vec![10, 0, 0, last], 80)
}

#[test]
fn all_failures_report_last_error() {
    let mut run: LookupThen<&str> = LookupThen::new(vec![a(1), a(2), a(3)]);
    let mut tried = Vec::new();
    let errs = ["e1", "e2", "e3"];
    let mut k = 0;
    while let Some(t) = run.next_target() {
        tried.push(t);
        run.record_failure(errs[k]);
        k += 1;
    }
    assert_eq!(tried, vec![a(1), a(2), a(3)]);
    assert!(matches!(run.into_error(), LookupError::LastAttempt("e3")));
}

#[test]
fn success_stops_the_run() {
    let mut run: LookupThen<&str> = LookupThen::new(vec![a(1), a(2), a(3)]);
    assert_eq!(run.next_target(), Some(a(1)));
    run.record_failure("e1");
    assert_eq!(run.next_target(), Some(a(2)));
    assert_eq!(run.record_success(), a(2));
    assert_eq!(run.next_target(), None);
}

#[test]
fn empty_resolution_reports_no_address() {
    let run: LookupThen<&str> = LookupThen::new(vec![]);
    assert_eq!(run.next_target(), None);
    assert!(matches!(run.into_error(), LookupError::NoAddress));
}
