use rustbuster::dispatch::{Action, Dispatch};

#[test]
fn counts_and_finishes() {
    let mut d = Dispatch::new(false);
    assert!(d.is_finished());
    d.submit(3);
    assert_eq!(3, d.outstanding());
    assert_eq!(Action::Handle, d.record(false));
    assert_eq!(Action::Skip, d.record(true));
    assert!(!d.is_finished());
    assert_eq!(Action::Handle, d.record(false));
    assert!(d.is_finished());
    assert_eq!(d.submitted, d.processed);
}

#[test]
fn first_outcome_error_aborts() {
    let mut d = Dispatch::new(false);
    d.submit(5);
    assert_eq!(Action::Abort, d.record(true));
    assert!(d.is_finished());
}

#[test]
fn exit_on_connection_errors_aborts_on_any_error() {
    let mut d = Dispatch::new(true);
    d.submit(5);
    assert_eq!(Action::Handle, d.record(false));
    assert_eq!(Action::Abort, d.record(true));
    assert!(d.stopped);
}
