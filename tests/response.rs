use mio::Token;
use rotor::{decompose, decompose_with_report, MachineError, Response, Time};

fn failure(text: &str) -> MachineError {
    MachineError::new(text.to_string())
}

#[test]
fn size_of_response() {
    assert_eq!(::std::mem::size_of::<Response<u64, u64>>(), 24)
}

#[test]
fn ok_decomposes_to_machine_only() {
    let (m, n, t) = decompose(Token(1), Response::<u64, u64>::ok(7));
    assert_eq!(m.ok(), Some(7));
    assert_eq!(n, None);
    assert_eq!(t, None);
}

#[test]
fn deadline_decomposes_to_machine_and_time() {
    let r = Response::<u64, u64>::ok(7).deadline(Time(100));
    let (m, n, t) = decompose(Token(1), r);
    assert_eq!(m.ok(), Some(7));
    assert_eq!(n, None);
    assert_eq!(t, Some(Time(100)));
}

#[test]
fn spawn_decomposes_to_machine_and_payload() {
    let (m, n, t) = decompose(Token(1), Response::<u64, u64>::spawn(7, 8));
    assert_eq!(m.ok(), Some(7));
    assert_eq!(n, Some(8));
    assert_eq!(t, None);
}

#[test]
fn done_decomposes_to_no_machine_and_no_error() {
    let (m, n, t) = decompose(Token(1), Response::<u64, u64>::done());
    assert!(matches!(m, Err(None)));
    assert_eq!(n, None);
    assert_eq!(t, None);
}

#[test]
fn error_decomposes_to_no_machine_with_error() {
    let (m, n, t) = decompose(Token(1), Response::<u64, u64>::error(failure("boom")));
    match m {
        Err(Some(e)) => assert_eq!(e.description(), "boom"),
        _ => panic!("expected an error"),
    }
    assert_eq!(n, None);
    assert_eq!(t, None);
}

#[test]
fn second_deadline_replaces_first() {
    let r = Response::<u64, u64>::ok(3).deadline(Time(10)).deadline(Time(20));
    let (m, _, t) = decompose(Token(0), r);
    assert_eq!(m.ok(), Some(3));
    assert_eq!(t, Some(Time(20)));
}

#[test]
fn deadline_can_move_earlier() {
    let r = Response::<u64, u64>::ok(3).deadline(Time(20)).deadline(Time(5));
    let (_, _, t) = decompose(Token(0), r);
    assert_eq!(t, Some(Time(5)));
}

#[test]
fn is_stopped_per_variant() {
    assert!(!Response::<u64, u64>::ok(1).is_stopped());
    assert!(!Response::<u64, u64>::ok(1).deadline(Time(1)).is_stopped());
    assert!(!Response::<u64, u64>::spawn(1, 2).is_stopped());
    assert!(Response::<u64, u64>::done().is_stopped());
    assert!(Response::<u64, u64>::error(failure("x")).is_stopped());
}

#[test]
fn cause_only_for_error() {
    let r = Response::<u64, u64>::error(failure("bad input"));
    assert_eq!(r.cause().map(|e| e.description().to_string()), Some("bad input".to_string()));
    assert!(Response::<u64, u64>::ok(1).cause().is_none());
    assert!(Response::<u64, u64>::spawn(1, 2).cause().is_none());
    assert!(Response::<u64, u64>::done().cause().is_none());
    assert!(Response::<u64, u64>::ok(1).deadline(Time(4)).cause().is_none());
}

#[test]
fn map_spawn_maps_both() {
    let r = Response::<u64, u64>::spawn(2, 3).map(|m| m * 10, |n| format!("n{}", n));
    assert_eq!(r.expect_spawn(), (20, "n3".to_string()));
}

#[test]
fn map_keeps_deadline() {
    let r = Response::<u64, u64>::ok(2).deadline(Time(50)).map(|m| m + 1, |n| n + 1);
    let (m, n, t) = decompose(Token(2), r);
    assert_eq!(m.ok(), Some(3));
    assert_eq!(n, None);
    assert_eq!(t, Some(Time(50)));
}

#[test]
fn map_error_unchanged() {
    let r = Response::<u64, u64>::error(failure("lost")).map(|m| m + 1, |n| n + 1);
    assert_eq!(r.expect_error().description(), "lost");
}

#[test]
fn map_done_unchanged() {
    Response::<u64, u64>::done().map(|m| m + 1, |n| n + 1).expect_done();
}

#[test]
fn wrap_keeps_payload() {
    let r = Response::<u64, u64>::spawn(4, 9).wrap(|m| (m, m));
    assert_eq!(r.expect_spawn(), ((4, 4), 9));
}

#[test]
fn wrap_normal_and_error() {
    assert_eq!(Response::<u64, u64>::ok(5).wrap(|m| m * 2).expect_machine(), 10);
    let r = Response::<u64, u64>::error(failure("e")).wrap(|m| m * 2);
    assert_eq!(r.expect_error().description(), "e");
}

#[test]
fn expect_machine_accepts_deadline() {
    assert_eq!(Response::<u64, u64>::ok(6).deadline(Time(1)).expect_machine(), 6);
}

#[test]
fn report_once_when_enabled() {
    let r = Response::<u64, u64>::error(failure("refused"));
    let ((m, n, t), report) = decompose_with_report(Token(42), r, true);
    let report = report.expect("a report");
    assert_eq!(report.token, Token(42));
    assert_eq!(report.description, "refused");
    assert!(matches!(m, Err(Some(_))));
    assert_eq!(n, None);
    assert_eq!(t, None);
}

#[test]
fn no_report_when_disabled() {
    let r = Response::<u64, u64>::error(failure("refused"));
    let ((m, _, _), report) = decompose_with_report(Token(42), r, false);
    assert!(report.is_none());
    assert!(matches!(m, Err(Some(_))));
}

#[test]
fn no_report_for_other_variants() {
    let (_, a) = decompose_with_report(Token(1), Response::<u64, u64>::done(), true);
    let (_, b) = decompose_with_report(Token(1), Response::<u64, u64>::ok(1), true);
    let (_, c) = decompose_with_report(Token(1), Response::<u64, u64>::spawn(1, 2), true);
    assert!(a.is_none() && b.is_none() && c.is_none());
}
