use wl_library_link::catch_panic::{
    backtrace_enabled, caught_result, custom_hook, get_caught_panic, panic_message, CaughtPanic,
    CaughtPanics, PanicReport, BACKTRACE_ENV_VAR,
};
use wl_library_link::write_expr;

const INTERRUPTED: &str = "could not get panic info for current thread. Operation of custom panic hook was interrupted";

fn report(thread: u64, time: u128, message: &'static str) -> PanicReport<'static> {
    PanicReport {
        thread,
        time,
        payload: Some(message),
        formatted: None,
        location: Some("src/lib.rs:1:2".to_string()),
        backtrace: None,
    }
}

fn message(caught: CaughtPanic) -> String {
    caught.message.unwrap()
}

fn written(caught: &CaughtPanic) -> String {
    let mut buffer = write_expr(caught.to_pretty_expr()).unwrap();
    assert_eq!(buffer.pop(), Some(0));
    String::from_utf8(buffer).unwrap()
}

#[test]
fn own_panic_is_reported() {
    let mut panics = CaughtPanics::new();
    custom_hook(&mut panics, report(1, 10, "mine"));
    custom_hook(&mut panics, report(2, 20, "later"));
    let caught = get_caught_panic(&mut panics, 1);
    assert_eq!(caught.location.as_deref(), Some("src/lib.rs:1:2"));
    assert_eq!(message(caught), "mine");
}

#[test]
fn last_panic_of_a_thread_is_kept() {
    let mut panics = CaughtPanics::new();
    custom_hook(&mut panics, report(1, 10, "first"));
    custom_hook(&mut panics, report(1, 11, "second"));
    assert_eq!(message(get_caught_panic(&mut panics, 1)), "second");
    assert_eq!(message(get_caught_panic(&mut panics, 1)), INTERRUPTED);
}

#[test]
fn own_panic_is_reported_once() {
    let mut panics = CaughtPanics::new();
    custom_hook(&mut panics, report(1, 10, "mine"));
    custom_hook(&mut panics, report(2, 5, "other"));
    assert_eq!(message(get_caught_panic(&mut panics, 1)), "mine");
    assert_eq!(message(get_caught_panic(&mut panics, 1)), "other");
    assert_eq!(message(get_caught_panic(&mut panics, 2)), "other");
}

#[test]
fn lone_panic_of_another_thread_is_reported_and_stays() {
    let mut panics = CaughtPanics::new();
    custom_hook(&mut panics, report(7, 10, "spawned"));
    assert_eq!(message(get_caught_panic(&mut panics, 1)), "spawned");
    assert_eq!(message(get_caught_panic(&mut panics, 1)), "spawned");
}

#[test]
fn most_recent_panic_is_reported() {
    let mut panics = CaughtPanics::new();
    custom_hook(&mut panics, report(2, 20, "b"));
    custom_hook(&mut panics, report(4, 40, "d"));
    custom_hook(&mut panics, report(3, 30, "c"));
    assert_eq!(message(get_caught_panic(&mut panics, 1)), "d");
}

#[test]
fn missing_panic_is_reported_as_such() {
    let mut panics = CaughtPanics::new();
    let caught = get_caught_panic(&mut panics, 1);
    assert_eq!(caught.location, None);
    assert_eq!(caught.backtrace, None);
    assert_eq!(message(caught), INTERRUPTED);
}

#[test]
fn results_pass_and_panics_are_reported() {
    let mut panics = CaughtPanics::new();
    custom_hook(&mut panics, report(1, 10, "mine"));
    assert_eq!(caught_result(Ok(5), &mut panics, 1).ok(), Some(5));
    let caught = caught_result(Err::<i32, ()>(()), &mut panics, 1).err().unwrap();
    assert_eq!(message(caught), "mine");
}

#[test]
fn message_is_the_payload_or_the_formatted_message() {
    let formatted = Some("f".to_string());
    assert_eq!(
        panic_message(Some("p"), formatted.clone()),
        Some("p".to_string())
    );
    assert_eq!(panic_message(None, formatted.clone()), formatted);
    assert_eq!(panic_message(None, None), None);
}

#[test]
fn panic_prints_as_failure() {
    let caught = CaughtPanic {
        message: Some("boom".to_string()),
        location: Some("src/lib.rs:1:2".to_string()),
        backtrace: None,
    };
    assert_eq!(
        written(&caught.clone()),
        "System`Failure[\"Panic\", System`Association[System`Rule[\"Message\", \"boom\"], System`Rule[\"SourceLocation\", \"src/lib.rs:1:2\"]]]"
    );
}

#[test]
fn unknown_panic_prints_as_failure() {
    let caught = CaughtPanic {
        message: None,
        location: None,
        backtrace: None,
    };
    assert_eq!(
        written(&caught),
        "System`Failure[\"Panic\", System`Association[System`Rule[\"Message\", \"Rust panic (no message)\"], System`Rule[\"SourceLocation\", \"Unknown\"]]]"
    );
}

#[test]
fn backtrace_is_shown_where_there_is_one() {
    let caught = CaughtPanic {
        message: Some("m".to_string()),
        location: Some("l".to_string()),
        backtrace: Some("0: main".to_string()),
    };
    assert_eq!(
        written(&caught),
        "System`Failure[\"Panic\", System`Association[System`Rule[\"Message\", \"m\"], System`Rule[\"SourceLocation\", \"l\"], System`Rule[\"Backtrace\", \"0: main\"]]]"
    );
}

#[test]
fn backtraces_are_enabled_by_the_variable() {
    assert_eq!(BACKTRACE_ENV_VAR, "LIBRARY_LINK_RUST_BACKTRACE");
    assert!(backtrace_enabled(Some("True")));
    assert!(!backtrace_enabled(Some("False")));
    assert!(!backtrace_enabled(Some("")));
    assert!(!backtrace_enabled(None));
}
