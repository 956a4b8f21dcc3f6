use wl_library_link::engine::abort_requested;
use wl_library_link::{
    Engine, EngineCallbacks, EngineInterface, LibraryLinkStatus, LIBRARY_FUNCTION_ERROR,
    LIBRARY_NO_ERROR, LIBRARY_TYPE_ERROR,
};

#[test]
fn statuses_have_the_librarylink_codes() {
    assert_eq!(LIBRARY_NO_ERROR, 0);
    assert_eq!(LIBRARY_TYPE_ERROR, 1);
    assert_eq!(LIBRARY_FUNCTION_ERROR, 6);
    assert_eq!(u32::from(LibraryLinkStatus::NoError), 0);
    assert_eq!(u32::from(LibraryLinkStatus::TypeError), 1);
    assert_eq!(u32::from(LibraryLinkStatus::FunctionError), 6);
}

#[test]
fn status_into_result() {
    assert!(LibraryLinkStatus::NoError.into_result().is_ok());
    assert!(matches!(
        LibraryLinkStatus::FunctionError.into_result(),
        Err(LibraryLinkStatus::FunctionError)
    ));
    assert!(matches!(
        LibraryLinkStatus::TypeError.into_result(),
        Err(LibraryLinkStatus::TypeError)
    ));
}

#[test]
fn status_is_put_back_together() {
    let err = LibraryLinkStatus::TypeError.into_result().unwrap_err();
    assert!(matches!(
        LibraryLinkStatus::from_error(err),
        LibraryLinkStatus::TypeError
    ));
    let err = LibraryLinkStatus::FunctionError.into_result().unwrap_err();
    assert!(matches!(
        LibraryLinkStatus::from_error(err),
        LibraryLinkStatus::FunctionError
    ));
    assert!(matches!(
        LibraryLinkStatus::from_ok(()),
        LibraryLinkStatus::NoError
    ));
}

#[test]
fn only_the_reply_one_requests_an_abort() {
    assert!(abort_requested(Some(1)));
    assert!(!abort_requested(Some(0)));
    assert!(!abort_requested(Some(2)));
    assert!(!abort_requested(Some(-1)));
    assert!(!abort_requested(None));
}

#[test]
fn engine_asks_the_kernel() {
    let engine: Engine = Box::new(EngineCallbacks::new(Some(|| 1i64)));
    assert!(engine.aborted());
    let engine: Engine = Box::new(EngineCallbacks::new(Some(|| 0i64)));
    assert!(!engine.aborted());
    let none: Option<fn() -> i64> = None;
    let engine: Engine = Box::new(EngineCallbacks::new(none));
    assert!(!engine.aborted());
}
