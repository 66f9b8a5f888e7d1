use doglog::errors::InitError;

#[test]
fn try_init_succeeds_once_then_reports_already_initialized() {
    let first = doglog::try_init();
    assert!(first.is_ok());
    let second = doglog::try_init();
    assert_eq!(second, Err(InitError::AlreadyInitialized));
}
