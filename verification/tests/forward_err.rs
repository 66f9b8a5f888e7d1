use doglog::errors::InitError;
use doglog::errors::SendError;
use doglog::formatter::RecordFormatter;
use doglog::forward::EventForwarder;
use doglog::level::Level;

#[test]
fn invalid_endpoint_gives_send_error_and_rendering_still_succeeds() {
    // an empty collector address cannot be resolved, so every send fails
    let forwarder = EventForwarder::with_config("0.0.0.0:0", "", "").unwrap();
    let tags = vec!["level:info".to_string(), "module:one::deep".to_string()];
    let sent = forwarder.forward("[LOG 0:00:00.000] one::deep", "hello", &tags);
    assert_eq!(sent, Err(SendError));

    // the console path is unaffected by the broken collector
    let formatter = RecordFormatter::with_forwarder(forwarder);
    let block = formatter.emit(Level::Info, Some("one::deep"), "such information", 0, 0);
    assert_eq!(
        block,
        "\u{1b}[1;32m[LOG 0:00:00.000 one::deep]\u{1b}[0m such information\n"
    );
}

#[test]
fn unbindable_send_address_fails_construction() {
    // the sending socket cannot be bound to a nonsense address, so the
    // client cannot be constructed; surfaced immediately
    let built = EventForwarder::with_config("not an address", "127.0.0.1:8125", "");
    assert!(matches!(built, Err(InitError::CollectorConstruction)));
}
