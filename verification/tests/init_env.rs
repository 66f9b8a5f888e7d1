#[test]
fn unset_filter_variable_still_initializes() {
    // the variable is not set, so the facade's default threshold stays
    let r = doglog::try_init_custom_env("DOGLOG_FILTER_VARIABLE_NOBODY_SETS");
    assert!(r.is_ok());
}
