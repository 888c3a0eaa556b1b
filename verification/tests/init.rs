use emoji_logger::try_init;
use emoji_logger::try_init_custom_env;
use emoji_logger::InitError;

#[test]
fn global_logger_initializes_once() {
    assert!(try_init().is_ok());
    // The global logger is already set: every later attempt fails.
    assert!(matches!(try_init(), Err(InitError::AlreadyInitialized)));
    assert!(matches!(
        try_init_custom_env("EMOJI_LOGGER_TEST_LOG"),
        Err(InitError::AlreadyInitialized)
    ));
}
