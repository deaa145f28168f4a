use fabric_rust::entrypoint::{entrypoint_panic_error, null_env_notice};
use fabric_rust::logging::log_fallback;
use fabric_rust::registration::{resolve_registration, RegistrationEnd};
use fabric_rust::{Level, PanicPayload, SdkError, ABI_VERSION};

#[test]
fn a_finished_registration_reports_the_abi_version() {
    let r = resolve_registration(RegistrationEnd::Registered, false);
    assert_eq!(r.code, ABI_VERSION);
    assert_eq!(r.code, 1);
    assert_eq!(r.throw, None);
}

#[test]
fn a_failed_registration_throws_and_returns_minus_one() {
    let err = SdkError::Msg(String::from("boom"));
    let r = resolve_registration(RegistrationEnd::Failed(err), false);
    assert_eq!(r.code, -1);
    assert_eq!(r.throw.as_deref(), Some("fabric-rust registration failed: boom"));
}

#[test]
fn a_pending_exception_is_not_replaced() {
    let err = SdkError::Msg(String::from("boom"));
    let r = resolve_registration(RegistrationEnd::Failed(err), true);
    assert_eq!(r.code, -1);
    assert_eq!(r.throw, None);

    let r = resolve_registration(RegistrationEnd::Panicked(PanicPayload::Other), true);
    assert_eq!(r.code, -1);
    assert_eq!(r.throw, None);
}

#[test]
fn a_jni_error_is_reported_with_its_own_text() {
    let err = SdkError::from(jni::errors::Error::JavaException);
    assert_eq!(err.to_string(), "Java exception was thrown");
    let r = resolve_registration(RegistrationEnd::Failed(err), false);
    assert_eq!(r.code, -1);
    assert_eq!(
        r.throw.as_deref(),
        Some("fabric-rust registration failed: Java exception was thrown")
    );
}

#[test]
fn a_panicking_registration_reports_the_panic() {
    let r = resolve_registration(
        RegistrationEnd::Panicked(PanicPayload::StaticStr("bad table")),
        false,
    );
    assert_eq!(r.code, -1);
    assert_eq!(r.throw.as_deref(), Some("fabric-rust registration panicked: bad table"));

    let r = resolve_registration(RegistrationEnd::Panicked(PanicPayload::Other), false);
    assert_eq!(
        r.throw.as_deref(),
        Some("fabric-rust registration panicked: non-string panic payload")
    );
}

#[test]
fn a_null_env_notice_names_the_entrypoint() {
    assert_eq!(
        null_env_notice("init"),
        "[fabric-rust] invoke_entrypoint(`init`) called with a null JNIEnv"
    );
}

#[test]
fn an_entrypoint_panic_names_the_entrypoint() {
    let payload = PanicPayload::Owned(String::from("index out of bounds"));
    match entrypoint_panic_error("client_init", &payload) {
        SdkError::Msg(m) => assert_eq!(m, "entrypoint `client_init` panicked: index out of bounds"),
        SdkError::Jni(_) => panic!("expected a message"),
    }
}

#[test]
fn an_undelivered_log_line_falls_back_to_stderr_text() {
    assert_eq!(
        log_fallback(Level::Info, "fabric_rust_test", "fallback works", false).as_deref(),
        Some("[INFO] [fabric_rust_test] fallback works")
    );
    assert_eq!(
        log_fallback(Level::Error, "my_mod", "", false).as_deref(),
        Some("[ERROR] [my_mod] ")
    );
}

#[test]
fn a_delivered_log_line_needs_no_fallback() {
    assert_eq!(log_fallback(Level::Trace, "my_mod", "hello", true), None);
}

#[test]
fn sdk_error_debug_shows_the_variant() {
    let err = SdkError::Msg(String::from("boom"));
    assert_eq!(format!("{:?}", err), "Msg(\"boom\")");
}
