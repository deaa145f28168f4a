//! What the shim around an entrypoint reports when it cannot run it, or when
//! the entrypoint panics.

use vstd::prelude::*;

use crate::error::SdkError;
use crate::payload::{panic_message, payload_text, PanicPayload};

verus! {

/// The notice written to stderr when an entrypoint shim is called without a
/// `JNIEnv`, in which case the entrypoint is not run.
pub fn null_env_notice(name: &str) -> (r: String)
    ensures
        r@ == "[fabric-rust] invoke_entrypoint(`"@ + name@ + "`) called with a null JNIEnv"@,
{
    let mut r = String::from_str("[fabric-rust] invoke_entrypoint(`");
    r.append(name);
    r.append("`) called with a null JNIEnv");
    r
}

/// The error an entrypoint shim reports when the entrypoint `name` panicked
/// with `payload`; it names the entrypoint. The shim hands it to `jni`'s
/// `ThrowRuntimeExAndDefault` policy, which throws a `RuntimeException` whose
/// message is `"Rust error: "` followed by this error's text.
pub fn entrypoint_panic_error(name: &str, payload: &PanicPayload) -> (r: SdkError)
    ensures
        r matches SdkError::Msg(m) && m@ == "entrypoint `"@ + name@ + "` panicked: "@ + payload_text(
            *payload,
        ),
{
    let message = panic_message(payload);
    let mut m = String::from_str("entrypoint `");
    m.append(name);
    m.append("` panicked: ");
    m.append(message.as_str());
    SdkError::Msg(m)
}

/// The error for a panicking entrypoint names the entrypoint and then gives
/// the text the panic carried, or the placeholder when it carried none.
pub proof fn entrypoint_panic_names_entrypoint_and_text(
    name: &str,
    payload: PanicPayload,
    r: SdkError,
)
    requires
        call_ensures(entrypoint_panic_error, (name, &payload), r),
    ensures
        payload matches PanicPayload::StaticStr(s) ==> (r matches SdkError::Msg(m) && m@
            == "entrypoint `"@ + name@ + "` panicked: "@ + s@),
        payload matches PanicPayload::Owned(s) ==> (r matches SdkError::Msg(m) && m@
            == "entrypoint `"@ + name@ + "` panicked: "@ + s@),
        payload is Other ==> (r matches SdkError::Msg(m) && m@ == "entrypoint `"@ + name@
            + "` panicked: "@ + "non-string panic payload"@),
{
}

} // verus!
