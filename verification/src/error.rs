//! The SDK's own error type, as reported to Java in a `RuntimeException`.

use vstd::prelude::*;
use vstd::string::to_string_from_display_ensures;

verus! {

/// The `jni` crate's error type, carried through unchanged.
#[verifier::external_type_specification]
#[verifier::external_body]
pub struct ExJniError(jni::errors::Error);

/// Error type for SDK-internal failures; surfaced to Java as a
/// `RuntimeException` message.
#[derive(Debug)]
pub enum SdkError {
    Jni(jni::errors::Error),
    Msg(String),
}

impl SdkError {
    /// The text of this error: the `jni` error's own `Display` text, or the
    /// message.
    pub fn to_string(&self) -> (r: String)
        ensures
            self matches SdkError::Msg(m) ==> r@ == m@,
            self matches SdkError::Jni(e) ==> to_string_from_display_ensures::<jni::errors::Error>(
                &e,
                r,
            ),
    {
        match self {
            SdkError::Jni(e) => e.to_string(),
            SdkError::Msg(m) => m.clone(),
        }
    }
}

impl From<jni::errors::Error> for SdkError {
    fn from(e: jni::errors::Error) -> (r: Self) {
        SdkError::Jni(e)
    }
}

impl vstd::std_specs::convert::FromSpecImpl<jni::errors::Error> for SdkError {
    open spec fn obeys_from_spec() -> bool {
        true
    }

    open spec fn from_spec(v: jni::errors::Error) -> Self {
        SdkError::Jni(v)
    }
}

/// Converting a `jni` error keeps that very error, so the converted error's
/// text is the `jni` error's own `Display` text.
pub proof fn from_keeps_the_jni_error(e: jni::errors::Error, r: SdkError)
    requires
        call_ensures(<SdkError as From<jni::errors::Error>>::from, (e,), r),
    ensures
        r == SdkError::Jni(e),
{
}

} // verus!
