//! The message carried by a caught panic.

use vstd::prelude::*;

verus! {

/// What a panic carried, as far as its message is concerned: `panic!("...")`
/// with a literal carries a `&'static str`, a formatted `panic!` carries a
/// `String`, and anything else (`std::panic::panic_any(42)`) carries no text.
pub enum PanicPayload {
    StaticStr(&'static str),
    Owned(String),
    Other,
}

/// The message that [`panic_message`] gives for a payload.
pub open spec fn payload_text(payload: PanicPayload) -> Seq<char> {
    match payload {
        PanicPayload::StaticStr(s) => s@,
        PanicPayload::Owned(s) => s@,
        PanicPayload::Other => "non-string panic payload"@,
    }
}

/// Best-effort extraction of a panic payload's message: the text itself for
/// a string payload, and a fixed placeholder for any other payload.
pub fn panic_message(payload: &PanicPayload) -> (r: String)
    ensures
        r@ == payload_text(*payload),
        payload matches PanicPayload::StaticStr(s) ==> r@ == s@,
        payload matches PanicPayload::Owned(s) ==> r@ == s@,
        payload is Other ==> r@ == "non-string panic payload"@,
{
    match payload {
        PanicPayload::StaticStr(s) => String::from_str(s),
        PanicPayload::Owned(s) => s.clone(),
        PanicPayload::Other => String::from_str("non-string panic payload"),
    }
}

/// A caught panic's message is the very text it carried, whatever that text
/// is: a `&'static str` payload and a `String` payload both give their own
/// characters back, and only a payload that carries no text gives the fixed
/// placeholder.
pub proof fn panic_message_is_the_carried_text(payload: PanicPayload, r: String)
    requires
        call_ensures(panic_message, (&payload,), r),
    ensures
        payload matches PanicPayload::StaticStr(s) ==> r@ == s@,
        payload matches PanicPayload::Owned(s) ==> r@ == s@,
        payload is Other ==> r@ == "non-string panic payload"@,
{
}

/// Two payloads that carry the same text, one borrowed and one owned, give
/// the same message.
pub proof fn borrowed_and_owned_text_agree(
    s: &'static str,
    o: String,
    rs: String,
    ro: String,
)
    requires
        s@ == o@,
        call_ensures(panic_message, (&PanicPayload::StaticStr(s),), rs),
        call_ensures(panic_message, (&PanicPayload::Owned(o),), ro),
    ensures
        rs@ == ro@,
        rs@ == s@,
{
}

} // verus!
