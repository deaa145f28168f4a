//! The decisions of `fabric_rust_register`: which entrypoint tables are
//! accepted, and what a finished registration reports to Java.

use vstd::prelude::*;
use vstd::string::to_string_from_display_ensures;

use crate::entries::{all_distinct, find_duplicate, is_first_repeat, seen_before, texts};
use crate::error::SdkError;
use crate::payload::{panic_message, payload_text, PanicPayload};
use crate::ABI_VERSION;

verus! {

/// The message for a registration call that was handed no registrar object.
pub open spec fn null_registrar_text() -> Seq<char> {
    "fabric_rust_register called with a null registrar"@
}

/// The message for an entrypoint table that names `dup` twice.
pub open spec fn duplicate_text(dup: Seq<char>) -> Seq<char> {
    "duplicate entrypoint name `"@ + dup + "` in register_entrypoints!"@
}

/// The checks made before any entrypoint is registered: a registrar must be
/// present, and no entrypoint name may occur twice (the first repeated name,
/// as [`find_duplicate`] finds it, is the one reported).
pub fn check_entries(registrar_is_null: bool, names: &[&str]) -> (r: Result<(), SdkError>)
    ensures
        registrar_is_null ==> (r matches Err(SdkError::Msg(m)) && m@ == null_registrar_text()),
        !registrar_is_null && all_distinct(texts(names@)) ==> r is Ok,
        !registrar_is_null && !all_distinct(texts(names@)) ==> (r matches Err(SdkError::Msg(m))
            && exists|j: int|
            is_first_repeat(texts(names@), j) && m@ == duplicate_text(texts(names@)[j])),
{
    if registrar_is_null {
        return Err(SdkError::Msg(String::from_str("fabric_rust_register called with a null registrar")));
    }
    match find_duplicate(names) {
        Some(dup) => {
            let mut m = String::from_str("duplicate entrypoint name `");
            m.append(dup);
            m.append("` in register_entrypoints!");
            Err(SdkError::Msg(m))
        },
        None => Ok(()),
    }
}

/// How a registration attempt ended: every entrypoint was registered, a
/// step failed with an error, or a step panicked.
pub enum RegistrationEnd {
    Registered,
    Failed(SdkError),
    Panicked(PanicPayload),
}

/// What `fabric_rust_register` hands back to Java: the value it returns, and
/// the message of the `RuntimeException` it throws, if it throws one.
pub struct Resolution {
    pub code: i32,
    pub throw: Option<String>,
}

/// The prefix of the exception message for a registration that failed.
pub open spec fn failed_prefix() -> Seq<char> {
    "fabric-rust registration failed: "@
}

/// The prefix of the exception message for a registration that panicked.
pub open spec fn panicked_prefix() -> Seq<char> {
    "fabric-rust registration panicked: "@
}

/// Turns the end of a registration into what Java sees. A registration that
/// went through reports the ABI version and throws nothing. One that failed
/// or panicked reports `-1` and throws a `RuntimeException` describing the
/// failure, unless an exception is already pending, which is then left to
/// propagate. No other value is ever reported.
pub fn resolve_registration(end: RegistrationEnd, exception_pending: bool) -> (r: Resolution)
    ensures
        r.code == ABI_VERSION || r.code == -1,
        end is Registered <==> r.code == ABI_VERSION,
        end is Registered ==> r.throw is None,
        end matches RegistrationEnd::Failed(e) ==> {
            &&& r.code == -1
            &&& (r.throw is None <==> exception_pending)
            &&& (r.throw matches Some(t) ==> exists|text: Seq<char>| t@ == failed_prefix() + text)
            &&& (r.throw matches Some(t) ==> e matches SdkError::Msg(m) ==> t@ == failed_prefix() + m@)
            &&& (r.throw matches Some(t) ==> e matches SdkError::Jni(j) ==> exists|s: String|
                #![trigger to_string_from_display_ensures::<jni::errors::Error>(&j, s)]
                to_string_from_display_ensures::<jni::errors::Error>(&j, s) && t@ == failed_prefix()
                    + s@)
        },
        end matches RegistrationEnd::Panicked(p) ==> {
            &&& r.code == -1
            &&& (r.throw is None <==> exception_pending)
            &&& (r.throw matches Some(t) ==> t@ == panicked_prefix() + payload_text(p))
        },
{
    match end {
        RegistrationEnd::Registered => Resolution { code: ABI_VERSION, throw: None },
        RegistrationEnd::Failed(e) => {
            if exception_pending {
                Resolution { code: -1, throw: None }
            } else {
                let text = e.to_string();
                let mut t = String::from_str("fabric-rust registration failed: ");
                t.append(text.as_str());
                assert(t@ == failed_prefix() + text@);
                Resolution { code: -1, throw: Some(t) }
            }
        },
        RegistrationEnd::Panicked(p) => {
            if exception_pending {
                Resolution { code: -1, throw: None }
            } else {
                let message = panic_message(&p);
                let mut t = String::from_str("fabric-rust registration panicked: ");
                t.append(message.as_str());
                Resolution { code: -1, throw: Some(t) }
            }
        },
    }
}

/// The steps of a registration. Each step may fail, which ends the
/// registration with that step's error; otherwise [`next_step`] gives the
/// step that follows.
#[derive(Debug, Clone, Copy, PartialEq, Eq, Structural)]
pub enum Step {
    /// The JVM handle of this library must be registered.
    CheckVm,
    /// The registrar and the entrypoint table are checked ([`check_entries`]).
    CheckEntries,
    /// The Java logging class and method are looked up and cached.
    CacheLogRefs,
    /// The registrar's `register(String, long)` method is looked up.
    ResolveRegisterMethod,
    /// The entry at this position is handed to the registrar.
    Upcall(usize),
    /// Every step succeeded.
    Done,
}

/// The step that follows `step` when it succeeds, for a table of `n` entries.
pub open spec fn step_after(step: Step, n: usize) -> Step {
    match step {
        Step::CheckVm => Step::CheckEntries,
        Step::CheckEntries => Step::CacheLogRefs,
        Step::CacheLogRefs => Step::ResolveRegisterMethod,
        Step::ResolveRegisterMethod => if n == 0 {
            Step::Done
        } else {
            Step::Upcall(0)
        },
        Step::Upcall(i) => if i + 1 < n {
            Step::Upcall((i + 1) as usize)
        } else {
            Step::Done
        },
        Step::Done => Step::Done,
    }
}

/// The step taken after `k` successful steps, starting from
/// [`Step::CheckVm`], for a table of `n` entries.
pub open spec fn step_at(k: nat, n: usize) -> Step {
    if k == 0 {
        Step::CheckVm
    } else if k == 1 {
        Step::CheckEntries
    } else if k == 2 {
        Step::CacheLogRefs
    } else if k == 3 {
        Step::ResolveRegisterMethod
    } else if k < 4 + n {
        Step::Upcall((k - 4) as usize)
    } else {
        Step::Done
    }
}

/// The step that follows `step` when it succeeds, for a table of
/// `entry_count` entries.
pub fn next_step(step: Step, entry_count: usize) -> (r: Step)
    ensures
        r == step_after(step, entry_count),
{
    match step {
        Step::CheckVm => Step::CheckEntries,
        Step::CheckEntries => Step::CacheLogRefs,
        Step::CacheLogRefs => Step::ResolveRegisterMethod,
        Step::ResolveRegisterMethod => if entry_count == 0 {
            Step::Done
        } else {
            Step::Upcall(0)
        },
        Step::Upcall(i) => if entry_count > 0 && i < entry_count - 1 {
            Step::Upcall(i + 1)
        } else {
            Step::Done
        },
        Step::Done => Step::Done,
    }
}

/// Starting from [`Step::CheckVm`], each successful step leads to the next
/// one of the fixed order: the checks come before the log cache, the cache
/// before the registrar's method is looked up, and that before any entry is
/// handed over.
pub proof fn steps_follow_in_order(k: nat, n: usize)
    ensures
        step_after(step_at(k, n), n) == step_at(k + 1, n),
{
}

/// A registration reaches [`Step::Done`] only after handing every entry of
/// the table to the registrar, each once and in table order: after `k`
/// successful steps, for `4 <= k < 4 + n`, it hands over entry `k - 4`, and
/// before `4 + n` steps it is not done.
pub proof fn registration_hands_over_every_entry(n: usize)
    ensures
        step_at(0, n) == Step::CheckVm,
        step_at(1, n) == Step::CheckEntries,
        step_at(2, n) == Step::CacheLogRefs,
        step_at(3, n) == Step::ResolveRegisterMethod,
        forall|k: nat| 4 <= k < 4 + n ==> #[trigger] step_at(k, n) == Step::Upcall((k - 4) as usize),
        step_at((4 + n) as nat, n) == Step::Done,
        forall|k: nat| k < 4 + n ==> step_at(k, n) != Step::Done,
{
}

/// `check_entries` turns away a call without a registrar with the fixed
/// null-registrar message; with a registrar it accepts exactly the tables
/// whose names are pairwise distinct, and turns away any other table naming
/// the text of the first name that repeats an earlier one.
pub proof fn check_entries_accepts_exactly_distinct_tables(
    registrar_is_null: bool,
    names: &[&str],
    r: Result<(), SdkError>,
)
    requires
        call_ensures(check_entries, (registrar_is_null, names), r),
    ensures
        registrar_is_null ==> (r matches Err(SdkError::Msg(m)) && m@
            == "fabric_rust_register called with a null registrar"@),
        !registrar_is_null ==> (r is Ok <==> forall|i: int, j: int|
            0 <= i < j < names@.len() ==> #[trigger] names@[i]@ != #[trigger] names@[j]@),
        !registrar_is_null && r is Err ==> (r matches Err(SdkError::Msg(m)) && exists|j: int|
            #![trigger names@[j]]
            0 <= j < names@.len() && (exists|i: int| 0 <= i < j && names@[i]@ == names@[j]@)
                && (forall|a: int, b: int|
                0 <= a < b < j ==> #[trigger] names@[a]@ != #[trigger] names@[b]@) && m@
                == "duplicate entrypoint name `"@ + names@[j]@ + "` in register_entrypoints!"@),
{
    let s = texts(names@);
    if !registrar_is_null {
        if all_distinct(s) {
            assert forall|i: int, j: int| 0 <= i < j < names@.len() implies #[trigger] names@[i]@
                != #[trigger] names@[j]@ by {
                assert(s[i] == names@[i]@ && s[j] == names@[j]@);
            }
        } else {
            let j = choose|j: int|
                is_first_repeat(s, j) && (r matches Err(SdkError::Msg(m)) && m@ == duplicate_text(
                    s[j],
                ));
            let i = choose|i: int| 0 <= i < j && s[i] == s[j];
            assert(s[i] == names@[i]@ && s[j] == names@[j]@);
            assert forall|a: int, b: int| 0 <= a < b < j implies #[trigger] names@[a]@
                != #[trigger] names@[b]@ by {
                assert(!seen_before(s, b));
                assert(s[a] == names@[a]@ && s[b] == names@[b]@);
            }
            assert(!(forall|i: int, j: int|
                0 <= i < j < names@.len() ==> #[trigger] names@[i]@ != #[trigger] names@[j]@));
        }
    }
}

/// What Java sees of a registration: a registration that went through
/// returns 1, the ABI version, and throws nothing; one that failed or
/// panicked returns -1 and, unless an exception was already pending, throws
/// `"fabric-rust registration failed: "` followed by the error's own text, or
/// `"fabric-rust registration panicked: "` followed by the text the panic
/// carried (or the placeholder when it carried none).
pub proof fn registration_reports_what_happened(
    end: RegistrationEnd,
    exception_pending: bool,
    r: Resolution,
)
    requires
        call_ensures(resolve_registration, (end, exception_pending), r),
    ensures
        r.code == 1 || r.code == -1,
        end is Registered ==> r.code == 1 && r.throw is None,
        !(end is Registered) ==> r.code == -1,
        !(end is Registered) && exception_pending ==> r.throw is None,
        end matches RegistrationEnd::Failed(SdkError::Msg(m)) ==> !exception_pending ==> (
        r.throw matches Some(t) && t@ == "fabric-rust registration failed: "@ + m@),
        end matches RegistrationEnd::Failed(SdkError::Jni(j)) ==> !exception_pending ==> (
        r.throw matches Some(t) && exists|s: String|
            #![trigger to_string_from_display_ensures::<jni::errors::Error>(&j, s)]
            to_string_from_display_ensures::<jni::errors::Error>(&j, s) && t@
                == "fabric-rust registration failed: "@ + s@),
        end matches RegistrationEnd::Panicked(PanicPayload::StaticStr(s)) ==> !exception_pending ==> (
        r.throw matches Some(t) && t@ == "fabric-rust registration panicked: "@ + s@),
        end matches RegistrationEnd::Panicked(PanicPayload::Owned(s)) ==> !exception_pending ==> (
        r.throw matches Some(t) && t@ == "fabric-rust registration panicked: "@ + s@),
        end matches RegistrationEnd::Panicked(PanicPayload::Other) ==> !exception_pending ==> (
        r.throw matches Some(t) && t@
            == "fabric-rust registration panicked: "@ + "non-string panic payload"@),
{
}

/// The registration steps run in one fixed order: the JVM check, the table
/// check, the log cache, the registrar's method, then the entries one by one
/// from the first to the last, and then the registration is done.
pub proof fn next_step_runs_the_fixed_order(step: Step, n: usize, r: Step)
    requires
        call_ensures(next_step, (step, n), r),
    ensures
        step is CheckVm ==> r == Step::CheckEntries,
        step is CheckEntries ==> r == Step::CacheLogRefs,
        step is CacheLogRefs ==> r == Step::ResolveRegisterMethod,
        step is ResolveRegisterMethod && n == 0 ==> r == Step::Done,
        step is ResolveRegisterMethod && n > 0 ==> r == Step::Upcall(0),
        step matches Step::Upcall(i) ==> i + 1 < n ==> r == Step::Upcall((i + 1) as usize),
        step matches Step::Upcall(i) ==> i + 1 >= n ==> r == Step::Done,
        step is Done ==> r == Step::Done,
{
}

} // verus!
