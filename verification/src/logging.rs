//! The stderr fallback of the log macros.

use vstd::prelude::*;

use crate::level::Level;

verus! {

/// The line written to stderr for a message that could not be delivered to
/// the Java logger.
pub open spec fn fallback_text(level: Level, tag: Seq<char>, message: Seq<char>) -> Seq<char> {
    "["@ + level.label() + "] ["@ + tag + "] "@ + message
}

/// The stderr fallback of a log call: nothing when the message reached the
/// Java logger, and otherwise the line `[LEVEL] [tag] message` to write to
/// stderr instead, so that logging never fails.
pub fn log_fallback(level: Level, tag: &str, message: &str, delivered: bool) -> (r: Option<String>)
    ensures
        r is None <==> delivered,
        r matches Some(line) ==> line@ == fallback_text(level, tag@, message@),
        r matches Some(line) ==> line@ == "["@ + level.label() + "] ["@ + tag@ + "] "@ + message@,
{
    if delivered {
        return None;
    }
    let mut line = String::from_str("[");
    line.append(level.name());
    line.append("] [");
    line.append(tag);
    line.append("] ");
    line.append(message);
    Some(line)
}

/// The fallback line of an undelivered message names the message's own
/// level, exactly as [`Level::name`] spells it, then the tag, then the
/// message: `[LEVEL] [tag] message`, for every level, tag and message.
pub proof fn fallback_line_names_its_own_level(
    level: Level,
    tag: &str,
    message: &str,
    name: &'static str,
    r: Option<String>,
)
    requires
        call_ensures(Level::name, (level,), name),
        call_ensures(log_fallback, (level, tag, message, false), r),
    ensures
        r matches Some(line) && line@ == "["@ + name@ + "] ["@ + tag@ + "] "@ + message@,
        r matches Some(line) && line@ == "["@ + match level {
            Level::Error => "ERROR"@,
            Level::Warn => "WARN"@,
            Level::Info => "INFO"@,
            Level::Debug => "DEBUG"@,
            Level::Trace => "TRACE"@,
        } + "] ["@ + tag@ + "] "@ + message@,
{
}

/// Whether a fallback line is produced depends on delivery alone: a
/// delivered message never gives one, an undelivered one always does, for
/// any level, tag and message.
pub proof fn fallback_only_when_undelivered(
    level: Level,
    tag: &str,
    message: &str,
    delivered: bool,
    r: Option<String>,
)
    requires
        call_ensures(log_fallback, (level, tag, message, delivered), r),
    ensures
        r is Some <==> !delivered,
{
}

} // verus!
