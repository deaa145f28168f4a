//! Log levels, numbered as the Java side's `log(int, String, String)` expects.

use vstd::prelude::*;

verus! {

/// Log levels understood by the Java logging upcall.
#[derive(Debug, Clone, Copy, PartialEq, Eq, Structural)]
pub enum Level {
    Error,
    Warn,
    Info,
    Debug,
    Trace,
}

impl Level {
    /// The number that stands for this level on the Java side:
    /// 0 = error, 1 = warn, 2 = info, 3 = debug, 4 = trace.
    pub open spec fn code(self) -> int {
        match self {
            Level::Error => 0,
            Level::Warn => 1,
            Level::Info => 2,
            Level::Debug => 3,
            Level::Trace => 4,
        }
    }

    /// The human-readable name of this level.
    pub open spec fn label(self) -> Seq<char> {
        match self {
            Level::Error => "ERROR"@,
            Level::Warn => "WARN"@,
            Level::Info => "INFO"@,
            Level::Debug => "DEBUG"@,
            Level::Trace => "TRACE"@,
        }
    }

    /// Human-readable name, used when a log line is written to stderr.
    pub fn name(self) -> (r: &'static str)
        ensures
            r@ == self.label(),
    {
        match self {
            Level::Error => "ERROR",
            Level::Warn => "WARN",
            Level::Info => "INFO",
            Level::Debug => "DEBUG",
            Level::Trace => "TRACE",
        }
    }

    /// The number that stands for this level on the Java side.
    pub fn to_i32(self) -> (r: i32)
        ensures
            r == self.code(),
    {
        match self {
            Level::Error => 0,
            Level::Warn => 1,
            Level::Info => 2,
            Level::Debug => 3,
            Level::Trace => 4,
        }
    }

    /// Inverse of [`Level::to_i32`]; `None` for out-of-range values.
    pub fn from_i32(value: i32) -> (r: Option<Level>)
        ensures
            r == level_of_code(value as int),
    {
        match value {
            0 => Some(Level::Error),
            1 => Some(Level::Warn),
            2 => Some(Level::Info),
            3 => Some(Level::Debug),
            4 => Some(Level::Trace),
            _ => None,
        }
    }
}

/// The level whose number is `code`, if there is one.
pub open spec fn level_of_code(code: int) -> Option<Level> {
    if code == 0 {
        Some(Level::Error)
    } else if code == 1 {
        Some(Level::Warn)
    } else if code == 2 {
        Some(Level::Info)
    } else if code == 3 {
        Some(Level::Debug)
    } else if code == 4 {
        Some(Level::Trace)
    } else {
        None
    }
}

/// Each level's name is the level spelled in capitals.
pub proof fn name_is_the_level_in_capitals(l: Level, name: &'static str)
    requires
        call_ensures(Level::name, (l,), name),
    ensures
        l is Error ==> name@ == "ERROR"@,
        l is Warn ==> name@ == "WARN"@,
        l is Info ==> name@ == "INFO"@,
        l is Debug ==> name@ == "DEBUG"@,
        l is Trace ==> name@ == "TRACE"@,
{
}

/// Each level's number is the one the Java side expects: 0 for error, 1 for
/// warn, 2 for info, 3 for debug, 4 for trace.
pub proof fn to_i32_is_the_java_number(l: Level, code: i32)
    requires
        call_ensures(Level::to_i32, (l,), code),
    ensures
        l is Error ==> code == 0,
        l is Warn ==> code == 1,
        l is Info ==> code == 2,
        l is Debug ==> code == 3,
        l is Trace ==> code == 4,
{
}

/// `from_i32` undoes `to_i32`: the number of a level gives that level back.
pub proof fn from_i32_undoes_to_i32(l: Level, code: i32, back: Option<Level>)
    requires
        call_ensures(Level::to_i32, (l,), code),
        call_ensures(Level::from_i32, (code,), back),
    ensures
        back == Some(l),
{
}

/// `from_i32` accepts exactly the numbers `0..=4`, and `to_i32` gives the
/// accepted number back.
pub proof fn from_i32_accepts_exactly_the_java_numbers(value: i32, r: Option<Level>, code: i32)
    requires
        call_ensures(Level::from_i32, (value,), r),
        r matches Some(l) ==> call_ensures(Level::to_i32, (l,), code),
    ensures
        r is Some <==> 0 <= value <= 4,
        r is Some ==> code == value,
{
}

/// Every level comes back from its own number: `from_i32(l.to_i32()) == Some(l)`.
pub proof fn level_round_trips_through_code(l: Level)
    ensures
        level_of_code(l.code()) == Some(l),
{
}

/// A number names a level exactly when it lies in `0..=4`, and the level it
/// names has that number again.
pub proof fn code_round_trips_through_level(code: int)
    ensures
        level_of_code(code) is Some <==> 0 <= code <= 4,
        level_of_code(code) matches Some(l) ==> l.code() == code,
{
}

/// Distinct levels have distinct numbers and distinct names.
pub proof fn levels_are_told_apart(a: Level, b: Level)
    requires
        a != b,
    ensures
        a.code() != b.code(),
        a.label() != b.label(),
{
    reveal_strlit("ERROR");
    reveal_strlit("WARN");
    reveal_strlit("INFO");
    reveal_strlit("DEBUG");
    reveal_strlit("TRACE");
    assert(a.label()[0] != b.label()[0]);
}

} // verus!
