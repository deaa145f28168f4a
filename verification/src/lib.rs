//! Verified core of the fabric-rust SDK: the log levels shared with the Java
//! side, the checks made on an entrypoint table before it is registered, and
//! what the registration, entrypoint and logging paths report.

use vstd::prelude::*;

pub mod entries;
pub mod entrypoint;
pub mod error;
pub mod level;
pub mod logging;
pub mod payload;
pub mod registration;

pub use entries::find_duplicate;
pub use error::SdkError;
pub use level::Level;
pub use payload::{panic_message, PanicPayload};

verus! {

/// The version of the registration protocol this SDK speaks. A successful
/// registration reports this value; a failed one reports a negative value.
pub const ABI_VERSION: i32 = 1;

} // verus!
