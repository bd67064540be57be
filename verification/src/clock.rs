//! The capture timestamp.
//!
//! Results and history records carry the wall-clock time at which a probe
//! was reduced, rendered at a fixed offset of UTC+7. The time depends on
//! the machine's clock, so nothing is promised of the string; everything
//! the engine states holds whatever timestamp came back.

use vstd::prelude::*;

verus! {

/// Relies on chrono's `Utc::now`, `DateTime::with_timezone` and
/// `DateTime::format`: the current wall-clock time at offset UTC+7,
/// rendered as `YYYY-MM-DD HH:MM:SS`. The result depends on the system
/// clock, so no contract pins it down. `FixedOffset::east_opt` returns
/// `Some` for every offset strictly within one day, so the `unwrap`
/// cannot panic; `Utc::now` panics only on a system clock set before the
/// Unix epoch, which no input of this crate can bring about.
#[verifier::external_body]
pub(crate) fn now_timestamp() -> String {
    let offset = chrono::FixedOffset::east_opt(7 * 3600).unwrap();
    chrono::Utc::now().with_timezone(&offset).format("%Y-%m-%d %H:%M:%S").to_string()
}

} // verus!
