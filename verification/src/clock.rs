//! The one place the bridge reads the wall clock: stamping log lines.

use vstd::prelude::*;

verus! {

/// Relies on `chrono::Local::now` and chrono's strftime-style formatter:
/// `%H`, `%M` and `%S` each render as exactly two zero-padded digits, so
/// `"%H:%M:%S"` always renders as eight characters. Which eight depends on
/// the wall clock, so nothing more is promised.
#[verifier::external_body]
pub(crate) fn now_hms() -> (r: String)
    ensures
        r@.len() == 8,
{
    chrono::Local::now().format("%H:%M:%S").to_string()
}

} // verus!
