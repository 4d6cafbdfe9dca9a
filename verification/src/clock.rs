//! The ledger's clock.

use anchor_lang::prelude::{Clock, SolanaSysvar};
use vstd::prelude::*;

verus! {

/// Calls `Clock::get` and picks the `unix_timestamp` of the reading. Nothing is
/// claimed of the reading: it is whatever the runtime supplies at this invocation.
/// Where the runtime supplies none, the result is `None`.
#[verifier::external_body]
pub(crate) fn unix_timestamp() -> (reading: Option<i64>) {
    match Clock::get() {
        Ok(clock) => Some(clock.unix_timestamp),
        Err(_) => None,
    }
}

} // verus!
