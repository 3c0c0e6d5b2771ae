//! Bus-factor estimation for popular repositories of a programming language.
//!
//! The crate models the fetch-and-aggregate pipeline: candidate repositories
//! come from a popularity-ordered search, each repository's contributor list
//! is fetched (one fetch per repository, results aligned by index), the top
//! contributor's share of total contributions is computed with integer
//! (floor) division, and repositories whose top contributor dominates at or
//! past a fixed threshold are excluded from the final report.
//!
//! All network traffic stays outside this crate; the functions here take the
//! plain values an HTTP layer hands back (status codes, parsed repository and
//! contributor lists) and are verified over those values.

pub mod aggregate;
pub mod cli;
pub mod github;
pub mod query;
pub mod report;

use vstd::prelude::*;

verus! {

/// A repository is excluded from the report when its top contributor's
/// percentage share of all contributions is at or above this threshold.
pub const BUS_FACTOR_THRESHOLD: usize = 75;

/// The status code a successful upstream response carries.
pub const SUCCESS_STATUS: u16 = 200;

/// Whether an upstream response status is the success status; anything
/// else makes the originating stage fail.
pub fn is_success_status(status: u16) -> (ok: bool)
    ensures
        ok <==> status == SUCCESS_STATUS,
{
    status == SUCCESS_STATUS
}

} // verus!
