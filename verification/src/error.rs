//! The failures that end a scan, or a part of it.

use vstd::prelude::*;

verus! {

/// A failure that stops the scope it occurs in. A metric query that fails
/// and a deletion that fails are no such failures: the first counts as
/// "inactive", the second is recorded as an outcome.
#[derive(Clone, Copy, Debug, PartialEq, Eq, Structural)]
pub enum ScanError {
    /// The configuration cannot be used. Nothing is scanned.
    Config,
    /// No usable credentials for an account: its role could not be assumed,
    /// or the credentials have expired. The account's scan ends.
    Credential,
    /// A page of a region's inventory could not be had. The region's scan
    /// ends without a partial inventory.
    Listing,
}

} // verus!
