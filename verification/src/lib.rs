//! Revision-gated shared state with bounded long-poll coordination.
//!
//! The store keeps each piece of shared state in a [`RevisionedCell`]: a
//! `(value, revision)` pair that is replaced as one indivisible step, so a
//! reader never sees a value from one write paired with a revision from
//! another. A client that wants to wait for a change hands its last known
//! revision to a bounded polling loop driven by [`long_poll::LongPollCoordinator`],
//! which finishes with the first update it sees, or reports that nothing
//! changed within the window.

pub mod get_sensor_data;
pub mod get_settings;
pub mod long_poll;
pub mod revisioned_cell;
pub mod server_context;

pub use revisioned_cell::RevisionedCell;

use vstd::prelude::*;

verus! {

/// Query parameters shared by the long-polling read endpoints: the caller
/// reports the newest revision it has already seen.
pub struct GetEndpointsQuery {
    pub last_known_revision_num: i32,
}

} // verus!
