//! Verified core of the canvas API assembly: Drive port selection; the Drive
//! facade's operations as state machines (page create, update, read and
//! restore, version listing, single-part uploads and content downloads) with
//! their snapshots, version paging, checksums and upload requests; HTTP
//! problem mapping; and application-root resolution.

use vstd::prelude::*;

pub mod app_root;
pub mod checksum;
pub mod clock;
pub mod content;
pub mod decimal;
pub mod domain;
pub mod download;
pub mod drive_port;
pub mod flows;
pub mod part_upload;
pub mod response;
pub mod text;
pub mod transfer;
pub mod upload;
pub mod versions;

verus! {

/// Number of route crates that the canvas API assembly mounts: the app API,
/// the backend API and the HTTP auth routes.
pub const ROUTE_CRATE_COUNT: usize = 3;

/// Number of route crates composed into the canvas API assembly.
pub fn assembly_route_count() -> (count: usize)
    ensures
        count == ROUTE_CRATE_COUNT,
{
    ROUTE_CRATE_COUNT
}

} // verus!
