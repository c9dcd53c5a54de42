//! Verified core of a slice-based resource delegation service.
//!
//! The library derives hierarchical slice names and their bus object paths,
//! translates an abstract [`policy::Policy`] into the property list the init
//! system's IPC interface understands, plans atomic property application, and
//! tracks which assignee is currently placed under which slice. All remote
//! I/O (the bus connection, the HTTP facade) lives outside this crate's
//! verified code and consumes the plans produced here.

use vstd::prelude::*;

pub mod codec;
pub mod engine;
pub mod error;
pub mod policy;
pub mod props;
pub mod registry;

verus! {

/// Record returned by the user-lookup endpoint of the service facade.
pub struct Protection {
    /// uid of the user
    pub uid: u32,
    /// The current username of the user.
    pub username: String,
}

} // verus!
