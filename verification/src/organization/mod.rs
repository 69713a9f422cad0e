//! Organization plugin: roles and permissions, settings, and the decisions of
//! its member, invitation, organization and team requests.

pub mod invitations;
pub mod members;
pub mod models;
pub mod options;
pub mod org;
pub mod permissions;
pub mod schema;
pub mod steps;
pub mod teams;
pub mod validation;

use vstd::prelude::*;

verus! {

/// The plugin's identifier.
pub const UPSTREAM_PLUGIN_ID: &'static str = "organization";

} // verus!
