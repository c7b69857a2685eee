//! Build-acceleration client library: content fingerprinting of a project
//! directory, a shadow snapshot store, a tunneled wire transport for pushing
//! snapshots, and the push/pull/retry protocol that ties them together.

pub mod api;
pub mod artifact;
pub mod attach;
pub mod bytes;
pub mod config_global;
pub mod config_local;
pub mod exclusion;
pub mod git;
pub mod global_config;
pub mod hash;
pub mod init;
pub mod login;
pub mod query;
pub mod run;
pub mod secrets;
pub mod transport;

use vstd::prelude::*;

verus! {

} // verus!
