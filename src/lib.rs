//! The control panel of a container-based development environment manager:
//! the decisions of its command dispatcher (which process to launch, what
//! each outcome is, when to retry, what a stream pump forwards), project
//! discovery, and the state of its panels, each with a verified contract.
use vstd::prelude::*;

pub mod appserver;
pub mod commands;
pub mod database;
pub mod gui;
pub mod models;
pub mod node;
pub mod scan;
pub mod service;
pub mod text;

verus! {

} // verus!
