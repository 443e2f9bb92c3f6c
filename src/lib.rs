//! Resolution and batch planning for fetching GitHub issues and pull
//! requests: turning a reference into a typed target, checking which flags
//! go with which mode, deciding where output goes and what each file is
//! called, and building and rendering the unified record of a fetched item.
use vstd::prelude::*;

pub mod args;
pub mod batch;
pub mod error;
pub mod events;
pub mod modes;
pub mod outdir;
pub mod record;
pub mod render;
pub mod target;
pub mod text;

verus! {

} // verus!
