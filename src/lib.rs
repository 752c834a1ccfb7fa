//! Generation and judging of access-control and WAF bypass probes.
//!
//! A target URL is turned into request variations by a registry of
//! techniques (`catalog`, `table`, `generator`) under a strategy
//! (`strategy`); the responses to them are classified against a baseline
//! (`classify`) and gathered into a run summary (`run`). `engine` ties these
//! together, `waf` matches vendor signatures, and `report`, `layout`, `json`
//! and `export` turn results into JSON, CSV and HTML. Sending requests is
//! left to the caller.

use vstd::prelude::*;

pub mod catalog;
pub mod classify;
pub mod cli;
pub mod config;
pub mod engine;
pub mod error;
pub mod export;
pub mod generator;
pub mod json;
pub mod layout;
pub mod page;
pub mod report;
pub mod request;
pub mod run;
pub mod strategy;
pub mod table;
pub mod technique;
pub mod text;
pub mod waf;

verus! {

} // verus!
