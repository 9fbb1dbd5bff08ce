//! A client for submitting coursework to Gradescope.
//!
//! The library holds the protocol's logic: the request each step of a flow
//! sends, how each reply is classified, how anti-forgery tokens are scraped
//! out of pages and how the login form and upload list are built. The
//! transport that carries the requests lives outside it and drives the flows.
use vstd::prelude::*;

pub mod config;
pub mod error;
pub mod paths;
pub mod scrape;
pub mod session;
pub mod wire;

verus! {

} // verus!
