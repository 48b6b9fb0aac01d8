//! Retrieval of disaster-declaration records from a paginated public HTTP API.
//!
//! The crate holds the parts of the retrieval that decide something: how the
//! address of one page is written, how many pages a result of a given size
//! takes, in which order the pages are asked for and joined, and when a run
//! ends in an export or is aborted. Network and file access are left to the
//! program that drives the [`pager::Pager`].

pub mod config;
pub mod decimal;
pub mod laws;
pub mod pager;
pub mod query;
pub mod record;
pub mod uri;
