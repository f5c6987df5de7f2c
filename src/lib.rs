//! Crawling and downloading of work collections from a paginated media API:
//! the decisions of the pipeline, each with a contract.

pub mod api_calls;
pub mod args;
pub mod discovery;
pub mod download;
pub mod incremental;
pub mod parsers;
pub mod text;
pub mod user_mgmt;
