//! The Discovery Engine: for each kind of source, the decisions that turn the
//! API's pages into the works to download.

use vstd::prelude::*;

pub mod series;
pub mod user_bookmarks;
pub mod user_posts;

verus! {

/// A work to download, and the directory its files go to.
#[derive(Debug)]
pub struct IllustDownload {
    pub id: u64,
    pub dest_dir: String,
}

} // verus!
