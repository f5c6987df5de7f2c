//! The Download Engine: what a run downloads, where each work's files go, and
//! the Transfer Engine's decisions for one file.

pub mod file;
pub mod illust;
