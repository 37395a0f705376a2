//! The conditional fetch of the rule list from the object store: the
//! configuration it runs under and the classification of its outcomes.

pub mod creds;
pub mod fetcher;

pub use self::fetcher::{fetch, File, FileError};
