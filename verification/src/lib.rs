//! Turns a CSV list of URL redirect rules, fetched from an object store,
//! into an Nginx configuration fragment. The fetch is conditional on an
//! entity tag, and each of its outcomes is classified; the work on the
//! network and on the file system is handed in by the caller.

pub mod orchestrator;
pub mod parser;
pub mod redirect_rule;
pub mod s3;
pub mod writer;
