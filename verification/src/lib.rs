//! A command-line utility core that renames a single filesystem entry.
//!
//! The library holds the verified logic: parsing the raw argument list into a
//! structured request, dispatching that request to one of four actions
//! (help, info, rename, usage error), building the texts those actions print,
//! and a model of what the operating system's rename primitive does to the
//! directory tree.
//!
//! The surrounding binary performs the actions the library decides on:
//! it reads the process arguments, prints the texts, and calls the
//! operating system's rename primitive.

pub mod asset;
pub mod dispatch;
pub mod flags;
pub mod fs_model;
pub mod request;
pub mod text;
