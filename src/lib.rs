//! Verified core of a release helper that builds a Rust project, packages it
//! as a container image stamped with provenance labels, and optionally
//! exports the image as a compressed archive.
//!
//! Everything that decides or computes lives here: the manifest scan, the
//! decisions of the upward walk to the project root, the fallback for the
//! commit identifier, the label set, the container engine's arguments and
//! the order of the pipeline's steps. Running commands and touching the file
//! system is left to the caller.
pub mod clock;
pub mod command;
pub mod image;
pub mod labels;
pub mod manifest;
pub mod pipeline;
pub mod revision;
pub mod root;
pub mod text;
