//! Streaming archive-and-digest pipeline.
//!
//! The library packages the logic of a tool that writes a directory tree
//! into an archive while computing a digest of the archive bytes as they
//! are written, then records one digest line per archive entry into an
//! append-only manifest.  The digest itself comes from OpenSSL's MD5 and
//! is taken on trust; everything that frames, formats and orders the
//! manifest is verified.

pub mod args;
pub mod digest;
pub mod entries;
pub mod manifest;
pub mod sink;
