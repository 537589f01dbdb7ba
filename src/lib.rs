//! Session and artifact staging for a document-conversion tool.
//!
//! Sessions are stored one file each, intermediate files are staged in a
//! scratch directory and purged per session, final artifacts are written only
//! once their directory is known to take writes, and the outcome of an external
//! converter run is normalised into a value. Every file-system operation is a
//! plan of steps: the host performs each step and reports its outcome, and
//! [`plan::advance`] decides what follows.
pub mod artifact;
pub mod convert;
pub mod error;
pub mod laws;
pub mod paths;
pub mod plan;
pub mod session;
pub mod settings;
pub mod staging;
