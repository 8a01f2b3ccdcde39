//! Decides how the `wasm-bindgen` command-line tool is run on a crate's
//! compiled `.wasm`: where the artifact lies, which arguments the tool
//! gets, whether the installed tool has the version that is expected, and
//! what becomes of each failure on the way.
//!
//! Nothing here touches the file system or starts a process. A build is a
//! value that asks for one piece of outside work at a time and is advanced
//! with the outcome of that work.

pub mod artifact;
pub mod bindgen;
pub mod command;
pub mod error;
pub mod guarantees;
pub mod profile;
pub mod text;
pub mod version;
