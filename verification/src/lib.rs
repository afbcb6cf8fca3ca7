//! Library behind a command-line tool that generates Candid interface
//! (`.did`) files for Internet Computer canisters written in Rust.
//!
//! The pipeline has three stages: build the canister for the wasm target,
//! locate the produced `.wasm` artifact (searching the canister directory
//! and then each ancestor's conventional build-output directory), and run
//! the Candid extractor on it, persisting its standard output next to the
//! canister sources. The decision logic of every stage lives here, fully
//! specified; the subprocess and filesystem work is driven by the thin
//! command-line front end through [`pipeline`] actions and events.

pub mod canister;
pub mod error;
pub mod fs_path;
pub mod generator;
pub mod pipeline;

pub use canister::User;
pub use error::DidGeneratorError;
pub use fs_path::FsPath;
pub use generator::DidGenerator;

use vstd::prelude::*;

verus! {

} // verus!
