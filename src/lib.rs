//! Installation pipeline for the WasmEdge runtime: version and asset
//! resolution, checksum lookup and comparison, archive entry guarding,
//! PATH registration and the pipeline's stage machine.

pub mod error;
pub mod text;
pub mod path_entry;
pub mod version;
pub mod asset;
pub mod checksum;
pub mod archive;
pub mod pipeline;
pub mod install;
