//! Local lifecycle, wire framing and request routing for persistent
//! Jupyter kernels.
pub mod broker;
pub mod client;
pub mod hex;
pub mod json;
pub mod jupyter;
pub mod kernel;
pub mod kernelspec;
pub mod mcp;
pub mod models;
pub mod paths;
pub mod render;
pub mod signing;
pub mod text;

pub use kernel::{KernelManager, KernelStatus, ReplResponse};
pub use models::{
    EnvironmentSpec, Runtime, RuntimeCreate, RuntimeList, RuntimeStatus, RuntimeUpdate,
    SnapshotPolicy,
};
