//! Core logic of a local game-client companion: it discovers the client's
//! per-session credentials from its process command line, derives the
//! authenticated request configuration, and drives two randomized cosmetic
//! selection workflows (skins and chromas) against the client's loopback
//! REST API.
//!
//! Everything that touches the network or the operating system is left to
//! the surrounding application; this crate holds the decisions: which
//! credentials a command line yields, which request to issue next, which
//! candidates are eligible, and what each remote answer means.

pub mod candidates;
pub mod chroma_flow;
pub mod client;
pub mod color;
pub mod discovery;
pub mod errors;
pub mod models;
mod random;
pub mod skin_flow;
pub mod wire;

pub use candidates::{ChromaChoice, SkinChoice};
pub use chroma_flow::{ChromaAction, ChromaEvent, ChromaStep};
pub use client::HealthAction;
pub use discovery::Credentials;
pub use errors::{BuildError, CallError, DiscoveryError, SelectError};
pub use skin_flow::{SkinAction, SkinEvent, SkinStep};
