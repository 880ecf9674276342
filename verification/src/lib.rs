//! Host runtime of an edge gateway that answers HTTP requests by running
//! sandboxed WebAssembly modules.
//!
//! A request's host name is rewritten to a name of the decentralized naming
//! system, the name is resolved to an address and a content hash, the two are
//! assembled into a content identifier, the module stored under that
//! identifier is fetched, instantiated against a fixed set of host functions
//! and run once. The modules of this crate hold the rules of that path; the
//! network and the event loop live with the caller.
//!
//! - [`identifier`]: assembly of the content identifier.
//! - [`hostname`]: rewriting of host names.
//! - [`abi`]: the contract between host and guest.
//! - [`imports`] and [`loader`]: what a module may import and must export.
//! - [`memory`]: bounds-checked access to the guest's linear memory.
//! - [`request`], [`response`] and [`host`]: the state of one invocation and
//!   the host functions that act on it.
//! - [`pipeline`]: the stages of a request and the answer to each failure.
//! - [`guest`]: the sample guest.

pub mod abi;
pub mod error;
pub mod guest;
pub mod host;
pub mod hostname;
pub mod identifier;
pub mod imports;
pub mod loader;
pub mod memory;
pub mod pipeline;
pub mod request;
pub mod response;
pub mod text;
