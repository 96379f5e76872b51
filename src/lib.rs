//! Keeps a small bank of active-low relays in step with desired states kept
//! in a remote key-value store.
//!
//! The library holds the decisions: how a device names itself, where its
//! records live, how a remote payload decodes, what each line must be driven
//! to, and which commands a startup or a polling cycle issues. The network,
//! the store transport and the output driver are run by the caller.
pub mod identity;
pub mod decode;
pub mod bank;
pub mod cycle;
pub mod paths;
pub mod link;
pub mod plan;
