//! Runtime coordination for a supervised blockchain client: peer addresses,
//! the local protocol client, the process supervisor, the registration state
//! machine, the coordinator and the startup discovery loop.
pub mod text;
pub mod peer;
pub mod error;
pub mod types;
pub mod rpc;
pub mod registration;
pub mod supervisor;
pub mod coordinator;
pub mod discovery;
pub mod launcher;
