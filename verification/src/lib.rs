//! Decision logic of the mirrord agent and its companions.

pub mod agent;
pub mod bench;
pub mod budget;
pub mod chunk;
pub mod client;
pub mod cpu_sample;
pub mod dns;
pub mod echo;
pub mod env_vars;
pub mod fd_share;
pub mod harness;
pub mod internal_proxy;
pub mod job;
pub mod notifier;
pub mod outgoing;
pub mod protocol;
pub mod s3;
pub mod text;
pub mod transit;
pub mod version;
