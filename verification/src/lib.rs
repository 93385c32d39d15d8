//! Core logic of a simulator for distributed systems: the network of messages in
//! transit, the registry of nodes and their aliases, timers, capabilities and the
//! commands that launch nodes.

pub mod message;
pub mod event;
pub mod timestamp;
pub mod network;
pub mod node;
pub mod timer_manager;
pub mod text;
pub mod capabilities;
pub mod types;
pub mod process;
pub mod node_manager;
pub mod command;
pub mod util;
pub mod log_color;
pub mod version;
pub mod callback;
pub mod handle;
pub mod interpreters;
pub mod error;
pub mod monitor;
pub mod seq_facts;
pub mod sim_core;
pub mod session;
pub mod remote;
pub mod runners;
