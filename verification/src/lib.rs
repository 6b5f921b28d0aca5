//! Command dispatch and handoff engine of a bridge between an MCP client and
//! the Roblox Studio plugin: the queue of pending tool invocations, the
//! correlation of plugin replies by id, and the decisions taken by the
//! long-poll endpoint, the proxy forwarder and the process lifecycle.

pub mod cli;
pub mod defaults;
pub mod dispatch;
pub mod forward;
pub mod installer;
pub mod invocation;
pub mod laws;
pub mod lifecycle;
pub mod model;
pub mod poll;
pub mod proxy;
pub mod reply;
pub mod state;
pub mod trusted;
