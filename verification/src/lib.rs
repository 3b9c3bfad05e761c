//! Coordination core of a web co-pilot that sits between an assistant running
//! under a pseudo-terminal and a remote SSH shell.
//!
//! Everything here is a decision: what a tool call answers, which event is
//! published, which bytes go to the shell. The surrounding program performs
//! the socket, terminal and timer work and reports back what happened.

pub mod approval;
pub mod approval_laws;
pub mod gemini;
pub mod http;
pub mod ident;
pub mod server;
pub mod ssh;
pub mod state;
pub mod text;
pub mod tools;
pub mod websocket;
