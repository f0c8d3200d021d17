//! The decision core of a firewall probe.
//!
//! A probe sends one cookie from a client socket in one network namespace to
//! a server socket in another and reports what the firewall between them did:
//! the packet arrived, it was actively refused, or it vanished. This crate
//! holds every rule of that exchange as verified functions on plain values.
//! Sockets, threads, timers and namespaces belong to the caller, who performs
//! the actions this crate asks for and reports back what happened.

pub mod addr;
pub mod conn;
pub mod host;
pub mod os;
pub mod text;
mod trusted;
