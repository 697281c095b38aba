//! Verified provisioning logic for per-container network namespaces.
//!
//! The crate separates decisions from effects.  Everything that chooses what
//! to do next — which syscall or netlink request to issue, how to classify an
//! outcome, which bytes to write into a `/proc` identity file — lives here as
//! verified code.  The surrounding process performs each requested action and
//! feeds the observed outcome back into the state machines.
//!
//! - [`errors`] is the error taxonomy.
//! - [`strutil`] and [`ip`] render and parse the plain values the engine
//!   speaks of: decimal numbers and dotted-quad IPv4 addresses.
//! - [`namespaces`] holds the namespace lifecycle, the forked child's
//!   enter-and-configure sequence, and the parent's reaping logic.
//! - [`net`] holds the netlink topology builders: bridge, veth pair, peer
//!   setup, loopback raising.
//! - [`identity`] writes the UID/GID mapping plan of a user namespace.
//! - [`model`] is a mathematical model of the host the engine manipulates;
//!   [`laws`] proves the engine's guarantees over it.

pub mod errors;
pub mod identity;
pub mod ip;
pub mod laws;
pub mod model;
pub mod namespaces;
pub mod net;
pub mod strutil;
