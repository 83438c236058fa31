//! An interruptible, poll-driven client for a length-prefixed message
//! protocol over a local stream connection, together with the
//! virtual-interface provisioning plan that surrounds it.
//!
//! The crate contains the decision logic only: framing and unframing of
//! messages, classification of readiness-poll results, the cancellation
//! flag, the interactive loop's state machine, and the provisioning
//! command plans. All blocking I/O (the socket, standard input, the
//! readiness poll itself, signal registration, process spawning) lives in
//! the unverified shell around the library, which follows the directives
//! these functions return.

pub mod cancel;
pub mod codec;
pub mod controller;
pub mod poller;
pub mod setup;
