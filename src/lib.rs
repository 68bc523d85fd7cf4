//! A peer-to-peer, turn-based sentence exchange.
//!
//! The library holds the decision logic of the two actors: the connection
//! actor's state machine (`connection`), the presentation actor's model of
//! what it shows and how keys drive it (`ui`), and the turn counter
//! (`sessions`). Sockets, channels and the terminal live with the caller.

pub mod sessions;
pub mod messages;
pub mod connection;
pub mod protocol;
pub mod ui;
pub mod error;
