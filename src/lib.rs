//! Real-time connection hub and tip selection for a tangle ledger node.
//!
//! The ledger keeps signed block records and picks the freshest two of them
//! as parents for each newly minted block. The connection registry and the
//! per-session state machine keep track of live client sockets and decide
//! when telemetry envelopes are sent and when a session is torn down.
pub mod deps;
pub mod ledger;
pub mod models;
pub mod registry;
pub mod session;
