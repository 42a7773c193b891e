//! A cluster node agent's leader-election core: a participant that contends
//! for leadership and renews its lease on a fixed cadence, an observer that
//! keeps a shared `is_leader` flag synchronized with the election key, and a
//! coordinator that links their termination. The campaign-and-renew cycle and
//! the event application are pure, verified transition functions; an
//! unverified driver performs the network operations they ask for and feeds
//! the outcomes back in.

pub mod args;
pub mod coordinator;
pub mod errors;
pub mod observer;
pub mod participant;
pub mod state;
pub mod text;
