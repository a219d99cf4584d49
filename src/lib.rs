//! A watchdog for the `sunshine` streaming server: the decisions of the
//! supervisor loop and of its two health probes, each stated as a contract.

pub mod text;
pub mod ping;
pub mod supervisor;

pub use ping::{FailureKind, HttpPing, LogAction, StdoutPing};
pub use supervisor::{Action, Event, Phase, Supervisor};
