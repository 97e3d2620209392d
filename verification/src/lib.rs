//! Zero-downtime process supervisor core.
//!
//! A manager process keeps exactly one worker process alive and, on an
//! external restart trigger, performs a graceful handover: it spawns a
//! replacement worker, tells the old worker to drain, and retires the old
//! worker only after its exit has been observed. The service is never left
//! without a live worker, and in-flight work is never cut short.
//!
//! This crate holds the verified decision core: the restart-flag model and
//! the handover state machine. The surrounding program performs the actions
//! the machine asks for (spawning, signalling, waiting, sleeping) and feeds
//! the observed outcomes back in as events.

pub mod flag;
pub mod supervisor;
pub mod world;

pub use flag::RestartFlag;
pub use supervisor::Action;
pub use supervisor::Event;
pub use supervisor::State;
pub use supervisor::POLL_INTERVAL_MS;
pub use supervisor::initial_state;
pub use supervisor::next_action;
pub use supervisor::step;
