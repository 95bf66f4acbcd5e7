//! Connection/cache coordinator for a terminal dashboard that watches an
//! environmental sensor.
//!
//! The coordinator owns the connection lifecycle, serializes all sensor access
//! in a single worker, and exposes a non-blocking snapshot of the last known
//! good readings to the renderer. The sensor transport, the terminal and the
//! widgets are collaborators that live outside this crate; the coordinator
//! only decides what to do with their answers, and those decisions are what
//! is verified here.

pub mod app;
pub mod intent;
pub mod queue;
pub mod readings;
pub mod scheduler;
pub mod status;
pub mod transport;
pub mod worker;

pub use app::App;
pub use intent::Action;
pub use intent::Intent;
pub use queue::CommandQueue;
pub use queue::SubmitError;
pub use readings::CurrentReading;
pub use readings::HistoricalSeries;
pub use scheduler::RefreshScheduler;
pub use scheduler::TickOutcome;
pub use status::ConnectionStatus;
pub use transport::ScriptedTransport;
pub use transport::SensorError;
pub use worker::Handler;
