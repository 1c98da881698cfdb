//! A background downloader, in two halves.
//!
//! [`Downloader`] holds the two queues that decouple callers from the worker:
//! URLs go in, [`Response`]s come out, in the order in which the transfers end.
//!
//! [`Engine`] holds the decisions of the worker's loop. It performs no I/O: the
//! driver tells it what happened, as an [`Event`], and it answers with what to
//! do next, as an [`Action`]. It keeps the [`CorrelationTable`], which maps the
//! token of each transfer in flight to the URL that was submitted and to the
//! handle of the transfer, so that each response carries the URL of its own
//! request. What holds of every run of the engine is proved in [`laws`].

pub mod agent;
pub mod collector;
pub mod downloader;
pub mod engine;
pub mod fault;
pub mod laws;
pub mod protocol;
mod queue;
pub mod response;
pub mod table;

pub use agent::{client_signature, user_agent};
pub use collector::Collector;
pub use downloader::{Downloader, SubmitError};
pub use engine::{Engine, Phase};
pub use fault::Fault;
pub use protocol::{Action, Completion, Event, Mode, TaskPull};
pub use response::{Outcome, Response, TRANSPORT_FAILURE};
pub use table::{CorrelationTable, Finished};
