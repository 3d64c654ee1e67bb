//! Orchestration core of an interactive search tool: the per-file result
//! model, the result list with its selection cursor, the adapter that turns
//! matched lines into results, and the session state machine.

pub mod entries;
pub mod result_list;
pub mod session;
pub mod sink;

pub use entries::{Entry, EntryType, Match};
pub use result_list::ResultList;
pub use session::{Event, Ig, State};
pub use sink::{MatchesSink, SinkError};
