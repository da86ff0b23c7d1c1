//! Run one shell command quietly: while it runs a status line is shown, and its
//! output is reported only when it fails.
//!
//! The crate holds the decisions of such a run and proves them: how the status
//! line is laid out, how the outcome is classified, which bytes are reported and
//! how the run ends. Spawning the command, drawing the status line and writing
//! the report are left to the host program, which is told what to do next
//! through [`Effect`] values and answers with [`Event`] values.
//!
//! ```text
//! let mut kritik = Kritik::default();
//! kritik.set_command(String::from("ls /tmp && sleep 2")).showtime().return_exit_code();
//! let effects = kritik.run(Event::Start);
//! // carry the effects out, then hand in how the command ended:
//! let effects = kritik.run(Event::Finished(result));
//! ```
pub mod cli;
pub mod config;
pub mod decimal;
pub mod error;
pub mod report;
pub mod runner;
pub mod style;

pub use cli::{init_runner, Invocation};
pub use config::{FinalBehavior, Kritik};
pub use error::KritikError;
pub use report::ExecutionResult;
pub use runner::{Effect, Event};
