//! A status-line block that shows how many package updates are pending.
//!
//! The block is polled by a scheduler: each poll hands it the outcome of the
//! package manager's query, the block counts the pending updates, shows the
//! count in its widget and answers with the interval until the next poll.
//! A click on the widget asks for the graphical package manager to be started.
//!
//! Running commands is left to the caller. The block says which command to run
//! and decides what follows from its outcome.

pub mod command;
pub mod errors;
pub mod input;
pub mod pamac;
pub mod scheduler;
pub mod text;
pub mod time;
pub mod token;
pub mod widget;

pub use command::{CommandResult, ShellCommand};
pub use errors::{BlockError, ErrorKind};
pub use input::{I3BarEvent, MouseButton};
pub use pamac::{check_updates_command, get_update_count, manager_command, Pamac, PamacConfig};
pub use scheduler::Task;
pub use text::{count_lines, decimal_string};
pub use widget::{ButtonWidget, State};
