//! Job supervision engine for a small cargo front-end: turns a user's
//! command selection into an ordered queue of tool invocations, assembles
//! each final argument vector, and drives the queue through a fail-fast,
//! cancellable state machine that reports lines and status text to an
//! observer.

mod args;
mod catalog;
mod controller;
mod engine;
mod queue;
mod selection;
mod text;
mod trace;

pub use args::LexError;
pub use args::parse_args;
pub use catalog::Catalog;
pub use catalog::CommandGroup;
pub use catalog::CommandSpec;
pub use catalog::SelectedCommand;
pub use catalog::default_catalog;
pub use controller::RunController;
pub use controller::StartError;
pub use engine::JobOutcome;
pub use engine::OutcomeReport;
pub use engine::Phase;
pub use engine::RunEngine;
pub use engine::RunStep;
pub use queue::QueueError;
pub use queue::QueuedCommand;
pub use queue::build_full_command;
pub use queue::build_queue;
pub use selection::is_selected;
pub use selection::release_allowed;
pub use selection::selection_flags;
pub use selection::toggle_selection;
pub use text::append_line;
pub use text::stderr_line;
