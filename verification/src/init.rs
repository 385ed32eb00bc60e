//! Setting the bridge up: the two ends of a fresh channel, and what follows
//! from the facade's answer when the sink is offered to it.

use vstd::prelude::*;
use crate::channel::{bounded, CAPACITY};
use crate::colors::LogColors;
use crate::format::{DefaultFormatter, Formatter};
use crate::level::{Level, THRESHOLD};
use crate::logger::{ChanneledLogger, LoggerConfig};
use crate::record::LineView;
use crate::window::LogWindow;

verus! {

/// The process already has a logging backend, and the facade takes one
/// only.
#[derive(Clone, Copy, Debug, PartialEq, Eq, Structural)]
pub struct SetLoggerError;

impl SetLoggerError {
    /// The error in words.
    pub fn message(&self) -> (text: String)
        ensures
            text@ == "attempted to set a logger after the logging system was already initialized"@,
    {
        "attempted to set a logger after the logging system was already initialized".to_owned()
    }
}

/// What follows from the facade's answer when the logger was offered to it
/// as the backend of the process. `installed` tells whether the facade took
/// it. If it did, the result is the least severe level that the facade is
/// to let through from now on. If it did not, the process has a backend
/// already, and that is an error.
pub fn set_logger(installed: bool) -> (outcome: Result<Level, SetLoggerError>)
    ensures
        installed ==> outcome == Ok::<Level, SetLoggerError>(THRESHOLD),
        !installed ==> outcome == Err::<Level, SetLoggerError>(SetLoggerError),
{
    if installed {
        Ok(THRESHOLD)
    } else {
        Err(SetLoggerError)
    }
}

/// Makes a logger and the window that shows its lines, joined by a fresh
/// channel of [`CAPACITY`] lines. The logger has the configured formatter
/// and mirroring. The window is empty, does not autoscroll, and has the
/// configured palette, or the built-in one where none was configured.
pub fn init_with_config<F: Formatter>(config: LoggerConfig<F>) -> (ends: (
    ChanneledLogger<F>,
    LogWindow,
))
    ensures
        ends.0.formatter() == config.chosen_formatter(),
        ends.0.mirrors() == config.mirrors(),
        ends.0.capacity() == CAPACITY,
        ends.1@.lines == Seq::<LineView>::empty(),
        !ends.1@.autoscroll,
        match config.palette() {
            Some(colors) => ends.1@.colors == colors,
            None => ends.1@.colors.builtin(),
        },
{
    let (log_writer, log_reader) = bounded(CAPACITY);
    let mut window = LogWindow::new(log_reader);
    match config.configured_colors() {
        Some(colors) => {
            window.set_colors(colors);
        },
        None => {},
    }
    let logger = config.build(log_writer);
    (logger, window)
}

/// [`init_with_config`] with the default configuration.
pub fn init() -> (ends: (ChanneledLogger<DefaultFormatter>, LogWindow))
    ensures
        ends.0.mirrors(),
        ends.0.capacity() == CAPACITY,
        ends.1@.lines == Seq::<LineView>::empty(),
        !ends.1@.autoscroll,
        ends.1@.colors.builtin(),
{
    init_with_config(LoggerConfig::default())
}

} // verus!
