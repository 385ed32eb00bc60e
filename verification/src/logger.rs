//! The sink: the backend that a logging facade hands its records to, and
//! the builder that configures it.

use vstd::prelude::*;
use std::sync::mpsc::SyncSender;
use crate::channel::{bound_of, offer};
use crate::colors::LogColors;
use crate::format::{DefaultFormatter, FnFormatter, Formatter};
use crate::level::{Level, THRESHOLD};
use crate::record::{LogLine, Record};

verus! {

/// Backend for a logging facade.
///
/// It formats each record that passes its filter and offers the line to a
/// channel, from which a [`crate::LogWindow`] takes it. A line that the
/// channel cannot take is dropped. No call blocks, and the logger may be
/// shared between threads.
pub struct ChanneledLogger<F: Formatter = DefaultFormatter> {
    channel: SyncSender<LogLine>,
    formatter: F,
    stdout: bool,
}

impl<F: Formatter> ChanneledLogger<F> {
    /// The logger's formatter.
    pub closed spec fn formatter(&self) -> F {
        self.formatter
    }

    /// The number of lines that the logger's channel was made to buffer.
    pub closed spec fn capacity(&self) -> nat {
        bound_of(self.channel)
    }

    /// Whether the logger hands each line back to be written to standard
    /// output.
    pub closed spec fn mirrors(&self) -> bool {
        self.stdout
    }

    /// Whether a record of this level is let through: every level but
    /// `Trace` is.
    pub fn enabled(&self, level: Level) -> (yes: bool)
        ensures
            yes == level.passes(),
    {
        level.at_least(THRESHOLD)
    }

    /// The line that the logger makes of a record: none where the record's
    /// level is filtered out, else the formatter's text with the record's
    /// level.
    pub fn line_for(&self, record: &Record) -> (line: Option<LogLine>)
        ensures
            line is Some <==> record.level.passes(),
            line matches Some(made) ==> made.level == record.level
                && self.formatter().formats(record, made.text@),
    {
        if self.enabled(record.level) {
            let text = self.formatter.format(record);
            Some(LogLine { level: record.level, text })
        } else {
            None
        }
    }

    /// Takes one record. A record that is filtered out is ignored. Any other
    /// is formatted, and its line is offered to the channel, which drops it
    /// if it is full or closed. Where mirroring is on, the text of the line
    /// is returned for the caller to write to standard output as it is.
    pub fn log(&self, record: &Record) -> (mirror: Option<String>)
        ensures
            mirror is Some <==> record.level.passes() && self.mirrors(),
            mirror matches Some(text) ==> self.formatter().formats(record, text@),
    {
        match self.line_for(record) {
            Some(line) => {
                let mirror = if self.stdout {
                    Some(line.text.clone())
                } else {
                    None
                };
                offer(&self.channel, line);
                mirror
            },
            None => None,
        }
    }

    /// Does nothing: the logger holds nothing back.
    pub fn flush(&self) {
    }
}

/// Builder of a [`ChanneledLogger`].
///
/// `LoggerConfig::default()` is the starting point, and each method returns
/// the configuration with one setting replaced.
pub struct LoggerConfig<F: Formatter = DefaultFormatter> {
    formatter: F,
    colors: Option<LogColors>,
    stdout: bool,
}

impl<F: Formatter> LoggerConfig<F> {
    /// The configured formatter.
    pub closed spec fn chosen_formatter(&self) -> F {
        self.formatter
    }

    /// The configured palette, if there is one.
    pub closed spec fn palette(&self) -> Option<LogColors> {
        self.colors
    }

    /// Whether lines are to be mirrored to standard output.
    pub closed spec fn mirrors(&self) -> bool {
        self.stdout
    }

    /// The configured palette, if there is one.
    pub fn configured_colors(&self) -> (colors: Option<LogColors>)
        ensures
            colors == self.palette(),
    {
        self.colors
    }

    /// Replaces the formatter by a function of the caller's, which must
    /// take every record.
    pub fn formatter<G>(self, formatter: G) -> (config: LoggerConfig<FnFormatter<G>>) where
        G: Fn(&Record) -> String + Send + Sync,

        requires
            forall|record: &Record| call_requires(formatter, (record,)),
        ensures
            config.chosen_formatter().function() == formatter,
            config.palette() == self.palette(),
            config.mirrors() == self.mirrors(),
    {
        LoggerConfig {
            formatter: FnFormatter::new(formatter),
            colors: self.colors,
            stdout: self.stdout,
        }
    }

    /// Replaces the palette.
    pub fn colors(self, colors: LogColors) -> (config: LoggerConfig<F>)
        ensures
            config.palette() == Some(colors),
            config.mirrors() == self.mirrors(),
            config.chosen_formatter() == self.chosen_formatter(),
    {
        LoggerConfig { formatter: self.formatter, colors: Some(colors), stdout: self.stdout }
    }

    /// Switches the mirroring to standard output on or off.
    pub fn stdout(self, stdout: bool) -> (config: LoggerConfig<F>)
        ensures
            config.mirrors() == stdout,
            config.palette() == self.palette(),
            config.chosen_formatter() == self.chosen_formatter(),
    {
        LoggerConfig { formatter: self.formatter, colors: self.colors, stdout }
    }

    /// Makes the logger that sends its lines into `channel`. The palette is
    /// no part of the logger: it is the window's.
    pub fn build(self, channel: SyncSender<LogLine>) -> (logger: ChanneledLogger<F>)
        ensures
            logger.mirrors() == self.mirrors(),
            logger.formatter() == self.chosen_formatter(),
            logger.capacity() == bound_of(channel),
    {
        ChanneledLogger { channel, formatter: self.formatter, stdout: self.stdout }
    }
}

impl Default for LoggerConfig<DefaultFormatter> {
    /// The built-in formatter, the built-in palette, mirroring on.
    fn default() -> (config: LoggerConfig<DefaultFormatter>)
        ensures
            config.mirrors(),
            config.palette() is None,
    {
        LoggerConfig { formatter: DefaultFormatter, colors: None, stdout: true }
    }
}

} // verus!
