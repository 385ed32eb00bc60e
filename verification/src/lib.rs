//! A bridge from a leveled logging facade to a scrollable, colour-coded log
//! console that is redrawn once per frame.
//!
//! Producers on any thread hand records to a [`ChanneledLogger`]. It formats
//! each accepted record into a [`LogLine`] and offers the line to a bounded
//! channel without ever blocking. The render thread owns a [`LogWindow`],
//! which drains the channel once per frame into an ordered buffer and decides
//! what the frame shows.

pub mod channel;
pub mod colors;
pub mod format;
pub mod init;
pub mod level;
pub mod logger;
pub mod record;
pub mod text;
pub mod window;

pub use crate::colors::{LogColors, Rgba};
pub use crate::format::{
    default_formatter, format_line, DefaultFormatter, FnFormatter, Formatter, FrameStamp,
};
pub use crate::init::{init, init_with_config, set_logger, SetLoggerError};
pub use crate::level::Level;
pub use crate::logger::{ChanneledLogger, LoggerConfig};
pub use crate::record::{LogLine, Record};
pub use crate::window::LogWindow;
