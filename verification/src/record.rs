//! Log records as the bridge reads them, and the lines it makes of them.

use vstd::prelude::*;
use crate::level::Level;

verus! {

/// One log event as a call site emitted it.
pub struct Record {
    /// The severity of the event.
    pub level: Level,
    /// The name of the component that emitted the event.
    pub target: String,
    /// The source file of the call site, where it is known.
    pub file: Option<String>,
    /// The line of the call site in that file, where it is known.
    pub line: Option<u32>,
    /// The message, already rendered.
    pub message: String,
}

/// What a [`Record`] holds, as mathematical values.
pub struct RecordView {
    pub level: Level,
    pub target: Seq<char>,
    pub file: Option<Seq<char>>,
    pub line: Option<u32>,
    pub message: Seq<char>,
}

impl View for Record {
    type V = RecordView;

    open spec fn view(&self) -> RecordView {
        RecordView {
            level: self.level,
            target: self.target@,
            file: match self.file {
                Some(name) => Some(name@),
                None => None,
            },
            line: self.line,
            message: self.message@,
        }
    }
}

/// A single line of formatted text together with the severity of the record
/// it was made from.
pub struct LogLine {
    pub level: Level,
    pub text: String,
}

/// What a [`LogLine`] holds, as mathematical values.
pub struct LineView {
    pub level: Level,
    pub text: Seq<char>,
}

impl View for LogLine {
    type V = LineView;

    open spec fn view(&self) -> LineView {
        LineView { level: self.level, text: self.text@ }
    }
}

impl LogLine {
    /// A copy of the line's text.
    pub fn to_string(&self) -> (text: String)
        ensures
            text@ == self@.text,
    {
        self.text.clone()
    }
}

/// The views of a run of lines, in the same order.
pub open spec fn line_views(lines: Seq<LogLine>) -> Seq<LineView> {
    lines.map_values(|line: LogLine| line@)
}

} // verus!
