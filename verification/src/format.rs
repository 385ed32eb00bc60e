//! Formatters: functions from a record to the text of its line.

use vstd::prelude::*;
use vstd::string::*;
use crate::record::{Record, RecordView};
use crate::text::{decimal, push_decimal, push_padded, zero_padded};

verus! {

/// Where a record was emitted: `file:line`, where both are known.
pub open spec fn location(record: RecordView) -> Option<Seq<char>> {
    match (record.file, record.line) {
        (Some(file), Some(line)) => Some(file + seq![':'] + decimal(line as nat)),
        _ => None,
    }
}

/// What every formatted line ends in: ` --- LEVEL: message` and a line feed.
pub open spec fn tail(record: RecordView) -> Seq<char> {
    seq![' ', '-', '-', '-', ' '] + record.level.label() + seq![':', ' '] + record.message
        + seq!['\n']
}

/// The line of the built-in formatter: the record's location, or its target
/// where the location is not known, followed by [`tail`].
pub open spec fn default_format(record: RecordView) -> Seq<char> {
    (match location(record) {
        Some(place) => place,
        None => record.target,
    }) + tail(record)
}

/// The frame in which a record is formatted.
pub struct FrameStamp {
    /// The number of frames drawn so far.
    pub frame_count: i32,
    /// The seconds since start-up, rendered with one decimal place.
    pub elapsed: String,
}

/// What a [`FrameStamp`] holds, as mathematical values.
pub struct StampView {
    pub frame_count: i32,
    pub elapsed: Seq<char>,
}

impl View for FrameStamp {
    type V = StampView;

    open spec fn view(&self) -> StampView {
        StampView { frame_count: self.frame_count, elapsed: self.elapsed@ }
    }
}

/// What a frame stamp puts before a line: `[00042][1.5s] `.
pub open spec fn stamp_prefix(stamp: StampView) -> Seq<char> {
    seq!['['] + zero_padded(stamp.frame_count as int, 5) + seq![']', '['] + stamp.elapsed + seq![
        's',
        ']',
        ' ',
    ]
}

/// The line of the frame-aware formatter: the stamp's prefix if a frame is
/// being drawn, then the record's location, which is empty where it is not
/// known, then [`tail`].
pub open spec fn frame_format(record: RecordView, stamp: Option<StampView>) -> Seq<char> {
    (match stamp {
        Some(stamp) => stamp_prefix(stamp),
        None => Seq::<char>::empty(),
    }) + (match location(record) {
        Some(place) => place,
        None => Seq::<char>::empty(),
    }) + tail(record)
}

/// Appends the record's location to `out` if it is known, and says whether
/// it is.
fn push_location(out: &mut String, record: &Record) -> (known: bool)
    ensures
        known == location(record@).is_some(),
        known ==> final(out)@ == old(out)@ + location(record@).unwrap(),
        !known ==> final(out)@ == old(out)@,
{
    match (&record.file, record.line) {
        (Some(file), Some(line)) => {
            proof {
                reveal_strlit(":");
            }
            out.append(file.as_str());
            out.append(":");
            push_decimal(out, line);
            assert(out@ =~= old(out)@ + (file@ + seq![':'] + decimal(line as nat)));
            true
        },
        _ => false,
    }
}

/// Appends [`tail`] of the record to `out`.
fn push_tail(out: &mut String, record: &Record)
    ensures
        final(out)@ == old(out)@ + tail(record@),
{
    proof {
        reveal_strlit(" --- ");
        reveal_strlit(": ");
        reveal_strlit("\n");
    }
    out.append(" --- ");
    out.append(record.level.as_str());
    out.append(": ");
    out.append(record.message.as_str());
    out.append("\n");
    assert(out@ =~= old(out)@ + tail(record@));
}

/// Formats a record as `file:line --- LEVEL: message`, or as
/// `target --- LEVEL: message` where the file or the line is not known, and
/// ends the line with a line feed.
pub fn default_formatter(record: &Record) -> (text: String)
    ensures
        text@ == default_format(record@),
{
    let mut text = String::new();
    let known = push_location(&mut text, record);
    if !known {
        text.append(record.target.as_str());
    }
    push_tail(&mut text, record);
    assert(text@ =~= default_format(record@));
    text
}

/// Formats a record for a console that is drawn frame by frame: if `stamp`
/// tells the frame, the line starts with the frame count, filled with zeros
/// to five characters, and the elapsed seconds, as in `[00042][1.5s] `. The
/// location follows, or nothing where it is not known, and then
/// ` --- LEVEL: message` and a line feed.
pub fn format_line(record: &Record, stamp: Option<&FrameStamp>) -> (text: String)
    ensures
        text@ == frame_format(
            record@,
            match stamp {
                Some(stamp) => Some(stamp@),
                None => None,
            },
        ),
{
    let mut text = String::new();
    match stamp {
        Some(stamp) => {
            proof {
                reveal_strlit("[");
                reveal_strlit("][");
                reveal_strlit("s] ");
            }
            text.append("[");
            push_padded(&mut text, stamp.frame_count);
            text.append("][");
            text.append(stamp.elapsed.as_str());
            text.append("s] ");
            assert(text@ =~= stamp_prefix(stamp@));
        },
        None => {},
    }
    let _ = push_location(&mut text, record);
    push_tail(&mut text, record);
    assert(text@ =~= frame_format(
        record@,
        match stamp {
            Some(stamp) => Some(stamp@),
            None => None,
        },
    ));
    text
}

/// Whether `text` is something that the function `call` may return for
/// `record`.
pub open spec fn produced_by<F: Fn(&Record) -> String>(
    call: F,
    record: &Record,
    text: Seq<char>,
) -> bool {
    exists|out: String| out@ == text && call_ensures(call, (record,), out)
}

/// A way to turn a record into the text of its line. A formatter is shared
/// between the threads that log. A caller who wants lines of another shape
/// hands a function to [`FnFormatter::new`].
pub trait Formatter: Send + Sync {
    /// Whether `text` is a line that the formatter may make of `record`.
    spec fn formats(&self, record: &Record, text: Seq<char>) -> bool;

    /// Makes the text of the line for `record`.
    fn format(&self, record: &Record) -> (text: String)
        ensures
            self.formats(record, text@),
    ;
}

/// The built-in formatter: see [`default_formatter`].
pub struct DefaultFormatter;

impl Formatter for DefaultFormatter {
    open spec fn formats(&self, record: &Record, text: Seq<char>) -> bool {
        text == default_format(record@)
    }

    fn format(&self, record: &Record) -> (text: String) {
        default_formatter(record)
    }
}

/// A formatter that is a function of the caller's.
pub struct FnFormatter<F: Fn(&Record) -> String + Send + Sync> {
    call: F,
}

impl<F: Fn(&Record) -> String + Send + Sync> FnFormatter<F> {
    /// The function can be called on every record.
    #[verifier::type_invariant]
    spec fn total(self) -> bool {
        forall|record: &Record| call_requires(self.call, (record,))
    }

    /// The function that the formatter calls.
    pub closed spec fn function(self) -> F {
        self.call
    }

    /// Makes a formatter of a function that takes every record.
    pub fn new(call: F) -> (formatter: FnFormatter<F>)
        requires
            forall|record: &Record| call_requires(call, (record,)),
        ensures
            formatter.function() == call,
    {
        FnFormatter { call }
    }
}

impl<F: Fn(&Record) -> String + Send + Sync> Formatter for FnFormatter<F> {
    open spec fn formats(&self, record: &Record, text: Seq<char>) -> bool {
        produced_by(self.function(), record, text)
    }

    fn format(&self, record: &Record) -> (text: String) {
        proof {
            use_type_invariant(self);
        }
        (self.call)(record)
    }
}

/// What an [`FnFormatter`] may make of a record is what its function may
/// return for that record. A caller that knows the function's contract
/// learns from this what the lines hold.
pub proof fn lemma_fn_formats<F: Fn(&Record) -> String + Send + Sync>(
    formatter: FnFormatter<F>,
    record: &Record,
    text: Seq<char>,
)
    ensures
        formatter.formats(record, text) <==> produced_by(formatter.function(), record, text),
{
}

} // verus!
