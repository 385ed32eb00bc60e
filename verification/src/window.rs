//! The window: the render thread's own record of the lines that arrived,
//! and what it decides for a frame.

use vstd::prelude::*;
use vstd::string::*;
use std::sync::mpsc::Receiver;
use crate::channel::take;
use crate::colors::LogColors;
use crate::record::{line_views, LineView, LogLine};

verus! {

/// What a [`LogWindow`] holds: its lines and settings as mathematical
/// values, and the channel it is fed from.
pub struct WindowView {
    /// The lines in the order in which they arrived.
    pub lines: Seq<LineView>,
    /// Whether the view follows the newest line.
    pub autoscroll: bool,
    /// The palette by which the lines are coloured.
    pub colors: LogColors,
    /// The receiving half of the channel from which the window takes its
    /// lines.
    pub source: Receiver<LogLine>,
}

impl WindowView {
    /// The window after `received` arrived, in that order.
    pub open spec fn extended(self, received: Seq<LineView>) -> WindowView {
        WindowView { lines: self.lines + received, ..self }
    }

    /// The window after its lines were thrown away.
    pub open spec fn cleared(self) -> WindowView {
        WindowView { lines: Seq::empty(), ..self }
    }

    /// The window with another palette.
    pub open spec fn recolored(self, colors: LogColors) -> WindowView {
        WindowView { colors, ..self }
    }

    /// The window after one frame in which `received` arrived and the user
    /// did or did not ask to clear: the lines that arrive in a frame are
    /// taken in before the clearing.
    pub open spec fn framed(self, received: Seq<LineView>, clear: bool) -> WindowView {
        if clear {
            self.extended(received).cleared()
        } else {
            self.extended(received)
        }
    }

    /// The window after `count` frames in which nothing arrived and the
    /// user asked for nothing.
    pub open spec fn idled(self, count: nat) -> WindowView
        decreases count,
    {
        if count == 0 {
            self
        } else {
            self.idled((count - 1) as nat).framed(Seq::empty(), false)
        }
    }

    /// Whether the frame ends with the view pinned to the newest line: it
    /// does where autoscroll is on, and where the view is at the bottom
    /// already.
    pub open spec fn pins(self, at_bottom: bool) -> bool {
        self.autoscroll || at_bottom
    }
}

/// The texts of the lines with a line feed between each two of them.
pub open spec fn joined(lines: Seq<LineView>) -> Seq<char>
    decreases lines.len(),
{
    if lines.len() == 0 {
        Seq::empty()
    } else if lines.len() == 1 {
        lines[0].text
    } else {
        joined(lines.drop_last()) + seq!['\n'] + lines.last().text
    }
}

/// The front end of a [`crate::ChanneledLogger`]: it keeps the lines that
/// came through the channel and decides what each frame shows.
pub struct LogWindow {
    buf: Vec<LogLine>,
    channel: Receiver<LogLine>,
    autoscroll: bool,
    colors: LogColors,
}

impl View for LogWindow {
    type V = WindowView;

    closed spec fn view(&self) -> WindowView {
        WindowView {
            lines: line_views(self.buf@),
            autoscroll: self.autoscroll,
            colors: self.colors,
            source: self.channel,
        }
    }
}

impl LogWindow {
    /// A window on the receiving half of a channel: it takes its lines from
    /// `channel`, has none yet, does not autoscroll, and has the built-in
    /// palette.
    pub fn new(channel: Receiver<LogLine>) -> (window: LogWindow)
        ensures
            window@.source == channel,
            window@.lines == Seq::<LineView>::empty(),
            !window@.autoscroll,
            window@.colors.builtin(),
    {
        let window = LogWindow {
            buf: Vec::new(),
            channel,
            autoscroll: false,
            colors: LogColors::default(),
        };
        assert(window@.lines =~= Seq::<LineView>::empty());
        window
    }

    /// Puts one line that arrived behind the lines that are there.
    pub fn receive(&mut self, line: LogLine)
        ensures
            final(self)@ == old(self)@.extended(seq![line@]),
    {
        self.buf.push(line);
        assert(self@.lines =~= old(self)@.lines + seq![line@]);
    }

    /// Takes from the channel whatever it has at hand, line by line in the
    /// order in which the channel hands them out, until it has none or the
    /// buffer can hold no more. This is all that happens in a frame in which
    /// the window is not shown.
    pub fn sync(&mut self)
        ensures
            exists|received: Seq<LineView>| final(self)@ == #[trigger] old(self)@.extended(received),
    {
        let ghost before = self@;
        let ghost mut received: Seq<LineView> = Seq::empty();
        assert(self@.lines =~= before.lines + received);
        while self.buf.len() < usize::MAX
            invariant
                self@ == before.extended(received),
            decreases usize::MAX - self.buf.len(),
        {
            match take(&self.channel) {
                Some(line) => {
                    proof {
                        received = received.push(line@);
                    }
                    self.receive(line);
                    assert(self@.lines =~= before.lines + received);
                },
                None => {
                    break ;
                },
            }
        }
    }

    /// Throws the lines away.
    pub fn clear(&mut self)
        ensures
            final(self)@ == old(self)@.cleared(),
    {
        self.buf.clear();
        assert(self@.lines =~= Seq::<LineView>::empty());
    }

    /// Replaces the palette. The lines stay as they are, and are shown in
    /// the new colours from the next frame on.
    pub fn set_colors(&mut self, colors: LogColors)
        ensures
            final(self)@ == old(self)@.recolored(colors),
    {
        self.colors = colors;
    }

    /// The palette in use.
    pub fn colors(&self) -> (colors: LogColors)
        ensures
            colors == self@.colors,
    {
        self.colors
    }

    /// Whether the view follows the newest line.
    pub fn autoscroll(&self) -> (on: bool)
        ensures
            on == self@.autoscroll,
    {
        self.autoscroll
    }

    /// Switches autoscroll on or off.
    pub fn set_autoscroll(&mut self, on: bool)
        ensures
            final(self)@ == (WindowView { autoscroll: on, ..old(self)@ }),
    {
        self.autoscroll = on;
    }

    /// The lines to show, oldest first.
    pub fn lines(&self) -> (lines: &Vec<LogLine>)
        ensures
            line_views(lines@) == self@.lines,
    {
        &self.buf
    }

    /// The text that the Copy action puts on the clipboard: the texts of
    /// all lines, joined by line feeds.
    pub fn copy_text(&self) -> (text: String)
        ensures
            text@ == joined(self@.lines),
    {
        proof {
            reveal_strlit("\n");
        }
        let ghost lines = self@.lines;
        let mut text = String::new();
        let mut next: usize = 0;
        assert(lines.take(0) =~= Seq::<LineView>::empty());
        while next < self.buf.len()
            invariant
                next <= self.buf.len(),
                lines == line_views(self.buf@),
                text@ == joined(lines.take(next as int)),
                "\n"@ == seq!['\n'],
            decreases self.buf.len() - next,
        {
            let ghost done = lines.take(next as int);
            let ghost more = lines.take(next + 1);
            assert(more.drop_last() =~= done);
            assert(more.last() == self.buf@[next as int]@);
            if next > 0 {
                text.append("\n");
            } else {
                assert(text@ =~= Seq::<char>::empty());
            }
            text.append(self.buf[next].text.as_str());
            assert(text@ =~= joined(more));
            next = next + 1;
        }
        assert(lines.take(next as int) =~= lines);
        text
    }

    /// One frame in which the window is shown. First the window takes in
    /// what the channel has at hand, as [`LogWindow::sync`] does.
    /// Then, if the user pressed Clear, it throws all lines away. Then, if
    /// the user pressed Copy, it returns the text for the clipboard, which
    /// is made of the lines that are left.
    pub fn build(&mut self, clear: bool, copy: bool) -> (clipboard: Option<String>)
        ensures
            exists|received: Seq<LineView>| final(self)@ == #[trigger] old(self)@.framed(
                received,
                clear,
            ),
            clipboard is Some <==> copy,
            clipboard matches Some(text) ==> text@ == joined(final(self)@.lines),
    {
        self.sync();
        let ghost received = choose|received: Seq<LineView>|
            self@ == #[trigger] old(self)@.extended(received);
        if clear {
            self.clear();
        }
        assert(self@ == old(self)@.framed(received, clear));
        if copy {
            Some(self.copy_text())
        } else {
            None
        }
    }

    /// Whether the frame ends with the view pinned to the newest line.
    /// `at_bottom` tells whether the view is scrolled to the bottom already.
    pub fn pins_to_bottom(&self, at_bottom: bool) -> (pin: bool)
        ensures
            pin == self@.pins(at_bottom),
    {
        self.autoscroll || at_bottom
    }
}

/// Lines that arrive are put behind the lines that are there, in the
/// order in which they arrive, and no line that was there is lost or moved.
pub proof fn law_arrival_order(window: WindowView, received: Seq<LineView>)
    ensures
        window.framed(received, false).lines.len() == window.lines.len() + received.len(),
        forall|i: int|
            0 <= i < window.lines.len() ==> window.framed(received, false).lines[i]
                == window.lines[i],
        forall|i: int|
            0 <= i < received.len() ==> window.framed(received, false).lines[window.lines.len()
                + i] == received[i],
{
}

/// After the lines were thrown away, a frame in which nothing arrives shows
/// no line, whatever the user asks for in it.
pub proof fn law_clear_then_idle(window: WindowView, clear: bool)
    ensures
        window.cleared().framed(Seq::empty(), clear).lines == Seq::<LineView>::empty(),
{
    assert(window.cleared().framed(Seq::empty(), clear).lines =~= Seq::<LineView>::empty());
}

/// Any number of frames in which nothing arrives and the user asks for
/// nothing leave the window as it is: no line is shown twice, none is lost.
pub proof fn law_idle_frames(window: WindowView, count: nat)
    ensures
        window.idled(count) == window,
    decreases count,
{
    if count > 0 {
        law_idle_frames(window, (count - 1) as nat);
        assert(window.lines + Seq::<LineView>::empty() =~= window.lines);
    }
}

/// Another palette changes the colour of a severity to the one that the
/// palette holds for it, and changes no line.
pub proof fn law_recolor(window: WindowView, colors: LogColors)
    ensures
        window.recolored(colors).colors.color_of(crate::level::Level::Error) == colors.error,
        forall|level: crate::level::Level|
            window.recolored(colors).colors.color_of(level) == colors.color_of(level),
        window.recolored(colors).lines == window.lines,
        window.recolored(colors).autoscroll == window.autoscroll,
{
}

} // verus!
