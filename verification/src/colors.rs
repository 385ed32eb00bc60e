//! The palette: one display colour for each severity.

use vstd::prelude::*;
use crate::level::Level;

verus! {

/// A colour as red, green, blue and alpha. Each component is held as the
/// bit pattern of an IEEE 754 single-precision number, by convention one
/// between 0.0 and 1.0.
pub type Rgba = [u32; 4];

/// The bit pattern of 1.0: a component at full strength.
pub const FULL: u32 = 0x3f80_0000;

/// The bit pattern of 0.0: a component that is absent.
pub const NONE: u32 = 0;

/// Colours used by a [`crate::LogWindow`] when it shows its lines.
#[derive(Clone, Copy)]
pub struct LogColors {
    pub trace: Rgba,
    pub debug: Rgba,
    pub info: Rgba,
    pub warn: Rgba,
    pub error: Rgba,
}

impl LogColors {
    /// The colour that the palette gives to a severity.
    pub open spec fn color_of(self, level: Level) -> Rgba {
        match level {
            Level::Trace => self.trace,
            Level::Debug => self.debug,
            Level::Info => self.info,
            Level::Warn => self.warn,
            Level::Error => self.error,
        }
    }

    /// The built-in palette: trace is green, debug blue, info white, warn
    /// yellow and error red, all opaque.
    pub open spec fn builtin(self) -> bool {
        &&& self.trace@ == seq![NONE, FULL, NONE, FULL]
        &&& self.debug@ == seq![NONE, NONE, FULL, FULL]
        &&& self.info@ == seq![FULL, FULL, FULL, FULL]
        &&& self.warn@ == seq![FULL, FULL, NONE, FULL]
        &&& self.error@ == seq![FULL, NONE, NONE, FULL]
    }

    /// Looks up the colour of a severity.
    pub fn level(&self, level: Level) -> (color: Rgba)
        ensures
            color == self.color_of(level),
    {
        match level {
            Level::Trace => self.trace,
            Level::Debug => self.debug,
            Level::Info => self.info,
            Level::Warn => self.warn,
            Level::Error => self.error,
        }
    }
}

impl Default for LogColors {
    fn default() -> (palette: LogColors)
        ensures
            palette.builtin(),
    {
        let palette = LogColors {
            trace: [NONE, FULL, NONE, FULL],
            debug: [NONE, NONE, FULL, FULL],
            info: [FULL, FULL, FULL, FULL],
            warn: [FULL, FULL, NONE, FULL],
            error: [FULL, NONE, NONE, FULL],
        };
        assert(palette.trace@ =~= seq![NONE, FULL, NONE, FULL]);
        assert(palette.debug@ =~= seq![NONE, NONE, FULL, FULL]);
        assert(palette.info@ =~= seq![FULL, FULL, FULL, FULL]);
        assert(palette.warn@ =~= seq![FULL, FULL, NONE, FULL]);
        assert(palette.error@ =~= seq![FULL, NONE, NONE, FULL]);
        palette
    }
}

} // verus!
