//! Severities of log records.

use vstd::prelude::*;

verus! {

/// How severe a record is. The variants are listed from the least severe to
/// the most severe.
#[derive(Clone, Copy, Debug, PartialEq, Eq, PartialOrd, Ord, Hash, Structural)]
pub enum Level {
    Trace,
    Debug,
    Info,
    Warn,
    Error,
}

/// The least severe level that a sink lets through.
pub const THRESHOLD: Level = Level::Debug;

impl Level {
    /// The position of the level in the order of severity, `Trace` being 0.
    pub open spec fn rank(self) -> nat {
        match self {
            Level::Trace => 0,
            Level::Debug => 1,
            Level::Info => 2,
            Level::Warn => 3,
            Level::Error => 4,
        }
    }

    /// The upper-case name under which the level appears in a formatted line.
    pub open spec fn label(self) -> Seq<char> {
        match self {
            Level::Trace => seq!['T', 'R', 'A', 'C', 'E'],
            Level::Debug => seq!['D', 'E', 'B', 'U', 'G'],
            Level::Info => seq!['I', 'N', 'F', 'O'],
            Level::Warn => seq!['W', 'A', 'R', 'N'],
            Level::Error => seq!['E', 'R', 'R', 'O', 'R'],
        }
    }

    /// Whether a record of this level passes the sink's filter.
    pub open spec fn passes(self) -> bool {
        self.rank() >= THRESHOLD.rank()
    }

    /// The rank as a machine integer.
    pub fn severity(self) -> (rank: u8)
        ensures
            rank == self.rank(),
    {
        match self {
            Level::Trace => 0,
            Level::Debug => 1,
            Level::Info => 2,
            Level::Warn => 3,
            Level::Error => 4,
        }
    }

    /// Whether this level is at least as severe as `floor`.
    pub fn at_least(self, floor: Level) -> (yes: bool)
        ensures
            yes == (self.rank() >= floor.rank()),
    {
        self.severity() >= floor.severity()
    }

    /// The level's name in upper case.
    pub fn as_str(self) -> (name: &'static str)
        ensures
            name@ == self.label(),
    {
        match self {
            Level::Trace => {
                proof {
                    reveal_strlit("TRACE");
                }
                assert("TRACE"@ =~= self.label());
                "TRACE"
            },
            Level::Debug => {
                proof {
                    reveal_strlit("DEBUG");
                }
                assert("DEBUG"@ =~= self.label());
                "DEBUG"
            },
            Level::Info => {
                proof {
                    reveal_strlit("INFO");
                }
                assert("INFO"@ =~= self.label());
                "INFO"
            },
            Level::Warn => {
                proof {
                    reveal_strlit("WARN");
                }
                assert("WARN"@ =~= self.label());
                "WARN"
            },
            Level::Error => {
                proof {
                    reveal_strlit("ERROR");
                }
                assert("ERROR"@ =~= self.label());
                "ERROR"
            },
        }
    }
}

/// The filter holds back `Trace` and nothing else.
pub proof fn law_only_trace_is_filtered(level: Level)
    ensures
        level.passes() <==> level != Level::Trace,
        !Level::Trace.passes(),
        Level::Debug.passes(),
        Level::Info.passes(),
        Level::Warn.passes(),
        Level::Error.passes(),
{
}

/// A level that is at least as severe as one that passes the filter
/// passes it too.
pub proof fn law_filter_is_upward_closed(low: Level, high: Level)
    requires
        low.passes(),
        low.rank() <= high.rank(),
    ensures
        high.passes(),
{
}

} // verus!
