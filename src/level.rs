use vstd::prelude::*;

verus! {

/// The five severities of an event, from most to least severe.
#[derive(Debug, Clone, Copy, PartialEq, Eq, Structural)]
pub enum Level {
    Error,
    Warn,
    Info,
    Debug,
    Trace,
}

/// The fixed five-character token that names a level in a dimmed line.
pub open spec fn level_token(level: Level) -> Seq<char> {
    match level {
        Level::Error => seq!['E', 'R', 'R', 'O', 'R'],
        Level::Warn => seq!['W', 'A', 'R', 'N', ' '],
        Level::Info => seq!['I', 'N', 'F', 'O', ' '],
        Level::Debug => seq!['D', 'E', 'B', 'U', 'G'],
        Level::Trace => seq!['T', 'R', 'A', 'C', 'E'],
    }
}

impl Level {
    /// The level's token, left-aligned and padded with spaces to five characters.
    pub fn token(&self) -> (r: &'static str)
        ensures
            r@ == level_token(*self),
            r@.len() == 5,
    {
        match self {
            Level::Error => {
                proof {
                    reveal_strlit("ERROR");
                }
                "ERROR"
            },
            Level::Warn => {
                proof {
                    reveal_strlit("WARN ");
                }
                "WARN "
            },
            Level::Info => {
                proof {
                    reveal_strlit("INFO ");
                }
                "INFO "
            },
            Level::Debug => {
                proof {
                    reveal_strlit("DEBUG");
                }
                "DEBUG"
            },
            Level::Trace => {
                proof {
                    reveal_strlit("TRACE");
                }
                "TRACE"
            },
        }
    }
}

/// Every level's token is exactly five characters wide.
pub proof fn level_token_width(level: Level)
    ensures
        level_token(level).len() == 5,
{
}

} // verus!
