//! Severity levels, the level filter and the console presentation of a level.
use vstd::prelude::*;

verus! {

/// The severity of a record, from most to least severe.
#[derive(Clone, Copy, Debug, PartialEq, Eq, Structural)]
pub enum Level {
    Error,
    Warn,
    Info,
    Debug,
    Trace,
}

/// The most verbose level let through; `Off` lets nothing through.
#[derive(Clone, Copy, Debug, PartialEq, Eq, Structural)]
pub enum LevelFilter {
    Off,
    Error,
    Warn,
    Info,
    Debug,
    Trace,
}

/// The color a console line is printed in.
#[derive(Clone, Copy, Debug, PartialEq, Eq, Structural)]
pub enum ConsoleColor {
    Red,
    Yellow,
    Green,
    Cyan,
    White,
}

/// Error is 1, Trace is 5: a larger rank is more verbose.
pub open spec fn level_rank(l: Level) -> int {
    match l {
        Level::Error => 1,
        Level::Warn => 2,
        Level::Info => 3,
        Level::Debug => 4,
        Level::Trace => 5,
    }
}

pub open spec fn filter_rank(f: LevelFilter) -> int {
    match f {
        LevelFilter::Off => 0,
        LevelFilter::Error => 1,
        LevelFilter::Warn => 2,
        LevelFilter::Info => 3,
        LevelFilter::Debug => 4,
        LevelFilter::Trace => 5,
    }
}

/// The five-character label that prefixes a line of level `l`.
pub open spec fn label_spec(l: Level) -> Seq<char> {
    match l {
        Level::Error => seq!['E', 'R', 'R', 'O', 'R'],
        Level::Warn => seq![' ', 'W', 'A', 'R', 'N'],
        Level::Info => seq![' ', 'I', 'N', 'F', 'O'],
        Level::Debug => seq!['D', 'E', 'B', 'U', 'G'],
        Level::Trace => seq!['T', 'R', 'A', 'C', 'E'],
    }
}

pub open spec fn color_spec(l: Level) -> ConsoleColor {
    match l {
        Level::Error => ConsoleColor::Red,
        Level::Warn => ConsoleColor::Yellow,
        Level::Info => ConsoleColor::Green,
        Level::Debug => ConsoleColor::Cyan,
        Level::Trace => ConsoleColor::White,
    }
}

/// Whether a record of level `level` passes the filter `max`.
pub fn level_enabled(level: Level, max: LevelFilter) -> (r: bool)
    ensures
        r == (level_rank(level) <= filter_rank(max)),
{
    let rank: u8 = match level {
        Level::Error => 1,
        Level::Warn => 2,
        Level::Info => 3,
        Level::Debug => 4,
        Level::Trace => 5,
    };
    let bound: u8 = match max {
        LevelFilter::Off => 0,
        LevelFilter::Error => 1,
        LevelFilter::Warn => 2,
        LevelFilter::Info => 3,
        LevelFilter::Debug => 4,
        LevelFilter::Trace => 5,
    };
    rank <= bound
}

/// The filter used when none is given: every level in a debug build, Info and
/// above otherwise.
pub fn default_filter(debug_build: bool) -> (r: LevelFilter)
    ensures
        r == (if debug_build {
            LevelFilter::Trace
        } else {
            LevelFilter::Info
        }),
{
    if debug_build {
        LevelFilter::Trace
    } else {
        LevelFilter::Info
    }
}

/// The label of `level` as it prefixes a line.
pub fn level_label(level: Level) -> (r: &'static str)
    ensures
        r@ == label_spec(level),
{
    match level {
        Level::Error => {
            proof {
                reveal_strlit("ERROR");
            }
            assert("ERROR"@ =~= label_spec(level));
            "ERROR"
        },
        Level::Warn => {
            proof {
                reveal_strlit(" WARN");
            }
            assert(" WARN"@ =~= label_spec(level));
            " WARN"
        },
        Level::Info => {
            proof {
                reveal_strlit(" INFO");
            }
            assert(" INFO"@ =~= label_spec(level));
            " INFO"
        },
        Level::Debug => {
            proof {
                reveal_strlit("DEBUG");
            }
            assert("DEBUG"@ =~= label_spec(level));
            "DEBUG"
        },
        Level::Trace => {
            proof {
                reveal_strlit("TRACE");
            }
            assert("TRACE"@ =~= label_spec(level));
            "TRACE"
        },
    }
}

/// The console color of a line of level `level`.
pub fn level_color(level: Level) -> (r: ConsoleColor)
    ensures
        r == color_spec(level),
{
    match level {
        Level::Error => ConsoleColor::Red,
        Level::Warn => ConsoleColor::Yellow,
        Level::Info => ConsoleColor::Green,
        Level::Debug => ConsoleColor::Cyan,
        Level::Trace => ConsoleColor::White,
    }
}

/// The level names accepted in configuration, in order.
pub open spec fn level_names() -> Seq<Seq<char>> {
    seq![
        seq!['t', 'r', 'a', 'c', 'e'],
        seq!['d', 'e', 'b', 'u', 'g'],
        seq!['i', 'n', 'f', 'o'],
        seq!['w', 'a', 'r', 'n'],
        seq!['e', 'r', 'r', 'o', 'r'],
        seq!['r', 'e', 'c', 'o', 'r', 'd'],
    ]
}

/// Whether `s` names a level, together with the list of level names.
pub fn is_level_str(s: &str) -> (r: (bool, Vec<&'static str>))
    ensures
        r.0 == level_names().contains(s@),
        r.1@.len() == level_names().len(),
        forall|i: int| 0 <= i < r.1@.len() ==> #[trigger] r.1@[i]@ == level_names()[i],
{
    proof {
        reveal_strlit("trace");
        reveal_strlit("debug");
        reveal_strlit("info");
        reveal_strlit("warn");
        reveal_strlit("error");
        reveal_strlit("record");
    }
    let levels: Vec<&'static str> = vec!["trace", "debug", "info", "warn", "error", "record"];
    assert(levels@[0]@ =~= level_names()[0]);
    assert(levels@[1]@ =~= level_names()[1]);
    assert(levels@[2]@ =~= level_names()[2]);
    assert(levels@[3]@ =~= level_names()[3]);
    assert(levels@[4]@ =~= level_names()[4]);
    assert(levels@[5]@ =~= level_names()[5]);
    let wanted = s.to_owned();
    let mut found = false;
    let mut i: usize = 0;
    while i < levels.len()
        invariant
            i <= levels@.len(),
            levels@.len() == level_names().len(),
            wanted@ == s@,
            forall|j: int| 0 <= j < levels@.len() ==> #[trigger] levels@[j]@ == level_names()[j],
            found == exists|j: int| 0 <= j < i && level_names()[j] == s@,
        decreases levels@.len() - i,
    {
        let candidate = levels[i].to_owned();
        if candidate == wanted {
            found = true;
        }
        i = i + 1;
    }
    proof {
        if found {
            let j = choose|j: int| 0 <= j < levels@.len() && level_names()[j] == s@;
            assert(level_names()[j] == s@);
        }
        if level_names().contains(s@) {
            let j = choose|j: int| 0 <= j < level_names().len() && level_names()[j] == s@;
            assert(0 <= j < i && level_names()[j] == s@);
        }
    }
    (found, levels)
}

} // verus!
