//! The five log levels and the fixed tag/color table used to render them.
use vstd::prelude::*;

verus! {

/// The five log levels, mirroring the levels of the logging facade.
#[derive(Clone, Copy, PartialEq, Eq, Structural, Debug)]
pub enum Level {
    /// Finest-grained messages.
    Trace,
    /// Debugging messages.
    Debug,
    /// Informational messages.
    Info,
    /// Warnings.
    Warn,
    /// Errors.
    Error,
}

/// The terminal colors the formatter draws level tags with.
#[derive(Clone, Copy, PartialEq, Eq, Structural, Debug)]
pub enum Color {
    /// Used for `Trace`.
    Purple,
    /// Used for `Debug`.
    Blue,
    /// Used for `Info`.
    Green,
    /// Used for `Warn`.
    Yellow,
    /// Used for `Error`.
    Red,
}

/// The fixed rendered tag of each level, as UTF-8 bytes: a space, a
/// four-byte emoji face, a space, the level's initial letter, a space.
pub open spec fn spec_tag(level: Level) -> Seq<u8> {
    match level {
        Level::Trace => seq![32u8, 240u8, 159u8, 164u8, 147u8, 32u8, 84u8, 32u8],
        Level::Debug => seq![32u8, 240u8, 159u8, 164u8, 148u8, 32u8, 68u8, 32u8],
        Level::Info => seq![32u8, 240u8, 159u8, 152u8, 139u8, 32u8, 73u8, 32u8],
        Level::Warn => seq![32u8, 240u8, 159u8, 152u8, 165u8, 32u8, 87u8, 32u8],
        Level::Error => seq![32u8, 240u8, 159u8, 152u8, 161u8, 32u8, 69u8, 32u8],
    }
}

/// The fixed color of each level.
pub open spec fn spec_level_color(level: Level) -> Color {
    match level {
        Level::Trace => Color::Purple,
        Level::Debug => Color::Blue,
        Level::Info => Color::Green,
        Level::Warn => Color::Yellow,
        Level::Error => Color::Red,
    }
}

/// The color a level's tag is drawn with.
pub fn level_color(level: Level) -> (c: Color)
    ensures
        c == spec_level_color(level),
{
    match level {
        Level::Trace => Color::Purple,
        Level::Debug => Color::Blue,
        Level::Info => Color::Green,
        Level::Warn => Color::Yellow,
        Level::Error => Color::Red,
    }
}

/// The rendered tag of a level, as UTF-8 bytes.
pub fn tag_bytes(level: Level) -> (t: Vec<u8>)
    ensures
        t@ == spec_tag(level),
{
    let mut t: Vec<u8> = Vec::new();
    t.push(32);
    t.push(240);
    t.push(159);
    match level {
        Level::Trace => {
            t.push(164);
            t.push(147);
        },
        Level::Debug => {
            t.push(164);
            t.push(148);
        },
        Level::Info => {
            t.push(152);
            t.push(139);
        },
        Level::Warn => {
            t.push(152);
            t.push(165);
        },
        Level::Error => {
            t.push(152);
            t.push(161);
        },
    }
    t.push(32);
    match level {
        Level::Trace => t.push(84),
        Level::Debug => t.push(68),
        Level::Info => t.push(73),
        Level::Warn => t.push(87),
        Level::Error => t.push(69),
    }
    t.push(32);
    proof {
        assert(t@ =~= spec_tag(level));
    }
    t
}

/// Each level owns its rendering: no two levels share a rendered tag, and
/// no two levels are drawn with the same color.
pub proof fn lemma_level_rendering_injective(a: Level, b: Level)
    ensures
        spec_tag(a) == spec_tag(b) ==> a == b,
        spec_level_color(a) == spec_level_color(b) ==> a == b,
{
    if spec_tag(a) == spec_tag(b) {
        assert(spec_tag(a)[6] == spec_tag(b)[6]);
    }
}

} // verus!
