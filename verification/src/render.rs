//! Assembly of one formatted record line, and the callback body that
//! formats one record of the logging facade to its sink.
use vstd::prelude::*;
use crate::elapsed::format_elapsed;
use crate::elapsed::spec_elapsed;
use crate::label::derive_label;
use crate::label::spec_label;
use crate::level::level_color;
use crate::level::spec_level_color;
use crate::level::spec_tag;
use crate::level::tag_bytes;
use crate::level::Level;
use crate::paint::paint_badge;
use crate::paint::paint_bold;
use crate::paint::paint_tag;
use crate::paint::spec_color_code;
use crate::paint::spec_painted;
use crate::reindent::reindent_message;
use crate::reindent::spec_reindent;
use crate::width::spec_update;
use crate::width::WidthState;

verus! {

#[verifier::external_type_specification]
#[verifier::external_body]
/// std::time::Instant, the start moment captured at construction.
pub struct ExInstant(std::time::Instant);

#[verifier::external_type_specification]
#[verifier::external_body]
/// std::io::Error, the sink's write error, propagated unchanged.
pub struct ExIoError(std::io::Error);

#[verifier::external_type_specification]
#[verifier::external_body]
/// log::Record, the structured record handed over by the logging facade.
pub struct ExRecord<'a>(log::Record<'a>);

#[verifier::external_type_specification]
#[verifier::external_body]
/// env_logger::fmt::Formatter, the sink one record is written to.
pub struct ExFormatter(env_logger::fmt::Formatter);

/// Relies on log::Record::level to read the record's level; the facade's
/// five variants map one-to-one onto the formatter's own levels.
#[verifier::external_body]
fn record_level(record: &log::Record) -> (l: Level)
{
    match record.level() {
        log::Level::Trace => Level::Trace,
        log::Level::Debug => Level::Debug,
        log::Level::Info => Level::Info,
        log::Level::Warn => Level::Warn,
        log::Level::Error => Level::Error,
    }
}

/// Relies on log::Record::target to read the record's hierarchical target
/// path; its UTF-8 bytes are handed over unchanged.
#[verifier::external_body]
fn record_target(record: &log::Record) -> (t: Vec<u8>)
{
    record.target().as_bytes().to_vec()
}

/// Relies on log::Record::args: the record's message rendered to UTF-8
/// bytes, embedded line breaks included.
#[verifier::external_body]
fn record_message(record: &log::Record) -> (m: Vec<u8>)
{
    format!("{}", record.args()).into_bytes()
}

/// Relies on std::time::Instant::elapsed: the time passed since `start`.
#[verifier::external_body]
fn instant_elapsed(start: &std::time::Instant) -> (d: std::time::Duration)
{
    start.elapsed()
}

/// Relies on std::time::Duration::as_secs: the whole seconds of `d`.
#[verifier::external_body]
fn duration_secs(d: &std::time::Duration) -> (s: u64)
{
    d.as_secs()
}

/// Relies on std::time::Duration::subsec_millis, documented to return the
/// fractional part of `d` in whole milliseconds, less than 1000.
#[verifier::external_body]
fn duration_subsec_millis(d: &std::time::Duration) -> (ms: u32)
    ensures
        ms < 1000,
{
    d.subsec_millis()
}

/// Relies on std::io::Write::write_all through env_logger's sink: writes
/// the whole buffer to the record's output, or returns the sink's error.
#[verifier::external_body]
fn write_all_to(f: &mut env_logger::fmt::Formatter, bytes: &[u8]) -> (r: Result<
    (),
    std::io::Error,
>)
{
    std::io::Write::write_all(f, bytes)
}

/// The elapsed badge: the rendered elapsed time between single spaces.
pub open spec fn spec_badge(secs: u64, millis: u32) -> Seq<u8> {
    seq![32u8] + spec_elapsed(secs, millis) + seq![32u8]
}

/// The label padded on the right with spaces up to `width`; a label already
/// at least that wide stands unchanged.
pub open spec fn spec_padded(label: Seq<u8>, width: nat) -> Seq<u8> {
    if label.len() >= width {
        label
    } else {
        label + Seq::new((width - label.len()) as nat, |i: int| 32u8)
    }
}

/// One fully rendered record line, left to right: the level tag on the
/// level's color with black foreground; the elapsed badge on white, black,
/// bold and dimmed; the padded label in bold; `"> "`; the message with
/// every line break re-indented under the tag re-styled with a white
/// foreground; a terminating line break.
pub open spec fn spec_line(
    level: Level,
    target: Seq<u8>,
    msg: Seq<u8>,
    secs: u64,
    millis: u32,
    width: nat,
) -> Seq<u8> {
    spec_painted(
        Some(spec_color_code(spec_level_color(level))),
        Some(0u8),
        false,
        false,
        spec_tag(level),
    ) + spec_painted(Some(7u8), Some(0u8), true, true, spec_badge(secs, millis))
        + spec_painted(None, None, true, false, spec_padded(spec_label(target), width))
        + seq![62u8, 32u8] + spec_reindent(
        msg,
        spec_painted(
            Some(spec_color_code(spec_level_color(level))),
            Some(7u8),
            false,
            false,
            spec_tag(level),
        ),
    ) + seq![10u8]
}

/// The label padded on the right with spaces up to `width`.
pub fn pad_label(label: Vec<u8>, width: usize) -> (padded: Vec<u8>)
    ensures
        padded@ == spec_padded(label@, width as nat),
{
    let mut padded = label;
    let ghost unpadded: Seq<u8> = padded@;
    proof {
        assert(padded@ =~= unpadded + Seq::new(0, |i: int| 32u8));
    }
    while padded.len() < width
        invariant
            unpadded.len() <= padded@.len(),
            padded@.len() <= unpadded.len() || padded@.len() <= width,
            padded@ == unpadded + Seq::new((padded@.len() - unpadded.len()) as nat, |i: int| 32u8),
        decreases width - padded@.len(),
    {
        proof {
            let d = (padded@.len() - unpadded.len()) as nat;
            assert(Seq::new(d, |i: int| 32u8).push(32u8) =~= Seq::new((d + 1) as nat, |i: int| 32u8));
            assert(padded@.push(32u8) =~= unpadded + Seq::new(d, |i: int| 32u8).push(32u8));
        }
        padded.push(32);
    }
    proof {
        assert(padded@ =~= spec_padded(unpadded, width as nat));
    }
    padded
}

/// Renders one record as its single colorized output line, feeding the
/// label's length through the adaptive width state. The returned bytes are
/// exactly the line the formatter writes, terminating line break included,
/// and the width state advances by exactly one heuristic step.
pub fn render_line(
    level: Level,
    target: &[u8],
    message: &[u8],
    secs: u64,
    millis: u32,
    state: &mut WidthState,
) -> (line: Vec<u8>)
    requires
        millis < 1000,
    ensures
        *final(state) == spec_update(*old(state), spec_label(target@).len() as usize),
        line@ == spec_line(
            level,
            target@,
            message@,
            secs,
            millis,
            final(state).max_width as nat,
        ),
{
    let label = derive_label(target);
    let width = state.update(label.len());
    let padded = pad_label(label, width);
    let tag = tag_bytes(level);
    let color = level_color(level);
    let mut first_tag = paint_tag(color, false, tag.as_slice());
    let cont_tag = paint_tag(color, true, tag.as_slice());

    let mut badge: Vec<u8> = Vec::new();
    badge.push(32);
    let mut elapsed_digits = format_elapsed(secs, millis);
    badge.append(&mut elapsed_digits);
    badge.push(32);
    proof {
        assert(badge@ =~= spec_badge(secs, millis));
    }
    let mut badge_painted = paint_badge(badge.as_slice());
    let mut label_painted = paint_bold(padded.as_slice());
    let mut body = reindent_message(message, cont_tag.as_slice());

    let mut line: Vec<u8> = Vec::new();
    line.append(&mut first_tag);
    line.append(&mut badge_painted);
    line.append(&mut label_painted);
    line.push(62);
    line.push(32);
    line.append(&mut body);
    line.push(10);
    proof {
        assert(line@ =~= spec_line(
            level,
            target@,
            message@,
            secs,
            millis,
            state.max_width as nat,
        ));
    }
    line
}

/// Formats one record to the facade's sink: reads the record's level,
/// target and message, the elapsed time since `start`, renders the line,
/// and writes it. The width state advances by exactly one heuristic step;
/// the only error is the sink's write error, returned unchanged.
pub(crate) fn format_record(
    f: &mut env_logger::fmt::Formatter,
    record: &log::Record,
    start: &std::time::Instant,
    state: &mut WidthState,
) -> (r: Result<(), std::io::Error>)
    ensures
        exists|len: usize| *final(state) == spec_update(*old(state), len),
{
    let ghost pre: WidthState = *state;
    let level = record_level(record);
    let target = record_target(record);
    let message = record_message(record);
    let d = instant_elapsed(start);
    let secs = duration_secs(&d);
    let millis = duration_subsec_millis(&d);
    let line = render_line(level, target.as_slice(), message.as_slice(), secs, millis, state);
    proof {
        let witness: usize = spec_label(target@).len() as usize;
        assert(*state == spec_update(pre, witness));
    }
    write_all_to(f, line.as_slice())
}

} // verus!
