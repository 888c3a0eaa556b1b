//! Terminal styling, delegated to the ansi_term crate. Verified code never
//! inspects the escape sequences; it only composes the painted spans, whose
//! bytes are named by `spec_painted`.
use vstd::prelude::*;
use crate::level::Color;

verus! {

/// The bytes ansi_term produces for a span of text under a given style: the
/// text wrapped in the escape sequences the style calls for. The result is
/// a function of the style parameters and the text alone. Colors are named
/// by their ANSI number (0 black, 1 red, 2 green, 3 yellow, 4 blue,
/// 5 purple, 7 white); `None` leaves that color unset.
pub uninterp spec fn spec_painted(
    on: Option<u8>,
    fg: Option<u8>,
    bold: bool,
    dimmed: bool,
    text: Seq<u8>,
) -> Seq<u8>;

/// The ANSI color number of each tag color, as ansi_term assigns them.
pub open spec fn spec_color_code(c: Color) -> u8 {
    match c {
        Color::Purple => 5,
        Color::Blue => 4,
        Color::Green => 2,
        Color::Yellow => 3,
        Color::Red => 1,
    }
}

/// Relies on ansi_term::Style::paint (built with Style::on and Style::fg)
/// and on the Display impl of the painted string: the rendered bytes depend
/// on the colors and the text alone. Draws `text` on the given background
/// color, with a white foreground for continuation-line tags and a black
/// one for first-line tags.
#[verifier::external_body]
pub(crate) fn paint_tag(color: Color, white_fg: bool, text: &[u8]) -> (r: Vec<u8>)
    ensures
        r@ == spec_painted(
            Some(spec_color_code(color)),
            Some(if white_fg { 7u8 } else { 0u8 }),
            false,
            false,
            text@,
        ),
{
    let bg = match color {
        Color::Purple => ansi_term::Color::Purple,
        Color::Blue => ansi_term::Color::Blue,
        Color::Green => ansi_term::Color::Green,
        Color::Yellow => ansi_term::Color::Yellow,
        Color::Red => ansi_term::Color::Red,
    };
    let fg = if white_fg { ansi_term::Color::White } else { ansi_term::Color::Black };
    let text = String::from_utf8_lossy(text).into_owned();
    format!("{}", ansi_term::Style::new().on(bg).fg(fg).paint(text)).into_bytes()
}

/// Relies on ansi_term::Style::paint and the Display impl of the painted
/// string: draws the elapsed badge on a white background with a black
/// foreground, dimmed and bold.
#[verifier::external_body]
pub(crate) fn paint_badge(text: &[u8]) -> (r: Vec<u8>)
    ensures
        r@ == spec_painted(Some(7u8), Some(0u8), true, true, text@),
{
    let style = ansi_term::Style::new().on(ansi_term::Color::White).fg(
        ansi_term::Color::Black,
    ).dimmed().bold();
    let text = String::from_utf8_lossy(text).into_owned();
    format!("{}", style.paint(text)).into_bytes()
}

/// Relies on ansi_term::Style::paint and the Display impl of the painted
/// string: draws the padded label bold, with no colors set.
#[verifier::external_body]
pub(crate) fn paint_bold(text: &[u8]) -> (r: Vec<u8>)
    ensures
        r@ == spec_painted(None, None, true, false, text@),
{
    let text = String::from_utf8_lossy(text).into_owned();
    format!("{}", ansi_term::Style::new().bold().paint(text)).into_bytes()
}

} // verus!
