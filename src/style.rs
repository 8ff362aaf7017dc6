use crate::console::{compose_line, level_label, pad_to, spec_compose, spec_label, spec_padded};
use crate::severity::Severity;
use vstd::prelude::*;

verus! {

/// The colors that labels are painted in.
#[derive(Clone, Copy, Debug, PartialEq, Eq, Structural)]
pub enum Tint {
    Magenta,
    Blue,
    Green,
    Yellow,
    Red,
    Cyan,
}

/// The sequence that ends a styled span on a terminal.
pub open spec fn reset_sequence() -> Seq<char> {
    seq!['\x1B', '[', '0', 'm']
}

/// `r` shows `text`: either unstyled, when the terminal takes no color, or
/// after a style sequence and followed by the reset sequence.
pub open spec fn spec_painted(text: Seq<char>, r: Seq<char>) -> bool {
    r == text || exists|style: Seq<char>| r == style + text + reset_sequence()
}

/// Relies on `colored`'s `Colorize::color` and `Colorize::bold` and the
/// `Display` of `ColoredString`: the text alone when coloring is off, else
/// a style sequence, the text, and the reset sequence. Text without an
/// escape character is written unchanged.
#[verifier::external_body]
pub(crate) fn paint_bold(text: &str, tint: Tint) -> (r: String)
    requires
        !text@.contains('\x1B'),
    ensures
        spec_painted(text@, r@),
{
    let color = match tint {
        Tint::Magenta => colored::Color::Magenta,
        Tint::Blue => colored::Color::Blue,
        Tint::Green => colored::Color::Green,
        Tint::Yellow => colored::Color::Yellow,
        Tint::Red => colored::Color::Red,
        Tint::Cyan => colored::Color::Cyan,
    };
    colored::Colorize::bold(colored::Colorize::color(text, color)).to_string()
}

/// The color of a severity's label.
pub open spec fn spec_tint(s: Severity) -> Tint {
    match s {
        Severity::Trace => Tint::Magenta,
        Severity::Debug => Tint::Blue,
        Severity::Info => Tint::Green,
        Severity::Warn => Tint::Yellow,
        Severity::Error => Tint::Red,
    }
}

pub fn tint_of(s: Severity) -> (r: Tint)
    ensures
        r == spec_tint(s),
{
    match s {
        Severity::Trace => Tint::Magenta,
        Severity::Debug => Tint::Blue,
        Severity::Info => Tint::Green,
        Severity::Warn => Tint::Yellow,
        Severity::Error => Tint::Red,
    }
}

/// The severity label, bold and in the severity's color.
pub fn painted_label(s: Severity) -> (r: String)
    ensures
        spec_painted(spec_label(s), r@),
{
    let label = level_label(s);
    assert(!label@.contains('\x1B'));
    paint_bold(label, tint_of(s))
}

/// The console line of a record as a terminal shows it: the severity label
/// painted in its color, then the target padded to `width` and the message.
pub fn painted_console_line(level: Severity, target: &str, width: usize, message: &str) -> (r: String)
    ensures
        exists|label: Seq<char>|
            spec_painted(spec_label(level), label) && r@ == spec_compose(
                label,
                spec_padded(target@, width as int),
                message@,
            ),
{
    let label = painted_label(level);
    let padded = pad_to(target, width);
    compose_line(label.as_str(), padded.as_str(), message)
}

} // verus!
