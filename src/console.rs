use crate::severity::Severity;
use vstd::prelude::*;
use vstd::string::{StrSliceExecFns, StringExecFns};

verus! {

/// `n` space characters.
pub open spec fn spaces(n: nat) -> Seq<char>
    decreases n,
{
    if n == 0 {
        Seq::empty()
    } else {
        spaces((n - 1) as nat).push(' ')
    }
}

/// `s` followed by spaces up to `width` characters; unchanged when already as wide.
pub open spec fn spec_padded(s: Seq<char>, width: int) -> Seq<char> {
    if s.len() >= width {
        s
    } else {
        s + spaces((width - s.len()) as nat)
    }
}

/// The fixed-width label of a severity.
pub open spec fn spec_label(s: Severity) -> Seq<char> {
    match s {
        Severity::Trace => seq!['T', 'R', 'A', 'C', 'E'],
        Severity::Debug => seq!['D', 'E', 'B', 'U', 'G'],
        Severity::Info => seq![' ', 'I', 'N', 'F', 'O'],
        Severity::Warn => seq![' ', 'W', 'A', 'R', 'N'],
        Severity::Error => seq!['E', 'R', 'R', 'O', 'R'],
    }
}

/// `<label> <target> > <message>`.
pub open spec fn spec_compose(label: Seq<char>, target: Seq<char>, message: Seq<char>) -> Seq<char> {
    label + seq![' '] + target + seq![' ', '>', ' '] + message
}

/// The console line of a record, with the target padded to `width`.
pub open spec fn spec_console_line(
    level: Severity,
    target: Seq<char>,
    width: int,
    message: Seq<char>,
) -> Seq<char> {
    spec_compose(spec_label(level), spec_padded(target, width), message)
}

/// Left-aligns `s` in a field of `width` characters, filling with spaces.
pub fn pad_to(s: &str, width: usize) -> (r: String)
    ensures
        r@ == spec_padded(s@, width as int),
{
    let n = s.unicode_len();
    let mut r = String::from_str(s);
    let mut i: usize = n;
    proof {
        assert(s@ + spaces(0) =~= s@);
    }
    while i < width
        invariant
            n == s@.len(),
            n <= i,
            i <= width || i == n,
            r@ == s@ + spaces((i - n) as nat),
        decreases width - i,
    {
        r.append(" ");
        proof {
            reveal_strlit(" ");
            assert(spaces((i + 1 - n) as nat) == spaces((i - n) as nat).push(' '));
            assert(s@ + spaces((i + 1 - n) as nat) =~= s@ + spaces((i - n) as nat) + " "@);
        }
        i = i + 1;
    }
    proof {
        if s@.len() < width {
            assert(i == width);
        } else {
            assert(i == n);
            assert(s@ + spaces(0) =~= s@);
        }
    }
    r
}

/// The fixed-width label of a severity: five characters, right-aligned.
pub fn level_label(s: Severity) -> (r: &'static str)
    ensures
        r@ == spec_label(s),
{
    proof {
        reveal_strlit("TRACE");
        reveal_strlit("DEBUG");
        reveal_strlit(" INFO");
        reveal_strlit(" WARN");
        reveal_strlit("ERROR");
    }
    match s {
        Severity::Trace => "TRACE",
        Severity::Debug => "DEBUG",
        Severity::Info => " INFO",
        Severity::Warn => " WARN",
        Severity::Error => "ERROR",
    }
}

/// Joins a label, a target and a message as `<label> <target> > <message>`.
pub fn compose_line(label: &str, target: &str, message: &str) -> (r: String)
    ensures
        r@ == spec_compose(label@, target@, message@),
{
    proof {
        reveal_strlit(" ");
        reveal_strlit(" > ");
    }
    let mut r = String::from_str(label);
    r.append(" ");
    r.append(target);
    r.append(" > ");
    r.append(message);
    proof {
        assert(r@ =~= spec_compose(label@, target@, message@));
    }
    r
}

/// The plain console line of a record whose target is padded to `width`.
pub fn console_line(level: Severity, target: &str, width: usize, message: &str) -> (r: String)
    ensures
        r@ == spec_console_line(level, target@, width as int, message@),
{
    let padded = pad_to(target, width);
    compose_line(level_label(level), padded.as_str(), message)
}

} // verus!
