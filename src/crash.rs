use crate::breadcrumb::{spec_drain, Breadcrumb, BreadcrumbBuffer};
use crate::style::{paint_bold, spec_painted, Tint};
use vstd::prelude::*;
use vstd::string::StringExecFns;

verus! {

/// What the caller knows of the session when a crash is captured.
pub struct Metadata {
    pub chip: Option<String>,
    pub probe: Option<String>,
    pub release: String,
}

/// The acknowledgment that follows a submitted report.
pub const RECEIPT_TEXT: &'static str = "Your error was reported successfully. If you don't mind, please open an issue on Github and include the UUID: ";

/// The thanks that opens the acknowledgment, painted cyan.
pub const THANKS_TEXT: &'static str = "Thank You!";

pub open spec fn chip_key() -> Seq<char> {
    seq!['c', 'h', 'i', 'p']
}

pub open spec fn probe_key() -> Seq<char> {
    seq!['p', 'r', 'o', 'b', 'e']
}

/// The tags a report carries: the chip, then the probe, each only if known.
pub open spec fn spec_tags(chip: Option<Seq<char>>, probe: Option<Seq<char>>) -> Seq<(Seq<char>, Seq<char>)> {
    let c = match chip {
        Some(v) => seq![(chip_key(), v)],
        None => Seq::empty(),
    };
    let p = match probe {
        Some(v) => seq![(probe_key(), v)],
        None => Seq::empty(),
    };
    c + p
}

pub open spec fn opt_view(o: Option<String>) -> Option<Seq<char>> {
    match o {
        Some(s) => Some(s@),
        None => None,
    }
}

pub open spec fn tags_view(v: Seq<(String, String)>) -> Seq<(Seq<char>, Seq<char>)> {
    v.map_values(|t: (String, String)| (t.0@, t.1@))
}

/// The environment a report is filed under.
pub open spec fn spec_environment(debug_build: bool) -> Seq<char> {
    if debug_build {
        seq!['D', 'e', 'v', 'e', 'l', 'o', 'p', 'm', 'e', 'n', 't']
    } else {
        seq!['P', 'r', 'o', 'd', 'u', 'c', 't', 'i', 'o', 'n']
    }
}

/// The acknowledgment line, given the thanks as painted and the report identifier.
pub open spec fn spec_receipt(thanks: Seq<char>, id: Seq<char>) -> Seq<char> {
    seq![' ', ' '] + thanks + seq![' '] + RECEIPT_TEXT@ + seq![' '] + id
}

/// Everything a capture hands to the remote client: its configuration, the
/// tags for the session, and the breadcrumbs taken out of the buffer.
pub struct CapturePlan {
    pub release: String,
    pub environment: String,
    pub tags: Vec<(String, String)>,
    pub breadcrumbs: Vec<Breadcrumb>,
}

fn clone_string(s: &String) -> (r: String)
    ensures
        r@ == s@,
{
    String::from_str(s.as_str())
}

/// The tags of a session, chip first, each only when it is known.
pub fn session_tags(metadata: &Metadata) -> (r: Vec<(String, String)>)
    ensures
        tags_view(r@) == spec_tags(opt_view(metadata.chip), opt_view(metadata.probe)),
{
    let mut r: Vec<(String, String)> = Vec::new();
    if let Some(chip) = &metadata.chip {
        proof {
            reveal_strlit("chip");
        }
        let key = String::from_str("chip");
        assert(key@ =~= chip_key());
        r.push((key, clone_string(chip)));
    }
    let ghost mid = r@;
    assert(tags_view(mid) =~= spec_tags(opt_view(metadata.chip), None));
    if let Some(probe) = &metadata.probe {
        proof {
            reveal_strlit("probe");
        }
        let key = String::from_str("probe");
        assert(key@ =~= probe_key());
        r.push((key, clone_string(probe)));
        assert(r@ == mid.push(r@[r@.len() - 1]));
    }
    assert(tags_view(r@) =~= spec_tags(opt_view(metadata.chip), opt_view(metadata.probe)));
    r
}

/// The environment a report is filed under: development builds apart from
/// production ones.
pub fn environment(debug_build: bool) -> (r: &'static str)
    ensures
        r@ == spec_environment(debug_build),
{
    proof {
        reveal_strlit("Development");
        reveal_strlit("Production");
    }
    if debug_build {
        "Development"
    } else {
        "Production"
    }
}

/// Prepares a capture: takes every buffered breadcrumb out, in order,
/// leaving the buffer empty, and gathers the configuration and tags.
pub fn plan_capture(metadata: &Metadata, debug_build: bool, buffer: &mut BreadcrumbBuffer) -> (r: CapturePlan)
    ensures
        r.release@ == metadata.release@,
        r.environment@ == spec_environment(debug_build),
        tags_view(r.tags@) == spec_tags(opt_view(metadata.chip), opt_view(metadata.probe)),
        (r.breadcrumbs@, final(buffer)@) == spec_drain(old(buffer)@),
{
    let release = clone_string(&metadata.release);
    let environment = String::from_str(environment(debug_build));
    let tags = session_tags(metadata);
    let breadcrumbs = buffer.drain();
    CapturePlan { release, environment, tags, breadcrumbs }
}

/// The acknowledgment line from the thanks, however painted, and the report identifier.
pub fn receipt_line_with(thanks: &str, id: &str) -> (r: String)
    ensures
        r@ == spec_receipt(thanks@, id@),
{
    proof {
        reveal_strlit("  ");
        reveal_strlit(" ");
    }
    let mut r = String::from_str("  ");
    r.append(thanks);
    r.append(" ");
    r.append(RECEIPT_TEXT);
    r.append(" ");
    r.append(id);
    proof {
        assert(r@ =~= spec_receipt(thanks@, id@));
    }
    r
}

/// The acknowledgment line printed after a report was submitted, with the
/// thanks painted for the terminal.
pub fn receipt_line(id: &str) -> (r: String)
    ensures
        exists|thanks: Seq<char>| spec_painted(THANKS_TEXT@, thanks) && r@ == spec_receipt(thanks, id@),
{
    proof {
        reveal_strlit("Thank You!");
    }
    assert(!THANKS_TEXT@.contains('\x1B'));
    let thanks = paint_bold(THANKS_TEXT, Tint::Cyan);
    receipt_line_with(thanks.as_str(), id)
}

} // verus!
