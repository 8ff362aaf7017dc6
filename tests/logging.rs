use probe_rs_logging::breadcrumb::{Breadcrumb, BreadcrumbBuffer};
use probe_rs_logging::consent::{consent_override, consents_folded, first_line, parse_consent};
use probe_rs_logging::console::{compose_line, console_line, level_label, pad_to};
use probe_rs_logging::crash::{
    environment, plan_capture, receipt_line, receipt_line_with, session_tags, Metadata,
    RECEIPT_TEXT,
};
use probe_rs_logging::dispatch::{breadcrumb_for, Dispatcher};
use probe_rs_logging::progress::{route, ProgressCell, Route};
use probe_rs_logging::severity::{
    console_threshold, passes, remote_level, threshold_of, RemoteLevel, Severity, Threshold,
    REMOTE_THRESHOLD,
};
use probe_rs_logging::style::{painted_console_line, painted_label};
use probe_rs_logging::width::WidthTracker;

fn crumb(message: &str) -> Breadcrumb {
    Breadcrumb {
        level: RemoteLevel::Info,
        category: "core".to_string(),
        message: message.to_string(),
        timestamp_ms: 17,
    }
}

fn messages(v: &[Breadcrumb]) -> Vec<String> {
    v.iter().map(|b| b.message.clone()).collect()
}

#[test]
fn record_then_drain_returns_all_in_order() {
    let mut buf = BreadcrumbBuffer::new();
    buf.record(crumb("a"));
    buf.record(crumb("b"));
    buf.record(crumb("c"));
    let drained = buf.drain();
    assert_eq!(messages(&drained), vec!["a", "b", "c"]);
    assert_eq!(buf.len(), 0);
    assert!(buf.drain().is_empty());
}

#[test]
fn drain_of_empty_buffer_is_empty() {
    let mut buf = BreadcrumbBuffer::new();
    assert!(buf.drain().is_empty());
}

#[test]
fn records_after_drain_wait_for_next_drain() {
    let mut buf = BreadcrumbBuffer::new();
    buf.record(crumb("before1"));
    buf.record(crumb("before2"));
    let first = buf.drain();
    buf.record(crumb("after"));
    let second = buf.drain();
    assert_eq!(messages(&first), vec!["before1", "before2"]);
    assert_eq!(messages(&second), vec!["after"]);
}

#[test]
fn observe_is_monotonic() {
    let mut w = WidthTracker::new();
    assert_eq!(w.observe("core"), 4);
    assert_eq!(w.observe("flash"), 5);
    assert_eq!(w.observe("io"), 5);
    assert_eq!(w.observe("probe_rs::arch"), 14);
    assert_eq!(w.observe(""), 14);
    assert_eq!(w.max, 14);
}

#[test]
fn consent_parsing() {
    assert!(!parse_consent(""));
    assert!(parse_consent("y"));
    assert!(parse_consent("yes"));
    assert!(parse_consent("YES"));
    assert!(!parse_consent("n"));
    assert!(!parse_consent("no"));
    assert!(!parse_consent("maybe"));
    assert!(!parse_consent("true"));
}

#[test]
fn consent_reads_first_line_only() {
    assert!(parse_consent("y\r\n"));
    assert!(parse_consent("Ye\n"));
    assert!(!parse_consent("\nyes"));
    assert!(!parse_consent("yess"));
    assert_eq!(first_line("abc\r\ndef"), "abc");
    assert_eq!(first_line("abc\ndef"), "abc");
    assert_eq!(first_line("abc"), "abc");
    assert_eq!(first_line("\r\n"), "");
}

#[test]
fn consent_of_folded_answers() {
    assert!(consents_folded("ye"));
    assert!(!consents_folded("YES"));
    assert!(!consents_folded(""));
}

#[test]
fn consent_preference() {
    assert_eq!(consent_override(Some("true")), Some(true));
    assert_eq!(consent_override(Some("false")), Some(false));
    assert_eq!(consent_override(Some("TRUE")), Some(false));
    assert_eq!(consent_override(Some("yes")), Some(false));
    assert_eq!(consent_override(None), None);
}

#[test]
fn console_formatting_warn_line() {
    assert_eq!(
        console_line(Severity::Warn, "flash", 10, "retry 1/3"),
        " WARN flash      > retry 1/3"
    );
}

#[test]
fn console_formatting_long_target_is_not_cut() {
    assert_eq!(console_line(Severity::Error, "probe", 3, "x"), "ERROR probe > x");
    assert_eq!(compose_line("A", "b", "c"), "A b > c");
    assert_eq!(pad_to("ab", 4), "ab  ");
    assert_eq!(pad_to("", 0), "");
}

#[test]
fn labels_are_five_wide() {
    assert_eq!(level_label(Severity::Trace), "TRACE");
    assert_eq!(level_label(Severity::Debug), "DEBUG");
    assert_eq!(level_label(Severity::Info), " INFO");
    assert_eq!(level_label(Severity::Warn), " WARN");
    assert_eq!(level_label(Severity::Error), "ERROR");
}

#[test]
fn painted_label_shows_label() {
    let p = painted_label(Severity::Warn);
    assert!(p == " WARN" || (p.contains(" WARN") && p.ends_with("\x1B[0m")));
}

#[test]
fn progress_active_routes_through_widget() {
    let mut cell: ProgressCell<u32> = ProgressCell::new();
    assert_eq!(cell.route(false, true), Route::Direct);
    cell.set(7);
    assert_eq!(cell.active(), Some(&7));
    assert_eq!(cell.route(false, true), Route::Widget);
    assert_eq!(cell.route(false, true), Route::Widget);
    assert_eq!(cell.route(true, true), Route::Direct);
    assert_eq!(cell.route(false, false), Route::Direct);
    cell.set(8);
    assert_eq!(cell.active(), Some(&8));
    cell.clear();
    assert_eq!(cell.active(), None);
    assert_eq!(cell.route(false, true), Route::Direct);
    assert_eq!(route(true, false, true), Route::Widget);
}

#[test]
fn end_to_end_info_and_trace() {
    let mut d = Dispatcher::new(Some(Severity::Info));
    assert_eq!(d.console, Threshold::Info);
    let info = d.dispatch(Severity::Info, "core", "started", 1);
    assert_eq!(info, Some(" INFO core > started".to_string()));
    let trace = d.dispatch(Severity::Trace, "core", "tick", 2);
    assert_eq!(trace, None);
    let crumbs = d.breadcrumbs.drain();
    assert_eq!(crumbs.len(), 1);
    assert_eq!(crumbs[0].level, RemoteLevel::Info);
    assert_eq!(crumbs[0].category, "core");
    assert_eq!(crumbs[0].message, "started");
    assert_eq!(crumbs[0].timestamp_ms, 1);
}

#[test]
fn dispatcher_defaults_to_warnings() {
    let mut d = Dispatcher::new(None);
    assert_eq!(d.console, Threshold::Warn);
    assert_eq!(d.dispatch(Severity::Info, "io", "quiet", 3), None);
    assert_eq!(d.dispatch(Severity::Debug, "io", "quiet", 4), None);
    assert_eq!(d.breadcrumbs.len(), 2);
    assert_eq!(d.dispatch(Severity::Error, "io", "loud", 5), Some("ERROR io > loud".to_string()));
    assert_eq!(d.width.max, 2);
}

#[test]
fn dispatch_with_console_verdict() {
    let mut d = Dispatcher::new(Some(Severity::Error));
    assert_eq!(
        d.dispatch_with(true, Severity::Debug, "flash", "erase", 9),
        Some("DEBUG flash > erase".to_string())
    );
    assert_eq!(d.dispatch_with(false, Severity::Error, "longer_target", "x", 10), None);
    assert_eq!(d.width.max, 5);
    assert_eq!(d.breadcrumbs.len(), 2);
}

#[test]
fn breadcrumb_sink_excludes_trace() {
    assert!(breadcrumb_for(Severity::Trace, "core", "tick", 0).is_none());
    let b = breadcrumb_for(Severity::Debug, "core", "d", 5).unwrap();
    assert_eq!(b.level, RemoteLevel::Debug);
    assert_eq!(b.category, "core");
    assert_eq!(b.message, "d");
    assert_eq!(b.timestamp_ms, 5);
    assert_eq!(REMOTE_THRESHOLD, Threshold::Debug);
}

#[test]
fn severity_mapping() {
    assert_eq!(remote_level(Severity::Trace), RemoteLevel::Debug);
    assert_eq!(remote_level(Severity::Debug), RemoteLevel::Debug);
    assert_eq!(remote_level(Severity::Info), RemoteLevel::Info);
    assert_eq!(remote_level(Severity::Warn), RemoteLevel::Warning);
    assert_eq!(remote_level(Severity::Error), RemoteLevel::Error);
    assert_eq!(console_threshold(None), Threshold::Warn);
    assert_eq!(console_threshold(Some(Severity::Trace)), Threshold::Trace);
    assert_eq!(threshold_of(Severity::Debug), Threshold::Debug);
    assert!(passes(Severity::Error, Threshold::Warn));
    assert!(!passes(Severity::Info, Threshold::Warn));
    assert!(!passes(Severity::Error, Threshold::Off));
    assert!(passes(Severity::Trace, Threshold::Trace));
}

#[test]
fn crash_flow_drains_and_acknowledges() {
    let mut buf = BreadcrumbBuffer::new();
    buf.record(crumb("one"));
    buf.record(crumb("two"));
    buf.record(crumb("three"));
    let metadata = Metadata {
        chip: Some("nrf52840".to_string()),
        probe: None,
        release: "0.12.0".to_string(),
    };
    let plan = plan_capture(&metadata, true, &mut buf);
    assert_eq!(buf.len(), 0);
    assert!(buf.drain().is_empty());
    assert_eq!(messages(&plan.breadcrumbs), vec!["one", "two", "three"]);
    assert_eq!(plan.release, "0.12.0");
    assert_eq!(plan.environment, "Development");
    assert_eq!(plan.tags, vec![("chip".to_string(), "nrf52840".to_string())]);
    let id = "67e55044-10b1-426f-9247-bb680e5fe0c8";
    let line = receipt_line(id);
    assert_eq!(line.lines().count(), 1);
    assert!(line.starts_with("  "));
    assert!(line.ends_with(&format!("{} {}", RECEIPT_TEXT, id)));
    let parts: Vec<&str> = id.split('-').collect();
    assert_eq!(parts.iter().map(|p| p.len()).collect::<Vec<_>>(), vec![8, 4, 4, 4, 12]);
}

#[test]
fn receipt_line_layout() {
    assert_eq!(receipt_line_with("T", "id"), format!("  T {} id", RECEIPT_TEXT));
}

#[test]
fn session_tags_and_environment() {
    let m = Metadata { chip: Some("c".to_string()), probe: Some("p".to_string()), release: String::new() };
    assert_eq!(
        session_tags(&m),
        vec![("chip".to_string(), "c".to_string()), ("probe".to_string(), "p".to_string())]
    );
    let none = Metadata { chip: None, probe: None, release: String::new() };
    assert!(session_tags(&none).is_empty());
    assert_eq!(environment(false), "Production");
}

#[test]
fn painted_label_is_styled_when_colors_are_forced() {
    colored::control::set_override(true);
    let p = painted_label(Severity::Error);
    assert_ne!(p, "ERROR");
    assert!(p.starts_with("\x1B["));
    assert!(p.ends_with("ERROR\x1B[0m"));
    let line = receipt_line("id");
    assert!(line.starts_with("  \x1B["));
    assert!(line.ends_with(&format!("Thank You!\x1B[0m {} id", RECEIPT_TEXT)));
}

#[test]
fn painted_console_line_layout() {
    colored::control::set_override(false);
    assert_eq!(
        painted_console_line(Severity::Warn, "flash", 10, "retry 1/3"),
        " WARN flash      > retry 1/3"
    );
}
