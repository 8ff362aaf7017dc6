use crate::breadcrumb::{spec_record, Breadcrumb, BreadcrumbBuffer};
use crate::console::{console_line, spec_console_line};
use crate::severity::{
    console_threshold, passes, remote_level, spec_passes, spec_remote_level, spec_threshold_of,
    Severity, Threshold, REMOTE_THRESHOLD,
};
use crate::width::{spec_observed, WidthTracker};
use vstd::prelude::*;
use vstd::string::StringExecFns;

verus! {

/// `b` is the breadcrumb of a record with these fields.
pub open spec fn spec_breadcrumb_of(
    b: Breadcrumb,
    severity: Severity,
    target: Seq<char>,
    message: Seq<char>,
    timestamp_ms: i64,
) -> bool {
    &&& b.level == spec_remote_level(severity)
    &&& b.category@ == target
    &&& b.message@ == message
    &&& b.timestamp_ms == timestamp_ms
}

/// The breadcrumb of a record, when the breadcrumb sink accepts it: every
/// record but trace records.
pub fn breadcrumb_for(severity: Severity, target: &str, message: &str, timestamp_ms: i64) -> (r: Option<Breadcrumb>)
    ensures
        r is Some <==> spec_passes(severity, REMOTE_THRESHOLD),
        r matches Some(b) ==> spec_breadcrumb_of(b, severity, target@, message@, timestamp_ms),
{
    if passes(severity, REMOTE_THRESHOLD) {
        Some(Breadcrumb {
            level: remote_level(severity),
            category: String::from_str(target),
            message: String::from_str(message),
            timestamp_ms,
        })
    } else {
        None
    }
}

/// Fans each log record out to the console sink and the breadcrumb sink.
pub struct Dispatcher {
    /// The console sink's threshold.
    pub console: Threshold,
    pub width: WidthTracker,
    pub breadcrumbs: BreadcrumbBuffer,
}

impl Dispatcher {
    /// A dispatcher whose console shows the configured severity and worse,
    /// or warnings and worse when none is configured.
    pub fn new(configured: Option<Severity>) -> (r: Dispatcher)
        ensures
            r.console == match configured {
                Some(s) => spec_threshold_of(s),
                None => Threshold::Warn,
            },
            r.width.max == 0,
            r.breadcrumbs@ == Seq::<Breadcrumb>::empty(),
    {
        Dispatcher {
            console: console_threshold(configured),
            width: WidthTracker::new(),
            breadcrumbs: BreadcrumbBuffer::new(),
        }
    }

    /// Hands a record to both sinks. `console_accepts` is the console sink's
    /// verdict; when it accepts, the width tracker sees the target and the
    /// returned line is the record as the console shows it. Independently,
    /// the breadcrumb sink records every record but trace records.
    pub fn dispatch_with(
        &mut self,
        console_accepts: bool,
        severity: Severity,
        target: &str,
        message: &str,
        timestamp_ms: i64,
    ) -> (r: Option<String>)
        ensures
            final(self).console == old(self).console,
            console_accepts ==> final(self).width.max as int == spec_observed(
                old(self).width.max as int,
                target@.len() as int,
            ),
            !console_accepts ==> final(self).width == old(self).width,
            r is Some <==> console_accepts,
            r matches Some(line) ==> line@ == spec_console_line(
                severity,
                target@,
                final(self).width.max as int,
                message@,
            ),
            spec_passes(severity, REMOTE_THRESHOLD) ==> final(self).breadcrumbs@.len() == old(
                self,
            ).breadcrumbs@.len() + 1 && final(self).breadcrumbs@.drop_last() == old(self).breadcrumbs@
                && spec_breadcrumb_of(
                final(self).breadcrumbs@.last(),
                severity,
                target@,
                message@,
                timestamp_ms,
            ),
            !spec_passes(severity, REMOTE_THRESHOLD) ==> final(self).breadcrumbs@ == old(
                self,
            ).breadcrumbs@,
    {
        let line = if console_accepts {
            let width = self.width.observe(target);
            Some(console_line(severity, target, width, message))
        } else {
            None
        };
        match breadcrumb_for(severity, target, message, timestamp_ms) {
            Some(b) => {
                self.breadcrumbs.record(b);
                assert(self.breadcrumbs@.drop_last() =~= old(self).breadcrumbs@);
            },
            None => {},
        }
        line
    }

    /// Hands a record to both sinks, the console deciding by its threshold.
    pub fn dispatch(&mut self, severity: Severity, target: &str, message: &str, timestamp_ms: i64) -> (r: Option<String>)
        ensures
            final(self).console == old(self).console,
            r is Some <==> spec_passes(severity, old(self).console),
            spec_passes(severity, old(self).console) ==> final(self).width.max as int == spec_observed(
                old(self).width.max as int,
                target@.len() as int,
            ),
            !spec_passes(severity, old(self).console) ==> final(self).width == old(self).width,
            r matches Some(line) ==> line@ == spec_console_line(
                severity,
                target@,
                final(self).width.max as int,
                message@,
            ),
            spec_passes(severity, REMOTE_THRESHOLD) ==> final(self).breadcrumbs@.len() == old(
                self,
            ).breadcrumbs@.len() + 1 && final(self).breadcrumbs@.drop_last() == old(self).breadcrumbs@
                && spec_breadcrumb_of(
                final(self).breadcrumbs@.last(),
                severity,
                target@,
                message@,
                timestamp_ms,
            ),
            !spec_passes(severity, REMOTE_THRESHOLD) ==> final(self).breadcrumbs@ == old(
                self,
            ).breadcrumbs@,
    {
        let accepts = passes(severity, self.console);
        self.dispatch_with(accepts, severity, target, message, timestamp_ms)
    }
}

} // verus!
