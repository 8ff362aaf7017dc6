use vstd::prelude::*;

verus! {

/// Where a console write goes.
#[derive(Clone, Copy, Debug, PartialEq, Eq, Structural)]
pub enum Route {
    /// Printed above the active progress widget.
    Widget,
    /// Written straight to the caller's stream.
    Direct,
}

/// A write goes through the widget only when one is active, it is not
/// finished, and the cell could be taken without waiting.
pub open spec fn spec_route(has_widget: bool, finished: bool, lock_acquired: bool) -> Route {
    if has_widget && !finished && lock_acquired {
        Route::Widget
    } else {
        Route::Direct
    }
}

/// Decides where a console write goes.
pub fn route(has_widget: bool, finished: bool, lock_acquired: bool) -> (r: Route)
    ensures
        r == spec_route(has_widget, finished, lock_acquired),
{
    if lock_acquired && has_widget && !finished {
        Route::Widget
    } else {
        Route::Direct
    }
}

/// The slot for the one progress widget that console writes must respect.
pub struct ProgressCell<W> {
    active: Option<W>,
}

impl<W> View for ProgressCell<W> {
    type V = Option<W>;

    closed spec fn view(&self) -> Option<W> {
        self.active
    }
}

impl<W> ProgressCell<W> {
    pub fn new() -> (r: ProgressCell<W>)
        ensures
            r@ is None,
    {
        ProgressCell { active: None }
    }

    /// Makes `widget` the active one, replacing any previous widget.
    pub fn set(&mut self, widget: W)
        ensures
            final(self)@ == Some(widget),
    {
        self.active = Some(widget);
    }

    /// Removes the active widget.
    pub fn clear(&mut self)
        ensures
            final(self)@ is None,
    {
        self.active = None;
    }

    /// The active widget, if any.
    pub fn active(&self) -> (r: Option<&W>)
        ensures
            r == match self@ {
                Some(w) => Some(&w),
                None => None::<&W>,
            },
    {
        match &self.active {
            Some(w) => Some(w),
            None => None,
        }
    }

    /// Where a write goes, given whether the active widget reports itself
    /// finished and whether the cell was taken without waiting.
    pub fn route(&self, finished: bool, lock_acquired: bool) -> (r: Route)
        ensures
            r == spec_route(self@ is Some, finished, lock_acquired),
    {
        route(self.active.is_some(), finished, lock_acquired)
    }
}

/// One step in the life of a progress cell.
pub enum CellEvent<W> {
    /// `set` with this widget.
    Install(W),
    /// `clear`.
    Clear,
    /// A console write.
    Write { finished: bool, lock_acquired: bool },
}

/// The cell's content after an event; a write leaves it as it was.
pub open spec fn spec_apply<W>(cell: Option<W>, e: CellEvent<W>) -> Option<W> {
    match e {
        CellEvent::Install(w) => Some(w),
        CellEvent::Clear => None,
        CellEvent::Write { .. } => cell,
    }
}

/// Where each write among `events` goes, in order, starting from `cell`.
pub open spec fn spec_write_routes<W>(cell: Option<W>, events: Seq<CellEvent<W>>) -> Seq<Route>
    decreases events.len(),
{
    if events.len() == 0 {
        Seq::empty()
    } else {
        let rest = spec_write_routes(spec_apply(cell, events[0]), events.drop_first());
        match events[0] {
            CellEvent::Write { finished, lock_acquired } => seq![
                spec_route(cell is Some, finished, lock_acquired),
            ] + rest,
            _ => rest,
        }
    }
}

/// No clear among the events, and every write finds the widget unfinished
/// and the cell free.
pub open spec fn keeps_widget_live<W>(events: Seq<CellEvent<W>>) -> bool {
    forall|i: int|
        0 <= i < events.len() ==> match #[trigger] events[i] {
            CellEvent::Clear => false,
            CellEvent::Write { finished, lock_acquired } => !finished && lock_acquired,
            CellEvent::Install(_) => true,
        }
}

/// Once a widget is set, every later write goes through a widget for as
/// long as no clear comes, the widget is not finished and the cell is free.
pub proof fn lemma_active_widget_routes<W>(w: W, events: Seq<CellEvent<W>>)
    requires
        keeps_widget_live(events),
    ensures
        forall|i: int|
            0 <= i < spec_write_routes(Some(w), events).len() ==> #[trigger] spec_write_routes(
                Some(w),
                events,
            )[i] == Route::Widget,
    decreases events.len(),
{
    if events.len() > 0 {
        let next = spec_apply(Some(w), events[0]);
        let rest = events.drop_first();
        assert(keeps_widget_live(rest)) by {
            assert forall|i: int| 0 <= i < rest.len() implies match #[trigger] rest[i] {
                CellEvent::Clear => false,
                CellEvent::Write { finished, lock_acquired } => !finished && lock_acquired,
                CellEvent::Install(_) => true,
            } by {
                assert(rest[i] == events[i + 1]);
            }
        }
        match next {
            Some(v) => lemma_active_widget_routes(v, rest),
            None => {},
        }
    }
}

/// After a clear, writes go straight to their stream until a widget is set again.
pub proof fn lemma_cleared_routes_direct<W>(events: Seq<CellEvent<W>>)
    requires
        forall|i: int| 0 <= i < events.len() ==> !(#[trigger] events[i] is Install),
    ensures
        forall|i: int|
            0 <= i < spec_write_routes(None::<W>, events).len() ==> #[trigger] spec_write_routes(
                None::<W>,
                events,
            )[i] == Route::Direct,
    decreases events.len(),
{
    if events.len() > 0 {
        let rest = events.drop_first();
        assert forall|i: int| 0 <= i < rest.len() implies !(#[trigger] rest[i] is Install) by {
            assert(rest[i] == events[i + 1]);
        }
        assert(!(events[0] is Install));
        lemma_cleared_routes_direct::<W>(rest);
    }
}

} // verus!
