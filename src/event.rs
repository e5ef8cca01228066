//! Events that workers send to the controller.
use vstd::prelude::*;

verus! {

/// A notification from a worker to the controller.
pub enum Event {
    /// A new payload (image path) should be displayed.
    RefreshRequested(String),
    /// The user's scan was verified; the session should end.
    ScanCompleted,
}

/// The mathematical value of an [`Event`].
pub ghost enum EventView {
    Refresh(Seq<char>),
    ScanDone,
}

impl View for Event {
    type V = EventView;

    open spec fn view(&self) -> EventView {
        match self {
            Event::RefreshRequested(p) => EventView::Refresh(p@),
            Event::ScanCompleted => EventView::ScanDone,
        }
    }
}

/// The views of a sequence of events, in order.
pub open spec fn events_view(es: Seq<Event>) -> Seq<EventView> {
    es.map_values(|e: Event| e@)
}

/// The view of an event that may be absent.
pub open spec fn opt_view(e: Option<Event>) -> Option<EventView> {
    match e {
        Some(v) => Some(v@),
        None => None,
    }
}

impl Event {
    /// Whether this event asks for a new payload to be displayed.
    pub fn is_refresh(&self) -> (r: bool)
        ensures
            r == (self@ is Refresh),
    {
        match self {
            Event::RefreshRequested(_) => true,
            Event::ScanCompleted => false,
        }
    }
}

} // verus!
