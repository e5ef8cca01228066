//! The single-threaded owner of the display state: it applies the events
//! drained from the workers, decides when to redraw, and plans the shutdown
//! of its workers.
use crate::cancel::CancellationSignal;
use crate::event::{events_view, Event, EventView};
use crate::payload::{get_new_qrcode, qrcode_path};
use vstd::prelude::*;

verus! {

/// Names one of the controller's two workers.
#[derive(Clone, Copy, PartialEq, Eq, Structural, Debug)]
pub enum WorkerId {
    Refresher,
    ScanPoller,
}

/// The controller's state as a value.
pub ghost struct ControllerView {
    /// The payload that is, or is about to be, displayed.
    pub payload: Seq<char>,
    /// Whether the displayed payload is stale.
    pub needs_redraw: bool,
    /// Whether the controller has set the cancellation signal.
    pub cancel_requested: bool,
    /// Whether the controller has asked the host to close the session.
    pub close_requested: bool,
    /// Whether the refresher's handle is still held (not yet taken for joining).
    pub refresher_held: bool,
    /// Whether the scan poller's handle is still held.
    pub poller_held: bool,
}

/// The state right after initialisation: the first payload, marked for
/// drawing, and no worker handle held yet.
pub open spec fn initial() -> ControllerView {
    ControllerView {
        payload: qrcode_path(0),
        needs_redraw: true,
        cancel_requested: false,
        close_requested: false,
        refresher_held: false,
        poller_held: false,
    }
}

/// Applies one event: a refresh replaces the payload and marks it stale; a
/// completed scan cancels the workers and asks the host to close.
pub open spec fn apply(c: ControllerView, e: EventView) -> ControllerView {
    match e {
        EventView::Refresh(p) => ControllerView { payload: p, needs_redraw: true, ..c },
        EventView::ScanDone => ControllerView { cancel_requested: true, close_requested: true, ..c },
    }
}

/// Applies events in order, each once.
pub open spec fn apply_all(c: ControllerView, es: Seq<EventView>) -> ControllerView
    decreases es.len(),
{
    if es.len() == 0 {
        c
    } else {
        apply(apply_all(c, es.drop_last()), es.last())
    }
}

/// Whether some event of `es` is a refresh.
pub open spec fn has_refresh(es: Seq<EventView>) -> bool {
    exists|k: int| 0 <= k < es.len() && (#[trigger] es[k]) is Refresh
}

/// What the host is asked to do after a tick.
#[derive(Clone, Copy, PartialEq, Eq, Structural, Debug)]
pub struct TickRequests {
    /// Mark the window as needing a redraw.
    pub redraw: bool,
    /// Close the window; raised only on the tick that first sees a completed scan.
    pub close: bool,
}

/// A render opportunity: a stale payload is handed out for drawing and
/// marked fresh; otherwise nothing is drawn.
pub open spec fn render(c: ControllerView) -> (ControllerView, Option<Seq<char>>) {
    if c.needs_redraw {
        (ControllerView { needs_redraw: false, ..c }, Some(c.payload))
    } else {
        (c, None)
    }
}

/// The handles to take and join, in order, at shutdown.
pub open spec fn held_workers(c: ControllerView) -> Seq<WorkerId> {
    (if c.refresher_held { seq![WorkerId::Refresher] } else { Seq::empty() })
        + (if c.poller_held { seq![WorkerId::ScanPoller] } else { Seq::empty() })
}

/// Shutdown: set the cancellation signal and take every held handle.
pub open spec fn teardown(c: ControllerView) -> (ControllerView, Seq<WorkerId>) {
    (
        ControllerView { cancel_requested: true, refresher_held: false, poller_held: false, ..c },
        held_workers(c),
    )
}

/// The display state and lifecycle bookkeeping of the login screen.
pub struct Controller {
    signal: CancellationSignal,
    payload: String,
    needs_redraw: bool,
    cancel_requested: bool,
    close_requested: bool,
    refresher_held: bool,
    poller_held: bool,
}

impl View for Controller {
    type V = ControllerView;

    closed spec fn view(&self) -> ControllerView {
        ControllerView {
            payload: self.payload@,
            needs_redraw: self.needs_redraw,
            cancel_requested: self.cancel_requested,
            close_requested: self.close_requested,
            refresher_held: self.refresher_held,
            poller_held: self.poller_held,
        }
    }
}

impl Controller {
    /// A controller with a fresh cancellation signal and the first payload.
    pub fn new() -> (r: Controller)
        ensures
            r@ == initial(),
    {
        Controller {
            signal: CancellationSignal::new(),
            payload: get_new_qrcode(0),
            needs_redraw: true,
            cancel_requested: false,
            close_requested: false,
            refresher_held: false,
            poller_held: false,
        }
    }

    /// A handle on the cancellation signal, to hand to a worker.
    pub fn signal(&self) -> (r: CancellationSignal) {
        self.signal.clone()
    }

    /// Records that the handle of worker `w` is now held.
    pub fn attach(&mut self, w: WorkerId)
        ensures
            final(self)@ == (match w {
                WorkerId::Refresher => ControllerView { refresher_held: true, ..old(self)@ },
                WorkerId::ScanPoller => ControllerView { poller_held: true, ..old(self)@ },
            }),
    {
        match w {
            WorkerId::Refresher => self.refresher_held = true,
            WorkerId::ScanPoller => self.poller_held = true,
        }
    }

    /// The payload to display.
    pub fn payload(&self) -> (r: &String)
        ensures
            r@ == self@.payload,
    {
        &self.payload
    }

    /// Whether the displayed payload is stale.
    pub fn needs_redraw(&self) -> (r: bool)
        ensures
            r == self@.needs_redraw,
    {
        self.needs_redraw
    }

    /// Whether the workers have been told to stop.
    pub fn cancel_requested(&self) -> (r: bool)
        ensures
            r == self@.cancel_requested,
    {
        self.cancel_requested
    }

    /// Whether the host has been asked to close the session.
    pub fn close_requested(&self) -> (r: bool)
        ensures
            r == self@.close_requested,
    {
        self.close_requested
    }

    /// Applies one event; a completed scan also sets the cancellation signal.
    pub fn apply_event(&mut self, e: &Event)
        ensures
            final(self)@ == apply(old(self)@, e@),
    {
        match e {
            Event::RefreshRequested(p) => {
                self.payload = p.clone();
                self.needs_redraw = true;
            },
            Event::ScanCompleted => {
                self.signal.cancel();
                self.cancel_requested = true;
                self.close_requested = true;
            },
        }
    }

    /// Applies the events drained in one tick, each once and in the order
    /// received, and says what the host must do.
    pub fn on_tick(&mut self, events: &Vec<Event>) -> (r: TickRequests)
        ensures
            final(self)@ == apply_all(old(self)@, events_view(events@)),
            r.redraw == has_refresh(events_view(events@)),
            r.close == (!old(self)@.close_requested && final(self)@.close_requested),
    {
        let ghost start = self@;
        let was_closing = self.close_requested;
        let mut redraw = false;
        let mut i: usize = 0;
        while i < events.len()
            invariant
                i <= events.len(),
                self@ == apply_all(start, events_view(events@.subrange(0, i as int))),
                redraw == has_refresh(events_view(events@.subrange(0, i as int))),
                was_closing == start.close_requested,
            decreases events.len() - i,
        {
            let ghost prefix = events_view(events@.subrange(0, i as int));
            let ghost next = events_view(events@.subrange(0, i + 1));
            assert(next.drop_last() =~= prefix);
            assert(next.last() == events@[i as int]@);
            let e = &events[i];
            if e.is_refresh() {
                redraw = true;
                assert(next[i as int] is Refresh);
            } else {
                assert forall|k: int| 0 <= k < next.len() && (#[trigger] next[k]) is Refresh implies prefix[k] is Refresh
                    by {
                    assert(k < i);
                }
            }
            assert(redraw ==> has_refresh(next)) by {
                if has_refresh(prefix) {
                    let k = choose|k: int| 0 <= k < prefix.len() && (#[trigger] prefix[k]) is Refresh;
                    assert(next[k] is Refresh);
                }
            }
            self.apply_event(e);
            i = i + 1;
        }
        assert(events@.subrange(0, events@.len() as int) =~= events@);
        TickRequests { redraw, close: !was_closing && self.close_requested }
    }

    /// A render opportunity: returns the payload to draw if it is stale,
    /// and marks it fresh.
    pub fn on_render_opportunity(&mut self) -> (r: Option<String>)
        ensures
            final(self)@ == render(old(self)@).0,
            render(old(self)@).1 == (match r {
                Some(p) => Some(p@),
                None => None::<Seq<char>>,
            }),
    {
        if self.needs_redraw {
            self.needs_redraw = false;
            Some(self.payload.clone())
        } else {
            None
        }
    }

    /// Starts shutdown: sets the cancellation signal and takes the held
    /// handles, returning the workers to join in that order. Calling it again
    /// takes nothing.
    pub fn begin_teardown(&mut self) -> (r: Vec<WorkerId>)
        ensures
            (final(self)@, r@) == teardown(old(self)@),
    {
        self.signal.cancel();
        self.cancel_requested = true;
        let mut r: Vec<WorkerId> = Vec::new();
        if self.refresher_held {
            r.push(WorkerId::Refresher);
            self.refresher_held = false;
        }
        if self.poller_held {
            r.push(WorkerId::ScanPoller);
            self.poller_held = false;
        }
        r
    }
}

/// How joining one worker went.
#[derive(Clone, Copy, PartialEq, Eq, Structural, Debug)]
pub struct JoinOutcome {
    pub worker: WorkerId,
    /// Whether the worker's thread ended by panicking.
    pub panicked: bool,
}

/// A failure found while shutting down.
#[derive(Clone, PartialEq, Eq, Debug)]
pub enum TeardownError {
    /// These workers died of a panic, in the order they were joined.
    WorkerPanicked(Vec<WorkerId>),
}

/// The workers that panicked, in the order they were joined.
pub open spec fn panicked_workers(s: Seq<JoinOutcome>) -> Seq<WorkerId>
    decreases s.len(),
{
    if s.len() == 0 {
        Seq::empty()
    } else {
        panicked_workers(s.drop_last()) + (if s.last().panicked {
            seq![s.last().worker]
        } else {
            Seq::empty()
        })
    }
}

/// The result of a shutdown whose joins went as `outcomes` say: success
/// when no worker panicked, else the panicked workers.
pub fn teardown_report(outcomes: &Vec<JoinOutcome>) -> (r: Result<(), TeardownError>)
    ensures
        r is Ok <==> panicked_workers(outcomes@).len() == 0,
        r matches Err(TeardownError::WorkerPanicked(ws)) ==> ws@ == panicked_workers(outcomes@),
{
    let mut failed: Vec<WorkerId> = Vec::new();
    let mut i: usize = 0;
    while i < outcomes.len()
        invariant
            i <= outcomes.len(),
            failed@ == panicked_workers(outcomes@.subrange(0, i as int)),
        decreases outcomes.len() - i,
    {
        assert(outcomes@.subrange(0, i + 1).drop_last() =~= outcomes@.subrange(0, i as int));
        let o = outcomes[i];
        if o.panicked {
            failed.push(o.worker);
        }
        proof {
            let s = outcomes@.subrange(0, i + 1);
            assert(s.last() == o);
            if !o.panicked {
                assert(failed@ + Seq::<WorkerId>::empty() =~= failed@);
            }
        }
        i = i + 1;
    }
    assert(outcomes@.subrange(0, outcomes@.len() as int) =~= outcomes@);
    if failed.len() == 0 {
        Ok(())
    } else {
        Err(TeardownError::WorkerPanicked(failed))
    }
}

/// The redraw flag is set exactly by refreshes: after a run of events it is
/// set if and only if it was set before or one of the events was a refresh.
/// In particular it is set right after any refresh is applied.
pub proof fn lemma_redraw_tracks_refreshes(c: ControllerView, es: Seq<EventView>)
    ensures
        apply_all(c, es).needs_redraw == (c.needs_redraw || has_refresh(es)),
        forall|p: Seq<char>| #[trigger] apply(c, EventView::Refresh(p)).needs_redraw,
    decreases es.len(),
{
    if es.len() > 0 {
        let init = es.drop_last();
        lemma_redraw_tracks_refreshes(c, init);
        if has_refresh(init) {
            let k = choose|k: int| 0 <= k < init.len() && (#[trigger] init[k]) is Refresh;
            assert(es[k] is Refresh);
        }
        if es.last() is Refresh {
            assert(es[es.len() - 1] is Refresh);
        }
        if has_refresh(es) && !(es.last() is Refresh) {
            let k = choose|k: int| 0 <= k < es.len() && (#[trigger] es[k]) is Refresh;
            assert(init[k] is Refresh);
        }
    }
}

/// A render opportunity draws a stale payload exactly once: it draws
/// precisely when the flag is set, leaves the flag clear, and a second
/// opportunity with no event in between draws nothing and changes nothing.
pub proof fn lemma_render_once(c: ControllerView)
    ensures
        render(c).1 is Some <==> c.needs_redraw,
        !render(c).0.needs_redraw,
        render(render(c).0) == (render(c).0, None::<Seq<char>>),
        render(c).0.payload == c.payload,
{
}

/// Applying events in two ticks is applying them in one: each event takes
/// effect once, in the order received, however the draining splits them.
pub proof fn lemma_ticks_compose(c: ControllerView, es1: Seq<EventView>, es2: Seq<EventView>)
    ensures
        apply_all(c, es1 + es2) == apply_all(apply_all(c, es1), es2),
    decreases es2.len(),
{
    if es2.len() == 0 {
        assert(es1 + es2 =~= es1);
    } else {
        lemma_ticks_compose(c, es1, es2.drop_last());
        assert((es1 + es2).drop_last() =~= es1 + es2.drop_last());
        assert((es1 + es2).last() == es2.last());
    }
}

/// Cancellation and the close request are never withdrawn: once set, they
/// stay set whatever events follow.
pub proof fn lemma_requests_stay_set(c: ControllerView, es: Seq<EventView>)
    ensures
        c.cancel_requested ==> apply_all(c, es).cancel_requested,
        c.close_requested ==> apply_all(c, es).close_requested,
        c.cancel_requested ==> teardown(c).0.cancel_requested,
    decreases es.len(),
{
    if es.len() > 0 {
        lemma_requests_stay_set(c, es.drop_last());
    }
}

/// Shutdown takes each held handle once: afterwards the signal is set and no
/// handle is held, and shutting down again takes nothing and changes nothing.
pub proof fn lemma_teardown_idempotent(c: ControllerView)
    ensures
        teardown(c).0.cancel_requested,
        !teardown(c).0.refresher_held && !teardown(c).0.poller_held,
        teardown(c).1.contains(WorkerId::Refresher) <==> c.refresher_held,
        teardown(c).1.contains(WorkerId::ScanPoller) <==> c.poller_held,
        teardown(c).1.no_duplicates(),
        teardown(teardown(c).0) == (teardown(c).0, Seq::<WorkerId>::empty()),
{
    let ws = teardown(c).1;
    if c.refresher_held && c.poller_held {
        assert(ws[0] == WorkerId::Refresher);
        assert(ws[1] == WorkerId::ScanPoller);
    } else if c.refresher_held {
        assert(ws[0] == WorkerId::Refresher);
    } else if c.poller_held {
        assert(ws[0] == WorkerId::ScanPoller);
    }
    assert(Seq::<WorkerId>::empty() + Seq::<WorkerId>::empty() =~= Seq::<WorkerId>::empty());
}

} // verus!
