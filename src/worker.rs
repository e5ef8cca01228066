//! The two background workers as state machines. Each wake-up (after the
//! worker's sleep interval) is one step: the caller reports whether the
//! cancellation signal was observed, and the step says what, if anything, to
//! send to the controller. The thread, the sleep and the channel stay with
//! the caller.
use crate::event::{opt_view, Event, EventView};
use crate::payload::{get_new_qrcode, get_user_scan_code_result, qrcode_path, scan_succeeds};
use vstd::prelude::*;

verus! {

/// Lifecycle of a worker.
#[derive(Clone, Copy, PartialEq, Eq, Structural, Debug)]
pub enum WorkerPhase {
    /// Not started yet.
    Idle,
    /// Looping: sleeping, checking cancellation, working.
    Running,
    /// Exited because cancellation was observed; sends nothing more.
    Stopped,
    /// Exited on its own success condition; sends nothing more.
    Finished,
}

/// The state of a worker as a value: its counter and its phase.
pub ghost struct WorkerView {
    pub counter: int,
    pub phase: WorkerPhase,
}

/// The events of a step that sends at most one.
pub open spec fn sent(e: Option<EventView>) -> Seq<EventView> {
    match e {
        Some(v) => seq![v],
        None => Seq::empty(),
    }
}

/// One wake-up of the refresher that observed `cancelled`: stop on
/// cancellation, else advance the counter and request its payload.
pub open spec fn refresher_step(s: WorkerView, cancelled: bool) -> (WorkerView, Option<EventView>) {
    if s.phase != WorkerPhase::Running {
        (s, None)
    } else if cancelled {
        (WorkerView { phase: WorkerPhase::Stopped, ..s }, None)
    } else {
        (
            WorkerView { counter: s.counter + 1, ..s },
            Some(EventView::Refresh(qrcode_path(s.counter + 1))),
        )
    }
}

/// One wake-up of the scan poller that observed `cancelled`: stop on
/// cancellation, else advance the counter and, once the scan succeeds,
/// report it and finish.
pub open spec fn poller_step(s: WorkerView, cancelled: bool) -> (WorkerView, Option<EventView>) {
    if s.phase != WorkerPhase::Running {
        (s, None)
    } else if cancelled {
        (WorkerView { phase: WorkerPhase::Stopped, ..s }, None)
    } else if scan_succeeds(s.counter + 1) {
        (WorkerView { counter: s.counter + 1, phase: WorkerPhase::Finished }, Some(EventView::ScanDone))
    } else {
        (WorkerView { counter: s.counter + 1, ..s }, None)
    }
}

/// The state reached and the events sent by the refresher over wake-ups
/// that observed `cancels`, in order.
pub open spec fn refresher_run(s: WorkerView, cancels: Seq<bool>) -> (WorkerView, Seq<EventView>)
    decreases cancels.len(),
{
    if cancels.len() == 0 {
        (s, Seq::empty())
    } else {
        let (s1, es) = refresher_run(s, cancels.drop_last());
        let (s2, e) = refresher_step(s1, cancels.last());
        (s2, es + sent(e))
    }
}

/// The state reached and the events sent by the scan poller over wake-ups
/// that observed `cancels`, in order.
pub open spec fn poller_run(s: WorkerView, cancels: Seq<bool>) -> (WorkerView, Seq<EventView>)
    decreases cancels.len(),
{
    if cancels.len() == 0 {
        (s, Seq::empty())
    } else {
        let (s1, es) = poller_run(s, cancels.drop_last());
        let (s2, e) = poller_step(s1, cancels.last());
        (s2, es + sent(e))
    }
}

/// The background worker that rotates the displayed payload.
pub struct Refresher {
    counter: i32,
    phase: WorkerPhase,
}

impl View for Refresher {
    type V = WorkerView;

    closed spec fn view(&self) -> WorkerView {
        WorkerView { counter: self.counter as int, phase: self.phase }
    }
}

impl Refresher {
    /// A refresher that has not started; its counter is 0, the counter of
    /// the payload displayed at first.
    pub fn new() -> (r: Refresher)
        ensures
            r@ == (WorkerView { counter: 0, phase: WorkerPhase::Idle }),
    {
        Refresher { counter: 0, phase: WorkerPhase::Idle }
    }

    /// Moves an idle refresher to running; other phases are kept.
    pub fn start(&mut self)
        ensures
            final(self)@ == (if old(self)@.phase == WorkerPhase::Idle {
                WorkerView { phase: WorkerPhase::Running, ..old(self)@ }
            } else {
                old(self)@
            }),
    {
        if let WorkerPhase::Idle = self.phase {
            self.phase = WorkerPhase::Running;
        }
    }

    /// The counter of the last payload requested.
    pub fn counter(&self) -> (r: i32)
        ensures
            r as int == self@.counter,
    {
        self.counter
    }

    /// The current phase.
    pub fn phase(&self) -> (r: WorkerPhase)
        ensures
            r == self@.phase,
    {
        self.phase
    }

    /// Whether the refresher still loops.
    pub fn is_running(&self) -> (r: bool)
        ensures
            r == (self@.phase == WorkerPhase::Running),
    {
        self.phase == WorkerPhase::Running
    }

    /// One wake-up, having observed `cancelled`; returns the event to send.
    /// The counter is an `i32`, so a running refresher must not be at its
    /// largest value.
    pub fn on_wake(&mut self, cancelled: bool) -> (r: Option<Event>)
        requires
            old(self)@.phase == WorkerPhase::Running ==> old(self)@.counter < i32::MAX,
        ensures
            (final(self)@, opt_view(r)) == refresher_step(old(self)@, cancelled),
    {
        if self.phase != WorkerPhase::Running {
            None
        } else if cancelled {
            self.phase = WorkerPhase::Stopped;
            None
        } else {
            self.counter = self.counter + 1;
            Some(Event::RefreshRequested(get_new_qrcode(self.counter)))
        }
    }
}

/// The background worker that polls for a completed scan.
pub struct ScanPoller {
    counter: i32,
    phase: WorkerPhase,
}

/// The states a scan poller can be in: while it runs, the scan has not yet
/// succeeded at its counter.
pub open spec fn poller_wf(s: WorkerView) -> bool {
    s.phase != WorkerPhase::Finished ==> 0 <= s.counter <= 3
}

impl View for ScanPoller {
    type V = WorkerView;

    closed spec fn view(&self) -> WorkerView {
        WorkerView { counter: self.counter as int, phase: self.phase }
    }
}

impl ScanPoller {
    /// A poller that has not started; its counter is 0.
    pub fn new() -> (r: ScanPoller)
        ensures
            r@ == (WorkerView { counter: 0, phase: WorkerPhase::Idle }),
            poller_wf(r@),
    {
        ScanPoller { counter: 0, phase: WorkerPhase::Idle }
    }

    /// Moves an idle poller to running; other phases are kept.
    pub fn start(&mut self)
        requires
            poller_wf(old(self)@),
        ensures
            poller_wf(final(self)@),
            final(self)@ == (if old(self)@.phase == WorkerPhase::Idle {
                WorkerView { phase: WorkerPhase::Running, ..old(self)@ }
            } else {
                old(self)@
            }),
    {
        if let WorkerPhase::Idle = self.phase {
            self.phase = WorkerPhase::Running;
        }
    }

    /// The number of completed polls.
    pub fn counter(&self) -> (r: i32)
        ensures
            r as int == self@.counter,
    {
        self.counter
    }

    /// The current phase.
    pub fn phase(&self) -> (r: WorkerPhase)
        ensures
            r == self@.phase,
    {
        self.phase
    }

    /// Whether the poller still loops.
    pub fn is_running(&self) -> (r: bool)
        ensures
            r == (self@.phase == WorkerPhase::Running),
    {
        self.phase == WorkerPhase::Running
    }

    /// One wake-up, having observed `cancelled`; returns the event to send.
    pub fn on_wake(&mut self, cancelled: bool) -> (r: Option<Event>)
        requires
            poller_wf(old(self)@),
        ensures
            poller_wf(final(self)@),
            (final(self)@, opt_view(r)) == poller_step(old(self)@, cancelled),
    {
        if self.phase != WorkerPhase::Running {
            None
        } else if cancelled {
            self.phase = WorkerPhase::Stopped;
            None
        } else {
            self.counter = self.counter + 1;
            if get_user_scan_code_result(self.counter) {
                self.phase = WorkerPhase::Finished;
                Some(Event::ScanCompleted)
            } else {
                None
            }
        }
    }
}

/// Wake-ups that all observe the signal unset.
pub open spec fn no_cancel(n: nat) -> Seq<bool> {
    Seq::new(n, |_k: int| false)
}

proof fn lemma_no_cancel_drop_last(n: nat)
    requires
        n > 0,
    ensures
        no_cancel(n).drop_last() == no_cancel((n - 1) as nat),
        no_cancel(n).last() == false,
{
    assert(no_cancel(n).drop_last() =~= no_cancel((n - 1) as nat));
}

/// Until cancellation, each wake-up of a running refresher advances its
/// counter by exactly one and requests the payload of the new counter: after
/// `n` such wake-ups the counter has grown by `n`, and the requests are those
/// of the `n` counters that follow the first one, in order.
pub proof fn lemma_refresher_counts_up(s: WorkerView, n: nat)
    requires
        s.phase == WorkerPhase::Running,
    ensures
        refresher_run(s, no_cancel(n)).0 == (WorkerView { counter: s.counter + n, ..s }),
        refresher_run(s, no_cancel(n)).1 == Seq::new(
            n,
            |k: int| EventView::Refresh(qrcode_path(s.counter + k + 1)),
        ),
    decreases n,
{
    if n > 0 {
        lemma_no_cancel_drop_last(n);
        lemma_refresher_counts_up(s, (n - 1) as nat);
        let prev = refresher_run(s, no_cancel((n - 1) as nat));
        assert(refresher_run(s, no_cancel(n)).1 =~= prev.1 + seq![EventView::Refresh(qrcode_path(s.counter + n))]);
        assert(refresher_run(s, no_cancel(n)).1 =~= Seq::new(
            n,
            |k: int| EventView::Refresh(qrcode_path(s.counter + k + 1)),
        ));
    }
}

/// A worker that is not running sends nothing and stays as it is, whatever
/// it observes.
pub proof fn lemma_exited_workers_are_silent(s: WorkerView, cancels: Seq<bool>)
    requires
        s.phase != WorkerPhase::Running,
    ensures
        refresher_run(s, cancels) == (s, Seq::<EventView>::empty()),
        poller_run(s, cancels) == (s, Seq::<EventView>::empty()),
    decreases cancels.len(),
{
    if cancels.len() > 0 {
        lemma_exited_workers_are_silent(s, cancels.drop_last());
        assert(Seq::<EventView>::empty() + sent(None) =~= Seq::<EventView>::empty());
    }
}

/// A worker whose first wake-up observes the signal set sends nothing at
/// all and is no longer running afterwards, whatever later wake-ups observe.
pub proof fn lemma_cancelled_workers_are_silent(s: WorkerView, cancels: Seq<bool>)
    requires
        cancels.len() > 0,
        cancels[0],
    ensures
        refresher_run(s, cancels).1.len() == 0,
        refresher_run(s, cancels).0.phase != WorkerPhase::Running,
        poller_run(s, cancels).1.len() == 0,
        poller_run(s, cancels).0.phase != WorkerPhase::Running,
    decreases cancels.len(),
{
    if cancels.len() > 1 {
        lemma_cancelled_workers_are_silent(s, cancels.drop_last());
        let r1 = refresher_run(s, cancels.drop_last()).0;
        let p1 = poller_run(s, cancels.drop_last()).0;
        assert(refresher_step(r1, cancels.last()).1 is None);
        assert(poller_step(p1, cancels.last()).1 is None);
        assert(refresher_run(s, cancels).1 =~= refresher_run(s, cancels.drop_last()).1);
        assert(poller_run(s, cancels).1 =~= poller_run(s, cancels.drop_last()).1);
    } else {
        assert(cancels.drop_last() =~= Seq::<bool>::empty());
        assert(cancels.last() == cancels[0]);
        assert(refresher_run(s, cancels.drop_last()) == (s, Seq::<EventView>::empty()));
        assert(poller_run(s, cancels.drop_last()) == (s, Seq::<EventView>::empty()));
        assert(refresher_step(s, true).1 is None);
        assert(poller_step(s, true).1 is None);
        assert(Seq::<EventView>::empty() + sent(None) =~= Seq::<EventView>::empty());
    }
}

/// The scan poller reports a completed scan at most once and sends nothing
/// else: whatever its wake-ups observe, it sends at most one event, that
/// event is `ScanDone`, and once it has been sent the poller has finished.
pub proof fn lemma_poller_completes_once(s: WorkerView, cancels: Seq<bool>)
    ensures
        poller_run(s, cancels).1.len() <= 1,
        poller_run(s, cancels).1.len() == 1 ==> poller_run(s, cancels).1[0] == EventView::ScanDone,
        poller_run(s, cancels).1.len() == 1 ==> poller_run(s, cancels).0.phase == WorkerPhase::Finished,
        s.phase == WorkerPhase::Finished ==> poller_run(s, cancels).1.len() == 0,
    decreases cancels.len(),
{
    if s.phase != WorkerPhase::Running {
        lemma_exited_workers_are_silent(s, cancels);
    }
    if cancels.len() > 0 {
        lemma_poller_completes_once(s, cancels.drop_last());
        let (s1, es) = poller_run(s, cancels.drop_last());
        let (s2, e) = poller_step(s1, cancels.last());
        assert(poller_run(s, cancels).1 == es + sent(e));
        if es.len() == 1 {
            assert(e is None);
            assert(es + sent(e) =~= es);
        } else {
            assert(es + sent(e) =~= sent(e));
        }
    }
}

} // verus!
