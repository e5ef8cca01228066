use qrcode_login::cancel::CancellationSignal;
use qrcode_login::controller::{teardown_report, Controller, JoinOutcome, TeardownError, WorkerId};
use qrcode_login::event::Event;
use qrcode_login::payload::{get_new_qrcode, get_user_scan_code_result};
use qrcode_login::worker::{Refresher, ScanPoller, WorkerPhase};

fn refresh(p: &str) -> Event {
    Event::RefreshRequested(p.to_string())
}

#[test]
fn payload_paths_are_decimal() {
    assert_eq!(get_new_qrcode(0), "./img/qrcode0.png");
    assert_eq!(get_new_qrcode(7), "./img/qrcode7.png");
    assert_eq!(get_new_qrcode(12), "./img/qrcode12.png");
    assert_eq!(get_new_qrcode(1000), "./img/qrcode1000.png");
    assert_eq!(get_new_qrcode(-3), "./img/qrcode-3.png");
    assert_eq!(get_new_qrcode(i32::MAX), "./img/qrcode2147483647.png");
    assert_eq!(get_new_qrcode(i32::MIN), "./img/qrcode-2147483648.png");
}

#[test]
fn scan_succeeds_from_four_on() {
    for i in 0..=3 {
        assert!(!get_user_scan_code_result(i));
    }
    assert!(get_user_scan_code_result(4));
    assert!(get_user_scan_code_result(100));
    assert!(get_user_scan_code_result(-1));
}

#[test]
fn refresher_counts_up_by_one() {
    let mut r = Refresher::new();
    assert_eq!(r.phase(), WorkerPhase::Idle);
    r.start();
    assert!(r.is_running());
    for k in 1..=5 {
        match r.on_wake(false) {
            Some(Event::RefreshRequested(p)) => assert_eq!(p, format!("./img/qrcode{}.png", k)),
            _ => panic!("expected a refresh"),
        }
        assert_eq!(r.counter(), k);
    }
}

#[test]
fn idle_refresher_sends_nothing() {
    let mut r = Refresher::new();
    assert!(r.on_wake(false).is_none());
    assert_eq!(r.counter(), 0);
    assert_eq!(r.phase(), WorkerPhase::Idle);
}

#[test]
fn refresher_cancelled_mid_sleep_goes_silent() {
    let mut r = Refresher::new();
    r.start();
    assert!(r.on_wake(false).is_some());
    assert!(r.on_wake(false).is_some());
    // the signal is set while the refresher sleeps: its next wake-up sees it
    assert!(r.on_wake(true).is_none());
    assert_eq!(r.phase(), WorkerPhase::Stopped);
    assert!(!r.is_running());
    assert!(r.on_wake(false).is_none());
    assert!(r.on_wake(true).is_none());
    assert_eq!(r.counter(), 2);
}

#[test]
fn poller_completes_on_fourth_wake() {
    let interval_secs = 3;
    let mut p = ScanPoller::new();
    p.start();
    let mut completed_at = None;
    for wake in 1..=6 {
        if let Some(Event::ScanCompleted) = p.on_wake(false) {
            assert!(completed_at.is_none());
            completed_at = Some(wake * interval_secs);
        }
    }
    let t = completed_at.unwrap();
    assert_eq!(t, 12);
    assert!(t >= 12 && t <= 15);
    assert_eq!(p.phase(), WorkerPhase::Finished);
    assert_eq!(p.counter(), 4);
}

#[test]
fn poller_reports_once_and_never_again() {
    let mut p = ScanPoller::new();
    p.start();
    let mut sent = 0;
    for _ in 0..10 {
        match p.on_wake(false) {
            Some(Event::ScanCompleted) => sent += 1,
            Some(Event::RefreshRequested(_)) => panic!("poller never refreshes"),
            None => {}
        }
    }
    assert_eq!(sent, 1);
    assert!(p.on_wake(true).is_none());
    assert_eq!(p.phase(), WorkerPhase::Finished);
}

#[test]
fn poller_stops_on_cancellation() {
    let mut p = ScanPoller::new();
    p.start();
    assert!(p.on_wake(false).is_none());
    assert!(p.on_wake(true).is_none());
    assert_eq!(p.phase(), WorkerPhase::Stopped);
    assert!(p.on_wake(false).is_none());
}

#[test]
fn controller_starts_with_first_payload() {
    let c = Controller::new();
    assert_eq!(c.payload(), "./img/qrcode0.png");
    assert!(c.needs_redraw());
    assert!(!c.cancel_requested());
    assert!(!c.close_requested());
}

#[test]
fn render_draws_once_per_refresh() {
    let mut c = Controller::new();
    assert_eq!(c.on_render_opportunity(), Some("./img/qrcode0.png".to_string()));
    assert!(!c.needs_redraw());
    assert_eq!(c.on_render_opportunity(), None);
    let req = c.on_tick(&vec![refresh("./img/qrcode1.png")]);
    assert!(req.redraw);
    assert!(!req.close);
    assert!(c.needs_redraw());
    assert_eq!(c.on_render_opportunity(), Some("./img/qrcode1.png".to_string()));
    assert_eq!(c.on_render_opportunity(), None);
    let req = c.on_tick(&vec![]);
    assert!(!req.redraw);
    assert!(!c.needs_redraw());
}

#[test]
fn tick_applies_events_in_order() {
    let mut c = Controller::new();
    c.on_tick(&vec![refresh("a"), refresh("b"), refresh("c")]);
    assert_eq!(c.payload(), "c");

    let mut split = Controller::new();
    split.on_tick(&vec![refresh("a")]);
    split.on_tick(&vec![refresh("b"), refresh("c")]);
    assert_eq!(split.payload(), c.payload());
    assert_eq!(split.needs_redraw(), c.needs_redraw());
}

#[test]
fn scan_completed_cancels_and_closes_once() {
    let mut c = Controller::new();
    let signal = c.signal();
    assert!(!signal.is_cancelled());
    let req = c.on_tick(&vec![Event::ScanCompleted]);
    assert!(req.close);
    assert!(!req.redraw);
    assert!(c.cancel_requested());
    assert!(c.close_requested());
    assert!(signal.is_cancelled());
    let req = c.on_tick(&vec![Event::ScanCompleted, refresh("x")]);
    assert!(!req.close);
    assert!(req.redraw);
    assert!(c.close_requested());
}

#[test]
fn teardown_takes_each_handle_once() {
    let mut c = Controller::new();
    let signal = c.signal();
    c.attach(WorkerId::Refresher);
    c.attach(WorkerId::ScanPoller);
    assert_eq!(c.begin_teardown(), vec![WorkerId::Refresher, WorkerId::ScanPoller]);
    assert!(c.cancel_requested());
    assert!(signal.is_cancelled());
    assert_eq!(c.begin_teardown(), Vec::<WorkerId>::new());
    assert!(c.cancel_requested());
}

#[test]
fn teardown_without_handles_takes_nothing() {
    let mut c = Controller::new();
    assert!(c.begin_teardown().is_empty());
    c.attach(WorkerId::ScanPoller);
    assert_eq!(c.begin_teardown(), vec![WorkerId::ScanPoller]);
}

#[test]
fn teardown_report_lists_panicked_workers() {
    let ok = vec![
        JoinOutcome { worker: WorkerId::Refresher, panicked: false },
        JoinOutcome { worker: WorkerId::ScanPoller, panicked: false },
    ];
    assert_eq!(teardown_report(&ok), Ok(()));
    assert_eq!(teardown_report(&vec![]), Ok(()));
    let one = vec![
        JoinOutcome { worker: WorkerId::Refresher, panicked: false },
        JoinOutcome { worker: WorkerId::ScanPoller, panicked: true },
    ];
    assert_eq!(teardown_report(&one), Err(TeardownError::WorkerPanicked(vec![WorkerId::ScanPoller])));
    let both = vec![
        JoinOutcome { worker: WorkerId::Refresher, panicked: true },
        JoinOutcome { worker: WorkerId::ScanPoller, panicked: true },
    ];
    assert_eq!(
        teardown_report(&both),
        Err(TeardownError::WorkerPanicked(vec![WorkerId::Refresher, WorkerId::ScanPoller]))
    );
}

#[test]
fn cancellation_signal_is_shared_and_sticky() {
    let s = CancellationSignal::new();
    let t = s.clone();
    assert!(!s.is_cancelled());
    t.cancel();
    assert!(s.is_cancelled());
    s.cancel();
    assert!(t.is_cancelled());
}

#[test]
fn event_kinds() {
    assert!(refresh("p").is_refresh());
    assert!(!Event::ScanCompleted.is_refresh());
}
