use windows::Win32::Foundation as foundation;
use windows::Win32::System::Threading as threading;
use windows::Win32::UI::WindowsAndMessaging as wm;
use xterminate::process::{Outcome, Process, ERROR_APP_HANG};
use xterminate::termination::{Event, Phase, SignalKind, Step, Termination, WaitResult};
use xterminate::window::{Window, WindowInfo, WS_DISABLED};

fn windows_of_seven() -> Vec<WindowInfo> {
    vec![
        WindowInfo { handle: 100, root: 100, style: 0, process_id: 7 },
        WindowInfo { handle: 101, root: 101, style: WS_DISABLED, process_id: 7 },
        WindowInfo { handle: 102, root: 102, style: 0, process_id: 7 },
        WindowInfo { handle: 200, root: 200, style: 0, process_id: 8 },
    ]
}

fn is_list(step: &Step) -> bool {
    matches!(step, Step::ListWindows)
}

fn signal(step: Step) -> (u32, Vec<Window>, isize, u32) {
    match step {
        Step::Signal { message, windows, handle, timeout_ms } => (message, windows, handle, timeout_ms),
        other => panic!("expected a close request, got {:?}", other),
    }
}

fn kill(step: Step) -> (isize, u32) {
    match step {
        Step::Kill { handle, exit_code } => (handle, exit_code),
        other => panic!("expected a termination, got {:?}", other),
    }
}

fn finish(step: Step) -> Outcome {
    match step {
        Step::Finish(outcome) => outcome,
        other => panic!("expected the end, got {:?}", other),
    }
}

#[test]
fn signal_messages_match_the_system_headers() {
    assert_eq!(SignalKind::Close.to_message(), wm::WM_CLOSE);
    assert_eq!(SignalKind::Destroy.to_message(), wm::WM_DESTROY);
    assert_eq!(SignalKind::Quit.to_message(), wm::WM_QUIT);
    assert_eq!(ERROR_APP_HANG, foundation::ERROR_APP_HANG.0);
    assert_ne!(ERROR_APP_HANG, 0);
}

#[test]
fn signal_kinds_follow_each_other() {
    assert_eq!(SignalKind::Close.next(), Some(SignalKind::Destroy));
    assert_eq!(SignalKind::Destroy.next(), Some(SignalKind::Quit));
    assert_eq!(SignalKind::Quit.next(), None);
}

#[test]
fn wait_results_are_read_from_the_wait_code() {
    assert_eq!(WaitResult::from_wait(foundation::WAIT_OBJECT_0.0), WaitResult::Exited);
    assert_eq!(WaitResult::from_wait(foundation::WAIT_TIMEOUT.0), WaitResult::TimedOut);
    assert_eq!(WaitResult::from_wait(foundation::WAIT_FAILED.0), WaitResult::Failed);
    assert_eq!(WaitResult::from_wait(foundation::WAIT_ABANDONED.0), WaitResult::Failed);
    assert_eq!(WaitResult::from_wait(1), WaitResult::Failed);
}

#[test]
fn access_rights_match_the_system_headers() {
    assert_eq!(
        Process::access_rights(),
        (threading::PROCESS_SYNCHRONIZE
            | threading::PROCESS_VM_READ
            | threading::PROCESS_QUERY_INFORMATION
            | threading::PROCESS_TERMINATE)
            .0
    );
    assert_eq!(Process::access_rights(), 0x0010_0411);
}

#[test]
fn without_a_target_the_attempt_is_over_at_once() {
    let mut attempt = Termination::new(None, true, 3000);
    assert_eq!(attempt.outcome(), Some(Outcome::NoTarget));
    assert_eq!(finish(attempt.advance(Event::Start)), Outcome::NoTarget);
    assert_eq!(finish(attempt.advance(Event::Killed(true))), Outcome::NoTarget);
    assert_eq!(attempt.phase(), Phase::Finished(Outcome::NoTarget));
    assert!(!attempt.process().valid());
}

#[test]
fn a_process_that_exits_by_itself_is_a_success() {
    let mut attempt = Termination::new(Some(Process::open(7, 0x70)), true, 3000);
    assert_eq!(attempt.outcome(), None);
    assert!(is_list(&attempt.advance(Event::Start)));
    assert_eq!(attempt.phase(), Phase::Listing(SignalKind::Close));
    let (message, windows, handle, timeout_ms) =
        signal(attempt.advance(Event::Windows(windows_of_seven())));
    assert_eq!(message, wm::WM_CLOSE);
    assert_eq!(windows, vec![Window::from_handle(100), Window::from_handle(102)]);
    assert_eq!(handle, 0x70);
    assert_eq!(timeout_ms, 1000);
    assert_eq!(attempt.phase(), Phase::Waiting(SignalKind::Close));
    assert!(attempt.process().valid());
    assert_eq!(finish(attempt.advance(Event::Waited(WaitResult::Exited))), Outcome::Success);
    assert_eq!(attempt.outcome(), Some(Outcome::Success));
    assert!(!attempt.process().valid());
}

#[test]
fn every_kind_of_request_is_tried_before_force() {
    let mut attempt = Termination::new(Some(Process::open(7, 0x70)), true, 3000);
    let mut waited: u64 = 0;
    let mut messages = vec![];
    assert!(is_list(&attempt.advance(Event::Start)));
    for result in [WaitResult::TimedOut, WaitResult::Failed, WaitResult::TimedOut] {
        let (message, windows, handle, timeout_ms) =
            signal(attempt.advance(Event::Windows(windows_of_seven())));
        assert_eq!(windows, vec![Window::from_handle(100), Window::from_handle(102)]);
        assert_eq!(handle, 0x70);
        messages.push(message);
        waited += u64::from(timeout_ms);
        let next = attempt.advance(Event::Waited(result));
        if messages.len() < 3 {
            assert!(is_list(&next));
        } else {
            assert_eq!(kill(next), (0x70, 1298));
        }
    }
    assert_eq!(messages, vec![wm::WM_CLOSE, wm::WM_DESTROY, wm::WM_QUIT]);
    assert_eq!(waited, 3000);
    assert_eq!(attempt.phase(), Phase::Killing);
    assert_eq!(finish(attempt.advance(Event::Killed(true))), Outcome::Forced);
    assert!(!attempt.process().valid());
}

#[test]
fn the_waits_never_exceed_the_time_allowed() {
    for timeout in [0u32, 1, 2, 3, 4, 5, 100, 1000, 2999, 3001, u32::MAX] {
        let mut attempt = Termination::new(Some(Process::open(7, 0x70)), true, timeout);
        let mut waited: u64 = 0;
        let mut step = attempt.advance(Event::Start);
        let mut steps = 0;
        loop {
            steps += 1;
            assert!(steps < 20);
            step = match step {
                Step::ListWindows => attempt.advance(Event::Windows(windows_of_seven())),
                Step::Signal { timeout_ms, .. } => {
                    assert_eq!(timeout_ms, timeout / 3);
                    waited += u64::from(timeout_ms);
                    attempt.advance(Event::Waited(WaitResult::TimedOut))
                }
                Step::Kill { .. } => attempt.advance(Event::Killed(true)),
                Step::Finish(outcome) => {
                    assert_eq!(outcome, Outcome::Forced);
                    break;
                }
            };
        }
        assert!(waited <= u64::from(timeout));
        assert_eq!(waited, u64::from(timeout / 3) * 3);
    }
}

#[test]
fn a_kind_without_windows_is_skipped_without_waiting() {
    let mut attempt = Termination::new(Some(Process::open(9, 0x90)), true, 3000);
    assert!(is_list(&attempt.advance(Event::Start)));
    assert!(is_list(&attempt.advance(Event::Windows(windows_of_seven()))));
    assert_eq!(attempt.phase(), Phase::Listing(SignalKind::Destroy));
    assert!(is_list(&attempt.advance(Event::Windows(vec![]))));
    assert_eq!(attempt.phase(), Phase::Listing(SignalKind::Quit));
    assert_eq!(kill(attempt.advance(Event::Windows(vec![]))), (0x90, ERROR_APP_HANG));
    assert_eq!(finish(attempt.advance(Event::Killed(true))), Outcome::Forced);
}

#[test]
fn windows_that_appear_later_still_get_a_request() {
    let mut attempt = Termination::new(Some(Process::open(7, 0x70)), true, 900);
    assert!(is_list(&attempt.advance(Event::Start)));
    assert!(is_list(&attempt.advance(Event::Windows(vec![]))));
    let (message, windows, _, timeout_ms) =
        signal(attempt.advance(Event::Windows(windows_of_seven())));
    assert_eq!(message, wm::WM_DESTROY);
    assert_eq!(windows.len(), 2);
    assert_eq!(timeout_ms, 300);
    assert_eq!(finish(attempt.advance(Event::Waited(WaitResult::Exited))), Outcome::Success);
}

#[test]
fn with_close_requests_disabled_force_comes_first() {
    let mut attempt = Termination::new(Some(Process::open(7, 0x70)), false, 3000);
    assert_eq!(kill(attempt.advance(Event::Start)), (0x70, 1298));
    assert_eq!(attempt.phase(), Phase::Killing);
    assert_eq!(finish(attempt.advance(Event::Killed(true))), Outcome::Forced);
    assert_eq!(attempt.outcome(), Some(Outcome::Forced));
}

#[test]
fn a_refused_termination_fails_and_invalidates_the_process() {
    let mut attempt = Termination::new(Some(Process::open(7, 0x70)), false, 3000);
    assert_eq!(kill(attempt.advance(Event::Start)), (0x70, 1298));
    assert_eq!(finish(attempt.advance(Event::Killed(false))), Outcome::Failed);
    assert!(!attempt.process().valid());
    assert_eq!(finish(attempt.advance(Event::Killed(true))), Outcome::Failed);
}

#[test]
fn a_second_attempt_on_the_same_process_fails_without_a_system_call() {
    let mut first = Termination::new(Some(Process::open(7, 0x70)), false, 3000);
    assert_eq!(kill(first.advance(Event::Start)), (0x70, 1298));
    assert_eq!(finish(first.advance(Event::Killed(true))), Outcome::Forced);
    let process = first.into_process();
    assert!(!process.valid());
    assert_eq!(process.kill_request(), None);
    let mut second = Termination::new(Some(process), false, 3000);
    assert_eq!(finish(second.advance(Event::Start)), Outcome::Failed);
    let mut third = Termination::new(Some(second.into_process()), true, 3000);
    assert_eq!(finish(third.advance(Event::Start)), Outcome::Failed);
    assert_eq!(third.outcome(), Some(Outcome::Failed));
    assert_eq!(third.process().id(), 7);
    assert_eq!(third.process().handle(), 0x70);
}

#[test]
fn an_event_that_answers_nothing_counts_as_a_failure_of_the_step() {
    let mut attempt = Termination::new(Some(Process::open(7, 0x70)), true, 3000);
    assert!(is_list(&attempt.advance(Event::Start)));
    assert!(is_list(&attempt.advance(Event::Waited(WaitResult::Exited))));
    assert_eq!(attempt.phase(), Phase::Listing(SignalKind::Destroy));
    let _ = signal(attempt.advance(Event::Windows(windows_of_seven())));
    assert!(is_list(&attempt.advance(Event::Killed(true))));
    assert_eq!(attempt.phase(), Phase::Listing(SignalKind::Quit));
    assert_eq!(kill(attempt.advance(Event::Start)), (0x70, 1298));
    assert_eq!(finish(attempt.advance(Event::Start)), Outcome::Failed);
}

#[test]
fn the_process_concludes_a_termination_once() {
    let mut process = Process::open(7, 0x70);
    assert_eq!(process.kill_request(), Some((0x70, 1298)));
    assert_eq!(process.terminate(true), Outcome::Forced);
    assert!(!process.valid());
    assert_eq!(process.kill_request(), None);
    assert_eq!(process.terminate(true), Outcome::Failed);
    assert_eq!(process.id(), 7);
    assert_eq!(process.handle(), 0x70);

    let mut refused = Process::open(8, 0x80);
    assert_eq!(refused.terminate(false), Outcome::Failed);
    assert!(!refused.valid());
}

#[test]
fn slices_share_the_time_evenly() {
    assert_eq!(Termination::new(Some(Process::open(1, 1)), true, 3000).slice_ms(), 1000);
    assert_eq!(Termination::new(Some(Process::open(1, 1)), true, 1000).slice_ms(), 333);
    assert_eq!(Termination::new(Some(Process::open(1, 1)), true, 2).slice_ms(), 0);
    assert_eq!(Termination::new(Some(Process::open(1, 1)), true, u32::MAX).slice_ms(), 1431655765);
}

#[test]
fn only_a_missing_window_is_no_target() {
    assert!(Outcome::Success.found());
    assert!(Outcome::Forced.found());
    assert!(Outcome::Failed.found());
    assert!(!Outcome::NoTarget.found());
}
