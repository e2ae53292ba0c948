//! Scenario tests for the supervision loop, the event channel, and the
//! take-once factory slot.
use tray_wrapper::ContinueRunning;
use tray_wrapper::EventChannel;
use tray_wrapper::FactorySlot;
use tray_wrapper::ServerStatus;
use tray_wrapper::SupervisionLoop;
use tray_wrapper::UserEvent;
use tray_wrapper::restart_message;
use tray_wrapper::run_to_completion;

fn expect_running(event: &UserEvent) {
    assert!(matches!(event, UserEvent::ServerStatus(ServerStatus::Running)));
}

fn expect_stopped(event: &UserEvent, message: &str) {
    match event {
        UserEvent::ServerStatus(ServerStatus::Stopped(m)) => assert_eq!(m, message),
        other => panic!("expected Stopped, got {other:?}"),
    }
}

fn expect_error(event: &UserEvent, message: &str) {
    match event {
        UserEvent::ServerStatus(ServerStatus::Error(m)) => assert_eq!(m, message),
        other => panic!("expected Error, got {other:?}"),
    }
}

#[test]
fn continue_once_then_exit() {
    let signals = vec![ContinueRunning::Continue, ContinueRunning::Exit];
    let (events, invocations) = run_to_completion(signals);
    assert_eq!(invocations, 2);
    assert_eq!(events.len(), 4);
    expect_running(&events[0]);
    expect_stopped(&events[1], "Server Exited, will start again");
    expect_running(&events[2]);
    assert!(matches!(events[3], UserEvent::ServerExit));
}

#[test]
fn error_on_first_invocation() {
    let signals = vec![ContinueRunning::ExitWithError("disk full".to_string())];
    let (events, invocations) = run_to_completion(signals);
    assert_eq!(invocations, 1);
    assert_eq!(events.len(), 2);
    expect_running(&events[0]);
    expect_error(&events[1], "disk full");
}

#[test]
fn signals_after_terminal_are_ignored() {
    let signals = vec![
        ContinueRunning::Exit,
        ContinueRunning::Continue,
        ContinueRunning::Continue,
    ];
    let (events, invocations) = run_to_completion(signals);
    assert_eq!(invocations, 1);
    assert_eq!(events.len(), 2);
    expect_running(&events[0]);
    assert!(matches!(events[1], UserEvent::ServerExit));
}

#[test]
fn all_continue_alternates_running_and_stopped() {
    let signals = vec![
        ContinueRunning::Continue,
        ContinueRunning::Continue,
        ContinueRunning::Continue,
    ];
    let (events, invocations) = run_to_completion(signals);
    assert_eq!(invocations, 3);
    assert_eq!(events.len(), 6);
    for pair in 0..3 {
        expect_running(&events[2 * pair]);
        expect_stopped(&events[2 * pair + 1], "Server Exited, will start again");
    }
}

#[test]
fn no_signals_no_events() {
    let (events, invocations) = run_to_completion(Vec::new());
    assert_eq!(invocations, 0);
    assert!(events.is_empty());
}

#[test]
fn restart_message_text() {
    assert_eq!(restart_message(), "Server Exited, will start again");
}

#[test]
fn step_by_step_loop() {
    let mut sl = SupervisionLoop::new();
    assert!(!sl.is_finished());
    expect_running(&sl.begin_cycle());
    let event = sl.complete_cycle(ContinueRunning::Continue);
    expect_stopped(&event, "Server Exited, will start again");
    assert!(!sl.is_finished());
    expect_running(&sl.begin_cycle());
    let event = sl.complete_cycle(ContinueRunning::ExitWithError("boom".to_string()));
    expect_error(&event, "boom");
    assert!(sl.is_finished());
}

#[test]
fn factory_slot_takes_once() {
    let mut slot = FactorySlot::new_with(7_u64);
    assert_eq!(slot.take(), Some(7));
    assert_eq!(slot.take(), None);
    assert_eq!(slot.take(), None);
}

#[test]
fn event_channel_is_fifo() {
    let mut chan = EventChannel::new();
    assert_eq!(chan.len(), 0);
    chan.send(UserEvent::ServerStatus(ServerStatus::Running));
    chan.send(UserEvent::Menu("2".to_string()));
    chan.send(UserEvent::ServerExit);
    assert_eq!(chan.len(), 3);
    expect_running(&chan.try_recv().unwrap());
    match chan.try_recv().unwrap() {
        UserEvent::Menu(id) => assert_eq!(id, "2"),
        other => panic!("expected Menu, got {other:?}"),
    }
    assert!(matches!(chan.try_recv(), Some(UserEvent::ServerExit)));
    assert!(chan.try_recv().is_none());
}
