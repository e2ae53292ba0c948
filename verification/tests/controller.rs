//! Scenario tests for the controller: activation, rendering, quit
//! precedence, and coordinated shutdown.
use tray_wrapper::ContinueRunning;
use tray_wrapper::MenuState;
use tray_wrapper::ServerStatus;
use tray_wrapper::StartOutcome;
use tray_wrapper::TrayWrapper;
use tray_wrapper::TrayWrapperError;
use tray_wrapper::UserAction;
use tray_wrapper::UserEvent;
use tray_wrapper::run_to_completion;

/// A tiny but genuine PNG, as an embedder would hand to the wrapper.
fn png_bytes() -> Vec<u8> {
    let pixels = image::RgbaImage::from_pixel(2, 3, image::Rgba([10, 20, 30, 255]));
    let mut out = std::io::Cursor::new(Vec::new());
    image::DynamicImage::ImageRgba8(pixels)
        .write_to(&mut out, image::ImageFormat::Png)
        .unwrap();
    out.into_inner()
}

fn active_wrapper(factory: u32) -> TrayWrapper<u32> {
    let mut wrapper = TrayWrapper::new(&png_bytes(), factory).unwrap();
    let outcome = wrapper.handle_start(Some(MenuState::new("quit-7".to_string())));
    assert!(matches!(outcome, StartOutcome::Supervise(f) if f == factory));
    wrapper
}

#[test]
fn construction_decodes_icon() {
    let wrapper: TrayWrapper<u32> = TrayWrapper::new(&png_bytes(), 5).unwrap();
    let icon = wrapper.icon_ref();
    assert_eq!(icon.pixel_width(), 2);
    assert_eq!(icon.pixel_height(), 3);
    assert_eq!(icon.rgba_bytes().len(), 4 * 2 * 3);
}

#[test]
fn construction_rejects_bad_bytes() {
    let result: Result<TrayWrapper<u32>, _> = TrayWrapper::new(&[1, 2, 3, 4], 5);
    assert!(matches!(result, Err(TrayWrapperError::IconLoad)));
}

#[test]
fn activation_shows_startup_and_hands_factory_out() {
    let wrapper = active_wrapper(9);
    let menu = wrapper.menu_ref().as_ref().unwrap();
    assert_eq!(menu.title().as_deref(), Some("?"));
    assert_eq!(menu.status_text(), "In startup");
}

#[test]
fn activation_without_menu_aborts() {
    let mut wrapper: TrayWrapper<u32> = TrayWrapper::new(&png_bytes(), 5).unwrap();
    let outcome = wrapper.handle_start(None);
    assert!(matches!(outcome, StartOutcome::AbortHost));
}

#[test]
fn status_events_are_rendered_in_order() {
    let mut wrapper = active_wrapper(9);
    let action = wrapper.handle_user_event(UserEvent::ServerStatus(ServerStatus::Running));
    assert_eq!(action, UserAction::Render);
    {
        let menu = wrapper.menu_ref().as_ref().unwrap();
        assert_eq!(menu.title().as_deref(), None);
        assert_eq!(menu.status_text(), "Running");
    }
    let action = wrapper.handle_user_event(UserEvent::ServerStatus(ServerStatus::Stopped(
        "Server Exited, will start again".to_string(),
    )));
    assert_eq!(action, UserAction::Render);
    {
        let menu = wrapper.menu_ref().as_ref().unwrap();
        assert_eq!(menu.title().as_deref(), Some("X"));
        assert_eq!(menu.status_text(), "Server Exited, will start again");
    }
    let action = wrapper.handle_user_event(UserEvent::ServerStatus(ServerStatus::Running));
    assert_eq!(action, UserAction::Render);
    let menu = wrapper.menu_ref().as_ref().unwrap();
    assert_eq!(menu.title().as_deref(), None);
    assert_eq!(menu.status_text(), "Running");
}

#[test]
fn error_exit_shuts_the_host_down() {
    // The factory fails on its first invocation: the supervision loop emits
    // exactly `Running` then `Error("disk full")`, invoking the factory once.
    let signals = vec![ContinueRunning::ExitWithError("disk full".to_string())];
    let (events, invocations) = run_to_completion(signals);
    assert_eq!(invocations, 1);
    assert_eq!(events.len(), 2);
    // The controller observes that sequence; the terminal error brings the
    // host down just as an exit notice would.
    let mut wrapper = active_wrapper(9);
    let mut actions = Vec::new();
    for event in events {
        actions.push(wrapper.handle_user_event(event));
    }
    assert_eq!(actions, vec![UserAction::Render, UserAction::Shutdown(10)]);
    wrapper.finish_shutdown();
}

#[test]
fn exit_notice_triggers_shutdown() {
    let mut wrapper = active_wrapper(9);
    let action = wrapper.handle_user_event(UserEvent::ServerExit);
    assert_eq!(action, UserAction::Shutdown(10));
    wrapper.finish_shutdown();
}

#[test]
fn quit_triggers_shutdown_and_later_events_are_ignored() {
    let mut wrapper = active_wrapper(9);
    let action = wrapper.handle_user_event(UserEvent::Menu("quit-7".to_string()));
    assert_eq!(action, UserAction::Shutdown(10));
    // The in-flight task may still deliver events; none changes anything.
    let action = wrapper.handle_user_event(UserEvent::ServerStatus(ServerStatus::Running));
    assert_eq!(action, UserAction::Ignore);
    let action = wrapper.handle_user_event(UserEvent::ServerExit);
    assert_eq!(action, UserAction::Ignore);
    wrapper.finish_shutdown();
}

#[test]
fn quit_before_activation_is_harmless() {
    let mut wrapper: TrayWrapper<u32> = TrayWrapper::new(&png_bytes(), 5).unwrap();
    // No menu exists yet, so no identity can match; the event is consumed
    // without any crash.
    let action = wrapper.handle_user_event(UserEvent::Menu("quit-7".to_string()));
    assert_eq!(action, UserAction::Ignore);
    // An exit notice, by contrast, needs no menu at all.
    let action = wrapper.handle_user_event(UserEvent::ServerExit);
    assert_eq!(action, UserAction::Shutdown(10));
}

#[test]
fn other_menu_items_do_not_quit() {
    let mut wrapper = active_wrapper(9);
    let action = wrapper.handle_user_event(UserEvent::Menu("status-1".to_string()));
    assert_eq!(action, UserAction::Ignore);
    let action = wrapper.handle_user_event(UserEvent::TrayIcon);
    assert_eq!(action, UserAction::Ignore);
}

#[test]
fn shutdown_uses_configured_timeout() {
    let mut wrapper = active_wrapper(9);
    wrapper.set_shutdown_timeout(3);
    let action = wrapper.handle_user_event(UserEvent::ServerExit);
    assert_eq!(action, UserAction::Shutdown(3));
}

#[test]
fn quit_matches_compares_identity() {
    let menu = MenuState::new("quit-7".to_string());
    assert!(menu.quit_matches(UserEvent::Menu("quit-7".to_string())));
    assert!(!menu.quit_matches(UserEvent::Menu("status-1".to_string())));
    assert!(!menu.quit_matches(UserEvent::ServerExit));
    assert!(!menu.quit_matches(UserEvent::TrayIcon));
}

#[test]
fn quit_while_task_pending_gives_up_after_timeout() {
    // The factory's task never completes: no terminal event ever arrives.
    // A quit request still begins shutdown at once, the execution context is
    // given the bounded timeout to drain, and termination follows regardless.
    let mut loop_model = tray_wrapper::SupervisionLoop::new();
    let mut wrapper = active_wrapper(9);
    let running = loop_model.begin_cycle();
    let action = wrapper.handle_user_event(running);
    assert_eq!(action, UserAction::Render);
    // The task is still pending when the user asks to quit.
    let action = wrapper.handle_user_event(UserEvent::Menu("quit-7".to_string()));
    assert_eq!(action, UserAction::Shutdown(10));
    // The host waits out the timeout, then reports termination; nothing can
    // hold it up, the abandoned task included.
    wrapper.finish_shutdown();
}

#[test]
fn default_status_is_startup() {
    assert!(matches!(ServerStatus::default(), ServerStatus::StartUp));
}
