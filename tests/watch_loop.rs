use screenshot_renamer::watch::{
    control_effect, pause_label, ControlEffect, MenuCommand, WatchAction, WatchEvent, WatchLoop,
    WatchPhase,
};

fn watching() -> WatchLoop {
    let mut w = WatchLoop::new();
    assert_eq!(w.handle(WatchEvent::Subscribed), WatchAction::Nothing);
    assert_eq!(w.phase, WatchPhase::Watching);
    w
}

#[test]
fn burst_of_changes_gives_one_scan() {
    let mut w = watching();
    let mut actions = Vec::new();
    for _ in 0..5 {
        actions.push(w.handle(WatchEvent::Change));
    }
    actions.push(w.handle(WatchEvent::WindowElapsed { paused: false }));
    assert_eq!(
        actions,
        vec![
            WatchAction::StartWindow,
            WatchAction::Nothing,
            WatchAction::Nothing,
            WatchAction::Nothing,
            WatchAction::Nothing,
            WatchAction::Scan
        ]
    );
    assert_eq!(actions.iter().filter(|a| **a == WatchAction::Scan).count(), 1);
    assert_eq!(w.handle(WatchEvent::Change), WatchAction::StartWindow);
}

#[test]
fn paused_window_skips_scan_until_resumed() {
    let mut w = watching();
    let paused = match control_effect(MenuCommand::TogglePause, false) {
        ControlEffect::SetPaused(p) => p,
        other => panic!("unexpected {other:?}"),
    };
    assert!(paused);
    assert_eq!(pause_label(paused), "Resume");
    assert_eq!(w.handle(WatchEvent::Change), WatchAction::StartWindow);
    assert_eq!(w.handle(WatchEvent::WindowElapsed { paused }), WatchAction::Nothing);
    let paused = match control_effect(MenuCommand::TogglePause, paused) {
        ControlEffect::SetPaused(p) => p,
        other => panic!("unexpected {other:?}"),
    };
    assert!(!paused);
    assert_eq!(pause_label(paused), "Pause");
    assert_eq!(w.handle(WatchEvent::Change), WatchAction::StartWindow);
    assert_eq!(w.handle(WatchEvent::WindowElapsed { paused }), WatchAction::Scan);
}

#[test]
fn errors_are_logged_and_listening_goes_on() {
    let mut w = watching();
    assert_eq!(w.handle(WatchEvent::ChangeError), WatchAction::LogError);
    assert!(!w.is_stopped());
    assert_eq!(w.handle(WatchEvent::Change), WatchAction::StartWindow);
}

#[test]
fn closed_channel_or_quit_stops_the_loop() {
    let mut w = watching();
    assert_eq!(w.handle(WatchEvent::ChannelClosed), WatchAction::Stop);
    assert!(w.is_stopped());
    assert_eq!(w.handle(WatchEvent::Change), WatchAction::Nothing);
    let mut w = watching();
    assert_eq!(w.handle(WatchEvent::Quit), WatchAction::Stop);
    assert!(w.is_stopped());
}

#[test]
fn failed_subscription_stops_before_watching() {
    let mut w = WatchLoop::new();
    assert_eq!(w.phase, WatchPhase::Idle);
    assert_eq!(w.handle(WatchEvent::SubscribeFailed), WatchAction::Stop);
    assert!(w.is_stopped());
}

#[test]
fn other_commands_pass_through() {
    assert_eq!(control_effect(MenuCommand::OpenLog, true), ControlEffect::OpenLog);
    assert_eq!(control_effect(MenuCommand::Exit, false), ControlEffect::Exit);
}
