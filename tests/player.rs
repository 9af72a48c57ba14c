use oxidized_soundboard::player::{
    Launch, LaunchFailure, PlayState, PlaybackWorker, WorkerAction, WorkerEvent,
    FALLBACK_BUDGET_MS, POLL_INTERVAL_MS,
};
use oxidized_soundboard::settings::{AudioSettings, AudioSettingsMessage, AudioType, Gains};

fn settings(v1: i32, v2: i32) -> AudioSettings {
    let mut s = AudioSettings::default();
    s.apply(AudioSettingsMessage::SliderChange(v1, AudioType::Output1));
    s.apply(AudioSettingsMessage::SliderChange(v2, AudioType::Output2));
    s
}

fn started(duration_ms: Option<u64>, s: &AudioSettings) -> (PlaybackWorker, u64) {
    match PlaybackWorker::launch(Ok(duration_ms), s) {
        Launch::Started { worker, timeout_ms } => (worker, timeout_ms),
        Launch::Failed(f) => panic!("launch failed: {:?}", f),
    }
}

#[test]
fn launch_failures_end_the_session() {
    let s = settings(50, 50);
    for f in [LaunchFailure::StreamOpen, LaunchFailure::FileOpen, LaunchFailure::Decode] {
        assert_eq!(PlaybackWorker::launch(Err(f), &s), Launch::Failed(f));
    }
}

#[test]
fn launch_with_probed_duration_waits_it_out() {
    let s = settings(80, 20);
    let (w, timeout) = started(Some(5000), &s);
    assert_eq!(timeout, 5000);
    assert_eq!(w.budget_ms, 5000);
    assert!(w.probed);
    assert_eq!(w.state, PlayState::Playing);
    assert_eq!(w.gains, Gains { out1: 80, out2: 20 });
}

#[test]
fn launch_without_duration_uses_fallback_and_polls() {
    let (w, timeout) = started(None, &settings(10, 10));
    assert_eq!(FALLBACK_BUDGET_MS, 20_000);
    assert_eq!(w.budget_ms, 20_000);
    assert!(!w.probed);
    assert_eq!(timeout, POLL_INTERVAL_MS);
}

#[test]
fn stop_at_two_seconds_of_five_second_clip() {
    let (mut w, timeout) = started(Some(5000), &settings(50, 50));
    assert_eq!(timeout, 5000);
    // The wait is cut short by Stop at t = 2 s.
    let action = w.step(WorkerEvent::Stop, 2000);
    assert_eq!(action, WorkerAction::Finish { report: PlayState::Stopped });
    assert_eq!(w.state, PlayState::Stopped);
}

#[test]
fn unprobed_clip_ends_when_sinks_empty_early() {
    let (mut w, timeout) = started(None, &settings(50, 50));
    assert!(timeout < FALLBACK_BUDGET_MS);
    let mut t = timeout;
    let action = w.step(WorkerEvent::TimedOut { sinks_empty: false }, t);
    assert_eq!(action, WorkerAction::Wait { timeout_ms: POLL_INTERVAL_MS });
    t += POLL_INTERVAL_MS;
    // The clip was 0.4 s long: the next poll finds the sinks empty.
    let action = w.step(WorkerEvent::TimedOut { sinks_empty: true }, t);
    assert_eq!(action, WorkerAction::Finish { report: PlayState::Stopped });
    assert!(t < FALLBACK_BUDGET_MS);
}

#[test]
fn settings_change_mid_session_only_retunes() {
    let (mut w, _) = started(Some(5000), &settings(50, 50));
    let before = w;
    let mut s = settings(50, 50);
    s.apply(AudioSettingsMessage::MutePressed(AudioType::Output1));
    s.apply(AudioSettingsMessage::SliderChange(90, AudioType::Output2));
    let action = w.step(WorkerEvent::SettingsChanged(s), 1500);
    assert_eq!(
        action,
        WorkerAction::Retune { gains: Gains { out1: 0, out2: 90 }, timeout_ms: 3500 }
    );
    assert_eq!(w.state, PlayState::Playing);
    assert_eq!(w.budget_ms, before.budget_ms);
    assert_eq!(w.probed, before.probed);
    assert_eq!(w.gains, Gains { out1: 0, out2: 90 });
}

#[test]
fn timeout_with_audio_left_keeps_polling() {
    let (mut w, _) = started(Some(1000), &settings(50, 50));
    let action = w.step(WorkerEvent::TimedOut { sinks_empty: false }, 1000);
    assert_eq!(action, WorkerAction::Wait { timeout_ms: POLL_INTERVAL_MS });
    assert_eq!(w.state, PlayState::Playing);
    let action = w.step(WorkerEvent::TimedOut { sinks_empty: true }, 1250);
    assert_eq!(action, WorkerAction::Finish { report: PlayState::Stopped });
}

#[test]
fn natural_end_at_budget() {
    let (mut w, timeout) = started(Some(3000), &settings(50, 50));
    assert_eq!(timeout, 3000);
    let action = w.step(WorkerEvent::TimedOut { sinks_empty: true }, 3001);
    assert_eq!(action, WorkerAction::Finish { report: PlayState::Stopped });
}

#[test]
fn closed_control_channel_ends_session() {
    let (mut w, _) = started(Some(3000), &settings(50, 50));
    let action = w.step(WorkerEvent::ControlClosed, 10);
    assert_eq!(action, WorkerAction::Finish { report: PlayState::Stopped });
    assert_eq!(w.state, PlayState::Stopped);
}

#[test]
fn guessed_budget_tail_is_waited_exactly() {
    let (mut w, _) = started(None, &settings(50, 50));
    let action = w.step(WorkerEvent::TimedOut { sinks_empty: false }, 19_900);
    assert_eq!(action, WorkerAction::Wait { timeout_ms: 100 });
}
