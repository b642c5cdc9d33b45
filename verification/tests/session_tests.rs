use rustick::session::{NotifyAction, SessionMachine, SessionState};

const MAIN_PATH: &str = "public/new-notification-014-363678.mp3";
const BREAK_PATH: &str = "public/snd_fragment_retrievewav-14728.mp3";

#[test]
fn new_session_defaults() {
    let m = SessionMachine::new(0);
    assert_eq!(m.state, SessionState::MainTimer);
    assert_eq!(m.next_phase, SessionState::Break);
    assert_eq!(m.settings.main_duration, 10);
    assert_eq!(m.settings.break_duration, 5);
    assert_eq!(m.settings.prev_phase, SessionState::MainTimer);
    assert_eq!(m.tracker.elapsed_ticks, 0);
    assert!(m.message.is_none());
    assert_eq!(m.audio.main_audio.audio_path, MAIN_PATH);
    assert_eq!(m.audio.main_audio.audio_data.source_path, MAIN_PATH);
    assert_eq!(m.audio.break_audio.audio_path, BREAK_PATH);
    assert_eq!(m.audio.break_audio.audio_data.source_path, BREAK_PATH);
}

/// Drive the machine with one frame per second until it leaves `phase`,
/// returning the action produced by the step that leaves it.
fn run_phase_to_completion(
    m: &mut SessionMachine,
    phase: SessionState,
    now_ms: &mut u64,
) -> Option<NotifyAction> {
    for _ in 0..2000 {
        assert_eq!(m.state, phase);
        *now_ms += 1000;
        let action = m.step_frame(*now_ms);
        if m.state != phase {
            return action;
        }
        assert!(action.is_none());
    }
    panic!("phase did not complete");
}

#[test]
fn phases_alternate_strictly() {
    let mut m = SessionMachine::new(0);
    let mut now_ms: u64 = 0;

    // Main phase runs its 10 seconds, then the notification interlude.
    let a = run_phase_to_completion(&mut m, SessionState::MainTimer, &mut now_ms);
    assert!(a.is_none());
    assert_eq!(m.state, SessionState::AudioNotify);
    assert_eq!(m.next_phase, SessionState::Break);
    assert_eq!(m.tracker.elapsed_ticks, 0);

    // The interlude announces the completed main phase and starts the break.
    let a = m.step_frame(now_ms);
    assert_eq!(a, Some(NotifyAction::PlayMainClip));
    assert_eq!(m.state, SessionState::Break);

    // The break runs its 5 seconds, then the interlude again.
    let a = run_phase_to_completion(&mut m, SessionState::Break, &mut now_ms);
    assert!(a.is_none());
    assert_eq!(m.state, SessionState::AudioNotify);
    assert_eq!(m.next_phase, SessionState::MainTimer);

    // And back to the main timer: never two breaks or two mains in a row.
    let a = m.step_frame(now_ms);
    assert_eq!(a, Some(NotifyAction::PlayBreakClip));
    assert_eq!(m.state, SessionState::MainTimer);
}

#[test]
fn main_phase_completes_after_duration_exceeded() {
    let mut m = SessionMachine::new(0);
    let mut now_ms: u64 = 0;
    // 10 accepted ticks reach the duration without exceeding it.
    for _ in 0..10 {
        now_ms += 1000;
        let a = m.step_frame(now_ms);
        assert!(a.is_none());
        assert_eq!(m.state, SessionState::MainTimer);
    }
    assert_eq!(m.tracker.elapsed_ticks, 10);
    // The 11th tick exceeds it: the interlude begins, progress resets.
    now_ms += 1000;
    let a = m.step_frame(now_ms);
    assert!(a.is_none());
    assert_eq!(m.state, SessionState::AudioNotify);
    assert_eq!(m.tracker.elapsed_ticks, 0);
}

#[test]
fn settings_screen_does_not_tick() {
    let mut m = SessionMachine::new(0);
    m.go_to_settings();
    assert_eq!(m.state, SessionState::Settings);
    for i in 1..=20u64 {
        let a = m.step_frame(i * 1000);
        assert!(a.is_none());
        assert_eq!(m.state, SessionState::Settings);
        assert_eq!(m.tracker.elapsed_ticks, 0);
    }
}

#[test]
fn go_to_settings_stages_paths_and_back_restores_phase() {
    let mut m = SessionMachine::new(0);
    m.go_to_settings();
    assert_eq!(m.state, SessionState::Settings);
    assert_eq!(m.settings.prev_phase, SessionState::MainTimer);
    assert_eq!(m.audio.main_audio.audio_path_int, MAIN_PATH);
    assert_eq!(m.audio.break_audio.audio_path_int, BREAK_PATH);
    m.back_from_settings();
    assert_eq!(m.state, SessionState::MainTimer);
}

#[test]
fn back_from_settings_restores_break() {
    let mut m = SessionMachine::new(0);
    // Walk the machine into the break phase first.
    let mut now_ms: u64 = 0;
    let _ = run_phase_to_completion(&mut m, SessionState::MainTimer, &mut now_ms);
    let _ = m.step_frame(now_ms);
    assert_eq!(m.state, SessionState::Break);
    m.go_to_settings();
    assert_eq!(m.settings.prev_phase, SessionState::Break);
    m.back_from_settings();
    assert_eq!(m.state, SessionState::Break);
}

#[test]
fn duration_sliders_update_settings() {
    let mut m = SessionMachine::new(0);
    m.set_main_duration(600);
    m.set_break_duration(180);
    assert_eq!(m.settings.main_duration, 600);
    assert_eq!(m.settings.break_duration, 180);
}

#[test]
fn save_with_unchanged_path_posts_message_and_commits_nothing() {
    let mut m = SessionMachine::new(0);
    m.go_to_settings();
    // The staged edit equals the active path: no decode is asked for.
    let to_decode = m.begin_main_path_save(1000);
    assert!(to_decode.is_none());
    let notice = m.message.as_ref().expect("a message is posted");
    assert_eq!(notice.text, "The path is the same...");
    assert_eq!(notice.posted_at_ms, 1000);
    assert_eq!(m.audio.main_audio.audio_path, MAIN_PATH);
    assert_eq!(m.audio.main_audio.audio_data.source_path, MAIN_PATH);
}

#[test]
fn save_with_new_path_commits_on_successful_decode() {
    let mut m = SessionMachine::new(0);
    m.go_to_settings();
    m.audio.main_audio.stage_path_edit("other.mp3".to_string());
    let to_decode = m.begin_main_path_save(1000);
    assert_eq!(to_decode.as_deref(), Some("other.mp3"));
    let r = m.finish_main_path_save(true, 1200);
    assert!(r.is_ok());
    assert_eq!(m.audio.main_audio.audio_path, "other.mp3");
    assert_eq!(m.audio.main_audio.audio_data.source_path, "other.mp3");
    let notice = m.message.as_ref().expect("a message is posted");
    assert_eq!(notice.text, "Changes were applied");
    // The break clip is untouched.
    assert_eq!(m.audio.break_audio.audio_path, BREAK_PATH);
}

#[test]
fn save_with_undecodable_path_keeps_clip_and_names_path() {
    let mut m = SessionMachine::new(0);
    m.go_to_settings();
    m.audio.main_audio.stage_path_edit("no-such-file.mp3".to_string());
    let to_decode = m.begin_main_path_save(1000);
    assert_eq!(to_decode.as_deref(), Some("no-such-file.mp3"));
    let r = m.finish_main_path_save(false, 1200);
    let err = r.expect_err("a failed decode is an error");
    assert_eq!(err.message, "could not load audio file: \"no-such-file.mp3\"");
    // The previously active clip is intact.
    assert_eq!(m.audio.main_audio.audio_path, MAIN_PATH);
    assert_eq!(m.audio.main_audio.audio_data.source_path, MAIN_PATH);
    let notice = m.message.as_ref().expect("a message is posted");
    assert_eq!(notice.text, "could not load audio file: \"no-such-file.mp3\"");
}

#[test]
fn break_path_save_mirrors_main_path_save() {
    let mut m = SessionMachine::new(0);
    m.go_to_settings();
    let unchanged = m.begin_break_path_save(500);
    assert!(unchanged.is_none());
    assert_eq!(m.message.as_ref().unwrap().text, "The path is the same...");

    m.audio.break_audio.stage_path_edit("clang.mp3".to_string());
    let to_decode = m.begin_break_path_save(600);
    assert_eq!(to_decode.as_deref(), Some("clang.mp3"));
    let r = m.finish_break_path_save(false, 700);
    assert_eq!(
        r.expect_err("failed decode").message,
        "could not load audio file: \"clang.mp3\""
    );
    assert_eq!(m.audio.break_audio.audio_path, BREAK_PATH);

    let r = m.finish_break_path_save(true, 800);
    assert!(r.is_ok());
    assert_eq!(m.audio.break_audio.audio_path, "clang.mp3");
    assert_eq!(m.audio.break_audio.audio_data.source_path, "clang.mp3");
    assert_eq!(m.audio.main_audio.audio_path, MAIN_PATH);
}

#[test]
fn message_is_dismissed_after_linger_time() {
    let mut m = SessionMachine::new(0);
    m.go_to_settings();
    let _ = m.begin_main_path_save(1000);
    // Shown while fresh.
    assert_eq!(m.current_message(1001).as_deref(), Some("The path is the same..."));
    assert_eq!(m.current_message(3999).as_deref(), Some("The path is the same..."));
    // Dismissed once 3000 ms have passed, and gone for good.
    assert!(m.current_message(4000).is_none());
    assert!(m.message.is_none());
    assert!(m.current_message(4001).is_none());
}
