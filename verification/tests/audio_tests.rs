use rustick::audio::{AudioMaster, CustomAudio};

#[test]
fn new_clip_starts_with_empty_edit_buffer() {
    let clip = CustomAudio::new("a.mp3".to_string());
    assert_eq!(clip.audio_path, "a.mp3");
    assert_eq!(clip.audio_path_int, "");
    assert_eq!(clip.audio_data.source_path, "a.mp3");
}

#[test]
fn staging_does_not_touch_the_active_clip() {
    let mut clip = CustomAudio::new("a.mp3".to_string());
    clip.stage_path_edit("b.mp3".to_string());
    assert_eq!(clip.audio_path_int, "b.mp3");
    assert_eq!(clip.audio_path, "a.mp3");
    assert_eq!(clip.audio_data.source_path, "a.mp3");
    assert!(clip.staged_differs());
    clip.stage_current_path();
    assert_eq!(clip.audio_path_int, "a.mp3");
    assert!(!clip.staged_differs());
}

#[test]
fn commit_success_replaces_path_and_data() {
    let mut clip = CustomAudio::new("a.mp3".to_string());
    clip.stage_path_edit("b.mp3".to_string());
    let r = clip.apply_commit(true);
    assert!(r.is_ok());
    assert_eq!(clip.audio_path, "b.mp3");
    assert_eq!(clip.audio_data.source_path, "b.mp3");
}

#[test]
fn commit_failure_leaves_clip_untouched() {
    let mut clip = CustomAudio::new("a.mp3".to_string());
    clip.stage_path_edit("missing.mp3".to_string());
    let err = clip.apply_commit(false).expect_err("failed decode");
    assert_eq!(err.message, "could not load audio file: \"missing.mp3\"");
    assert_eq!(clip.audio_path, "a.mp3");
    assert_eq!(clip.audio_path_int, "missing.mp3");
    assert_eq!(clip.audio_data.source_path, "a.mp3");
}

#[test]
fn master_commits_touch_only_their_own_clip() {
    let mut master = AudioMaster::default();
    master.pre_settings_phase();
    assert_eq!(master.main_audio.audio_path_int, master.main_audio.audio_path);
    assert_eq!(master.break_audio.audio_path_int, master.break_audio.audio_path);

    master.main_audio.stage_path_edit("m.mp3".to_string());
    let break_before = master.break_audio.audio_path.clone();
    assert!(master.set_main_audio_path(true).is_ok());
    assert_eq!(master.main_audio.audio_path, "m.mp3");
    assert_eq!(master.break_audio.audio_path, break_before);

    master.break_audio.stage_path_edit("b.mp3".to_string());
    assert!(master.set_break_audio_path(true).is_ok());
    assert_eq!(master.break_audio.audio_path, "b.mp3");
    assert_eq!(master.main_audio.audio_path, "m.mp3");
}
