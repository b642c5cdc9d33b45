//! The session state machine: which screen is active, the alternation
//! between the main phase and the break phase with an audio-notification
//! interlude in between, the settings screen's duration and path edits,
//! and the transient status message.
//!
//! One `step_frame` call corresponds to one redraw of the timer screens;
//! the rendering surface itself, and the audio playback requested through
//! `NotifyAction`, live outside the library.

use vstd::prelude::*;
use crate::audio::{AudioError, AudioMaster, load_error_message};
use crate::ticker::ProgressTracker;

verus! {

/// Upper bound of the main-phase duration slider, in seconds.
pub const MAIN_DURATION_MAX: u32 = 600;

/// Upper bound of the break-phase duration slider, in seconds.
pub const BREAK_DURATION_MAX: u32 = 180;

/// How long a status message stays on the settings screen before it is
/// dismissed, in milliseconds.
pub const MESSAGE_LINGER_MS: u64 = 3000;

/// Status message shown after a commit attempt with an unchanged path.
pub open spec fn path_unchanged_message() -> Seq<char> {
    "The path is the same..."@
}

/// Status message shown after a successful path commit.
pub open spec fn changes_applied_message() -> Seq<char> {
    "Changes were applied"@
}

/// Which screen the session is on. `AudioNotify` is the transient
/// notification interlude between two timed phases.
#[derive(Clone, Copy, Debug, PartialEq, Eq, Structural)]
pub enum SessionState {
    MainTimer,
    Settings,
    Break,
    AudioNotify,
}

/// What the caller must do after a frame step: play the clip of the
/// phase that just completed.
#[derive(Clone, Copy, Debug, PartialEq, Eq, Structural)]
pub enum NotifyAction {
    PlayMainClip,
    PlayBreakClip,
}

/// The durations edited on the settings screen, and the timed phase to
/// return to when that screen is closed.
#[derive(Clone, Copy, Debug, PartialEq, Eq, Structural)]
pub struct Settings {
    pub main_duration: u32,
    pub break_duration: u32,
    pub prev_phase: SessionState,
}

/// A transient status message and the wall-clock reading at which it was
/// posted.
pub struct Notice {
    pub text: String,
    pub posted_at_ms: u64,
}

/// The whole session: current screen, the phase that follows the next
/// notification, settings, phase progress, status message, and the
/// notification clips.
pub struct SessionMachine {
    pub state: SessionState,
    pub next_phase: SessionState,
    pub settings: Settings,
    pub tracker: ProgressTracker,
    pub message: Option<Notice>,
    pub audio: AudioMaster,
}

impl SessionMachine {
    /// Well-formedness: durations stay in their slider ranges, the
    /// remembered phases are timed phases, and the tick counter never
    /// runs further than one tick past the largest possible duration.
    pub open spec fn wf(self) -> bool {
        &&& self.settings.main_duration <= MAIN_DURATION_MAX
        &&& self.settings.break_duration <= BREAK_DURATION_MAX
        &&& (self.settings.prev_phase is MainTimer || self.settings.prev_phase is Break)
        &&& (self.next_phase is MainTimer || self.next_phase is Break)
        &&& self.tracker.elapsed_ticks <= MAIN_DURATION_MAX + 1
    }

    /// All fields except the status message agree.
    pub open spec fn same_but_message(pre: SessionMachine, post: SessionMachine) -> bool {
        &&& post.state == pre.state
        &&& post.next_phase == pre.next_phase
        &&& post.settings == pre.settings
        &&& post.tracker == pre.tracker
        &&& post.audio == pre.audio
    }

    /// All fields except the status message and the audio clips agree.
    pub open spec fn same_but_message_and_audio(pre: SessionMachine, post: SessionMachine) -> bool {
        &&& post.state == pre.state
        &&& post.next_phase == pre.next_phase
        &&& post.settings == pre.settings
        &&& post.tracker == pre.tracker
    }

    /// The machine and the playback request produced by one frame of the
    /// redraw loop at wall-clock reading `now_ms`.
    ///
    /// On a timer screen the tracker ticks, and once `elapsed_ticks`
    /// exceeds the phase's duration the counter resets and the session
    /// enters the notification interlude, remembering the other phase as
    /// the one to enter next. The interlude requests the completed
    /// phase's clip and moves on. The settings screen neither ticks nor
    /// transitions on its own.
    pub open spec fn spec_step(m: SessionMachine, now_ms: u64) -> (SessionMachine, Option<
        NotifyAction,
    >) {
        match m.state {
            SessionState::MainTimer => {
                let t = m.tracker.spec_tick(now_ms);
                if t.elapsed_ticks > m.settings.main_duration {
                    (
                        SessionMachine {
                            state: SessionState::AudioNotify,
                            next_phase: SessionState::Break,
                            tracker: ProgressTracker {
                                elapsed_ticks: 0,
                                last_update_ms: t.last_update_ms,
                            },
                            ..m
                        },
                        None,
                    )
                } else {
                    (SessionMachine { tracker: t, ..m }, None)
                }
            },
            SessionState::Break => {
                let t = m.tracker.spec_tick(now_ms);
                if t.elapsed_ticks > m.settings.break_duration {
                    (
                        SessionMachine {
                            state: SessionState::AudioNotify,
                            next_phase: SessionState::MainTimer,
                            tracker: ProgressTracker {
                                elapsed_ticks: 0,
                                last_update_ms: t.last_update_ms,
                            },
                            ..m
                        },
                        None,
                    )
                } else {
                    (SessionMachine { tracker: t, ..m }, None)
                }
            },
            SessionState::AudioNotify => {
                if m.next_phase is Break {
                    // the main phase just completed: announce it, then take the break
                    (
                        SessionMachine { state: SessionState::Break, ..m },
                        Some(NotifyAction::PlayMainClip),
                    )
                } else {
                    (
                        SessionMachine { state: SessionState::MainTimer, ..m },
                        Some(NotifyAction::PlayBreakClip),
                    )
                }
            },
            SessionState::Settings => (m, None),
        }
    }

    /// A fresh session: on the main timer screen with a 10-second main
    /// phase and a 5-second break ahead, no ticks counted, no message.
    pub fn new(now_ms: u64) -> (r: SessionMachine)
        ensures
            r.wf(),
            r.state is MainTimer,
            r.next_phase is Break,
            r.settings.main_duration == 10,
            r.settings.break_duration == 5,
            r.settings.prev_phase is MainTimer,
            r.tracker.elapsed_ticks == 0,
            r.tracker.last_update_ms == now_ms,
            r.message is None,
            r.audio.main_audio.audio_path@ == crate::audio::default_main_audio_path(),
            r.audio.main_audio.audio_data.source_path@ == crate::audio::default_main_audio_path(),
            r.audio.break_audio.audio_path@ == crate::audio::default_break_audio_path(),
            r.audio.break_audio.audio_data.source_path@ == crate::audio::default_break_audio_path(),
    {
        SessionMachine {
            state: SessionState::MainTimer,
            next_phase: SessionState::Break,
            settings: Settings {
                main_duration: 10,
                break_duration: 5,
                prev_phase: SessionState::MainTimer,
            },
            tracker: ProgressTracker::new(now_ms),
            message: None,
            audio: AudioMaster::default(),
        }
    }

    /// Advance the session by one frame of the redraw loop.
    pub fn step_frame(&mut self, now_ms: u64) -> (r: Option<NotifyAction>)
        requires
            old(self).wf(),
            now_ms >= old(self).tracker.last_update_ms,
        ensures
            final(self).wf(),
            (*final(self), r) == Self::spec_step(*old(self), now_ms),
    {
        match self.state {
            SessionState::MainTimer => {
                self.tracker.tick(now_ms);
                if self.tracker.elapsed_ticks > self.settings.main_duration {
                    self.tracker.reset();
                    self.state = SessionState::AudioNotify;
                    self.next_phase = SessionState::Break;
                }
                None
            },
            SessionState::Break => {
                self.tracker.tick(now_ms);
                if self.tracker.elapsed_ticks > self.settings.break_duration {
                    self.tracker.reset();
                    self.state = SessionState::AudioNotify;
                    self.next_phase = SessionState::MainTimer;
                }
                None
            },
            SessionState::AudioNotify => {
                if self.next_phase == SessionState::Break {
                    self.state = SessionState::Break;
                    Some(NotifyAction::PlayMainClip)
                } else {
                    self.state = SessionState::MainTimer;
                    Some(NotifyAction::PlayBreakClip)
                }
            },
            SessionState::Settings => Option::None,
        }
    }

    /// Strict phase alternation out of the main timer: once the tick
    /// count passes the main duration, the session enters the
    /// notification interlude with the break phase ahead, and the
    /// following step announces the completed main phase and renders the
    /// break — never the main timer again.
    pub proof fn lemma_phase_alternation_main(m: SessionMachine, n1: u64, n2: u64)
        requires
            m.wf(),
            m.state is MainTimer,
            m.tracker.spec_tick(n1).elapsed_ticks > m.settings.main_duration,
        ensures
            Self::spec_step(m, n1).0.state is AudioNotify,
            Self::spec_step(m, n1).0.next_phase is Break,
            Self::spec_step(Self::spec_step(m, n1).0, n2).0.state is Break,
            Self::spec_step(Self::spec_step(m, n1).0, n2).1 == Some(NotifyAction::PlayMainClip),
    {
    }

    /// Strict phase alternation out of the break: once the tick count
    /// passes the break duration, the notification interlude follows
    /// with the main phase ahead, and the step after it announces the
    /// completed break and renders the main timer — never the break
    /// again.
    pub proof fn lemma_phase_alternation_break(m: SessionMachine, n1: u64, n2: u64)
        requires
            m.wf(),
            m.state is Break,
            m.tracker.spec_tick(n1).elapsed_ticks > m.settings.break_duration,
        ensures
            Self::spec_step(m, n1).0.state is AudioNotify,
            Self::spec_step(m, n1).0.next_phase is MainTimer,
            Self::spec_step(Self::spec_step(m, n1).0, n2).0.state is MainTimer,
            Self::spec_step(Self::spec_step(m, n1).0, n2).1 == Some(NotifyAction::PlayBreakClip),
    {
    }

    /// "Go to Settings" from a timer screen: remember the phase to come
    /// back to, stage both audio paths into their edit buffers, and show
    /// the settings screen. Progress and message are untouched.
    pub fn go_to_settings(&mut self)
        requires
            old(self).wf(),
            old(self).state is MainTimer || old(self).state is Break,
        ensures
            final(self).wf(),
            final(self).state is Settings,
            final(self).settings.prev_phase == old(self).state,
            final(self).settings.main_duration == old(self).settings.main_duration,
            final(self).settings.break_duration == old(self).settings.break_duration,
            final(self).next_phase == old(self).next_phase,
            final(self).tracker == old(self).tracker,
            final(self).message == old(self).message,
            final(self).audio.main_audio.audio_path == old(self).audio.main_audio.audio_path,
            final(self).audio.main_audio.audio_path_int@ == old(self).audio.main_audio.audio_path@,
            final(self).audio.main_audio.audio_data == old(self).audio.main_audio.audio_data,
            final(self).audio.break_audio.audio_path == old(self).audio.break_audio.audio_path,
            final(self).audio.break_audio.audio_path_int@ == old(
                self,
            ).audio.break_audio.audio_path@,
            final(self).audio.break_audio.audio_data == old(self).audio.break_audio.audio_data,
    {
        self.audio.pre_settings_phase();
        self.settings.prev_phase = self.state;
        self.state = SessionState::Settings;
    }

    /// "Back" on the settings screen: return to the remembered timed
    /// phase; everything else stays as the settings screen left it.
    pub fn back_from_settings(&mut self)
        requires
            old(self).wf(),
            old(self).state is Settings,
        ensures
            final(self).wf(),
            final(self).state == old(self).settings.prev_phase,
            final(self).settings == old(self).settings,
            final(self).next_phase == old(self).next_phase,
            final(self).tracker == old(self).tracker,
            final(self).message == old(self).message,
            final(self).audio == old(self).audio,
    {
        self.state = self.settings.prev_phase;
    }

    /// Set the main-phase duration from its slider.
    pub fn set_main_duration(&mut self, secs: u32)
        requires
            old(self).wf(),
            secs <= MAIN_DURATION_MAX,
        ensures
            final(self).wf(),
            final(self).settings.main_duration == secs,
            final(self).settings.break_duration == old(self).settings.break_duration,
            final(self).settings.prev_phase == old(self).settings.prev_phase,
            final(self).state == old(self).state,
            final(self).next_phase == old(self).next_phase,
            final(self).tracker == old(self).tracker,
            final(self).message == old(self).message,
            final(self).audio == old(self).audio,
    {
        self.settings.main_duration = secs;
    }

    /// Set the break-phase duration from its slider.
    pub fn set_break_duration(&mut self, secs: u32)
        requires
            old(self).wf(),
            secs <= BREAK_DURATION_MAX,
        ensures
            final(self).wf(),
            final(self).settings.break_duration == secs,
            final(self).settings.main_duration == old(self).settings.main_duration,
            final(self).settings.prev_phase == old(self).settings.prev_phase,
            final(self).state == old(self).state,
            final(self).next_phase == old(self).next_phase,
            final(self).tracker == old(self).tracker,
            final(self).message == old(self).message,
            final(self).audio == old(self).audio,
    {
        self.settings.break_duration = secs;
    }

    /// "Save" for the main-audio path, first half. When the staged edit
    /// equals the active path nothing is committed and no decode is
    /// asked for: the machine only posts the path-unchanged message.
    /// Otherwise nothing changes yet and the staged path is handed back
    /// for the caller to decode and pass to `finish_main_path_save`.
    pub fn begin_main_path_save(&mut self, now_ms: u64) -> (r: Option<String>)
        ensures
            old(self).audio.main_audio.audio_path_int@ == old(self).audio.main_audio.audio_path@
                ==> {
                &&& r is None
                &&& Self::same_but_message(*old(self), *final(self))
                &&& final(self).message matches Some(n) && n.text@ == path_unchanged_message()
                    && n.posted_at_ms == now_ms
            },
            old(self).audio.main_audio.audio_path_int@ != old(self).audio.main_audio.audio_path@
                ==> {
                &&& *final(self) == *old(self)
                &&& r matches Some(p) && p@ == old(self).audio.main_audio.audio_path_int@
            },
    {
        if self.audio.main_audio.staged_differs() {
            Some(self.audio.main_audio.audio_path_int.clone())
        } else {
            self.message = Some(
                Notice { text: "The path is the same...".to_owned(), posted_at_ms: now_ms },
            );
            Option::None
        }
    }

    /// "Save" for the main-audio path, second half: commit the staged
    /// path given the outcome of decoding it. On success the staged path
    /// becomes the active main clip and a confirmation message is
    /// posted; on failure the active clip stays exactly as it was and
    /// both the message and the returned error name the path that
    /// failed. The break clip is untouched either way.
    pub fn finish_main_path_save(&mut self, decode_ok: bool, now_ms: u64) -> (r: Result<
        (),
        AudioError,
    >)
        ensures
            Self::same_but_message_and_audio(*old(self), *final(self)),
            final(self).audio.break_audio == old(self).audio.break_audio,
            decode_ok ==> {
                &&& final(self).audio.main_audio.audio_path == old(
                    self,
                ).audio.main_audio.audio_path_int
                &&& final(self).audio.main_audio.audio_path_int == old(
                    self,
                ).audio.main_audio.audio_path_int
                &&& final(self).audio.main_audio.audio_data.source_path == old(
                    self,
                ).audio.main_audio.audio_path_int
                &&& r is Ok
                &&& final(self).message matches Some(n) && n.text@ == changes_applied_message()
                    && n.posted_at_ms == now_ms
            },
            !decode_ok ==> {
                &&& final(self).audio.main_audio == old(self).audio.main_audio
                &&& r matches Err(e) && e.message@ == load_error_message(
                    old(self).audio.main_audio.audio_path_int@,
                )
                &&& final(self).message matches Some(n) && n.text@ == load_error_message(
                    old(self).audio.main_audio.audio_path_int@,
                ) && n.posted_at_ms == now_ms
            },
    {
        let result = self.audio.set_main_audio_path(decode_ok);
        match result {
            Ok(()) => {
                self.message = Some(
                    Notice { text: "Changes were applied".to_owned(), posted_at_ms: now_ms },
                );
                Ok(())
            },
            Err(err) => {
                self.message = Some(
                    Notice { text: err.message.clone(), posted_at_ms: now_ms },
                );
                Err(err)
            },
        }
    }

    /// "Save" for the break-audio path, first half; as for the main
    /// clip.
    pub fn begin_break_path_save(&mut self, now_ms: u64) -> (r: Option<String>)
        ensures
            old(self).audio.break_audio.audio_path_int@ == old(self).audio.break_audio.audio_path@
                ==> {
                &&& r is None
                &&& Self::same_but_message(*old(self), *final(self))
                &&& final(self).message matches Some(n) && n.text@ == path_unchanged_message()
                    && n.posted_at_ms == now_ms
            },
            old(self).audio.break_audio.audio_path_int@ != old(self).audio.break_audio.audio_path@
                ==> {
                &&& *final(self) == *old(self)
                &&& r matches Some(p) && p@ == old(self).audio.break_audio.audio_path_int@
            },
    {
        if self.audio.break_audio.staged_differs() {
            Some(self.audio.break_audio.audio_path_int.clone())
        } else {
            self.message = Some(
                Notice { text: "The path is the same...".to_owned(), posted_at_ms: now_ms },
            );
            Option::None
        }
    }

    /// "Save" for the break-audio path, second half; as for the main
    /// clip, with the main clip untouched either way.
    pub fn finish_break_path_save(&mut self, decode_ok: bool, now_ms: u64) -> (r: Result<
        (),
        AudioError,
    >)
        ensures
            Self::same_but_message_and_audio(*old(self), *final(self)),
            final(self).audio.main_audio == old(self).audio.main_audio,
            decode_ok ==> {
                &&& final(self).audio.break_audio.audio_path == old(
                    self,
                ).audio.break_audio.audio_path_int
                &&& final(self).audio.break_audio.audio_path_int == old(
                    self,
                ).audio.break_audio.audio_path_int
                &&& final(self).audio.break_audio.audio_data.source_path == old(
                    self,
                ).audio.break_audio.audio_path_int
                &&& r is Ok
                &&& final(self).message matches Some(n) && n.text@ == changes_applied_message()
                    && n.posted_at_ms == now_ms
            },
            !decode_ok ==> {
                &&& final(self).audio.break_audio == old(self).audio.break_audio
                &&& r matches Err(e) && e.message@ == load_error_message(
                    old(self).audio.break_audio.audio_path_int@,
                )
                &&& final(self).message matches Some(n) && n.text@ == load_error_message(
                    old(self).audio.break_audio.audio_path_int@,
                ) && n.posted_at_ms == now_ms
            },
    {
        let result = self.audio.set_break_audio_path(decode_ok);
        match result {
            Ok(()) => {
                self.message = Some(
                    Notice { text: "Changes were applied".to_owned(), posted_at_ms: now_ms },
                );
                Ok(())
            },
            Err(err) => {
                self.message = Some(
                    Notice { text: err.message.clone(), posted_at_ms: now_ms },
                );
                Err(err)
            },
        }
    }

    /// The status message to render at `now_ms`, if any. A message
    /// posted less than `MESSAGE_LINGER_MS` milliseconds ago is shown;
    /// an older one is dismissed (cleared) and nothing is shown.
    pub fn current_message(&mut self, now_ms: u64) -> (r: Option<String>)
        ensures
            old(self).message is None ==> r is None && *final(self) == *old(self),
            old(self).message matches Some(n) && now_ms < n.posted_at_ms + MESSAGE_LINGER_MS ==> {
                &&& r matches Some(t) && t@ == old(self).message->Some_0.text@
                &&& *final(self) == *old(self)
            },
            old(self).message matches Some(n) && now_ms >= n.posted_at_ms + MESSAGE_LINGER_MS ==> {
                &&& r is None
                &&& final(self).message is None
                &&& Self::same_but_message(*old(self), *final(self))
            },
    {
        match &self.message {
            Option::None => Option::None,
            Some(n) => {
                if now_ms >= n.posted_at_ms && now_ms - n.posted_at_ms >= MESSAGE_LINGER_MS {
                    self.message = Option::None;
                    Option::None
                } else {
                    Some(n.text.clone())
                }
            },
        }
    }
}

} // verus!
