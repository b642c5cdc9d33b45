//! Notification-sound bookkeeping: the active and staged audio file path
//! of each clip, and the rules for committing a staged path edit.
//!
//! The decoded sample data itself is an opaque handle owned by the audio
//! backend outside the library; here a clip is modelled by the path its
//! data was decoded from. The caller performs the actual decode and hands
//! the outcome in as a boolean, so every branch of the commit logic is
//! verified for both outcomes.

use vstd::prelude::*;
use vstd::string::StringExecFns;

verus! {

/// Path of the clip played when the main phase completes, decoded once at
/// application start.
pub open spec fn default_main_audio_path() -> Seq<char> {
    "public/new-notification-014-363678.mp3"@
}

/// Path of the clip played when the break phase completes, decoded once
/// at application start.
pub open spec fn default_break_audio_path() -> Seq<char> {
    "public/snd_fragment_retrievewav-14728.mp3"@
}

/// The message of the error returned when the file at `path` cannot be
/// opened or decoded.
pub open spec fn load_error_message(path: Seq<char>) -> Seq<char> {
    "could not load audio file: \""@ + path + "\""@
}

/// Error raised when an audio file cannot be opened or decoded.
#[derive(Debug)]
pub struct AudioError {
    pub message: String,
}

/// The active decoded clip, modelled by the path its sample data came
/// from. The samples live with the audio backend outside the library and
/// are replaced wholesale exactly when `source_path` changes.
pub struct ClipData {
    pub source_path: String,
}

/// One notification clip: the active path, the staged edit buffer shown
/// on the settings screen, and the active decoded data.
pub struct CustomAudio {
    pub audio_path: String,
    pub audio_path_int: String,
    pub audio_data: ClipData,
}

impl CustomAudio {
    /// A clip whose data was just decoded from `path`; the edit buffer
    /// starts empty.
    pub fn new(path: String) -> (r: CustomAudio)
        ensures
            r.audio_path@ == path@,
            r.audio_path_int@ == Seq::<char>::empty(),
            r.audio_data.source_path@ == path@,
    {
        let source = path.clone();
        CustomAudio {
            audio_path: path,
            audio_path_int: String::new(),
            audio_data: ClipData { source_path: source },
        }
    }

    /// Copy the active path into the edit buffer, so that a settings
    /// screen starts from the current value.
    pub fn stage_current_path(&mut self)
        ensures
            final(self).audio_path_int@ == old(self).audio_path@,
            final(self).audio_path == old(self).audio_path,
            final(self).audio_data == old(self).audio_data,
    {
        self.audio_path_int = self.audio_path.clone();
    }

    /// Record `new_path` as the staged edit, leaving the active path and
    /// the active clip untouched until a commit.
    pub fn stage_path_edit(&mut self, new_path: String)
        ensures
            final(self).audio_path_int == new_path,
            final(self).audio_path == old(self).audio_path,
            final(self).audio_data == old(self).audio_data,
    {
        self.audio_path_int = new_path;
    }

    /// Whether the staged edit differs from the active path, i.e. whether
    /// committing it would have to decode the staged file at all.
    pub fn staged_differs(&self) -> (r: bool)
        ensures
            r == (self.audio_path_int@ != self.audio_path@),
    {
        self.audio_path_int != self.audio_path
    }

    /// Apply the outcome of decoding the staged path. On success the
    /// staged path becomes the active one and the active clip is replaced
    /// by the freshly decoded data; on failure the clip is left exactly
    /// as it was and the error names the path that failed.
    pub fn apply_commit(&mut self, decode_ok: bool) -> (r: Result<(), AudioError>)
        ensures
            decode_ok ==> {
                &&& final(self).audio_path == old(self).audio_path_int
                &&& final(self).audio_path_int == old(self).audio_path_int
                &&& final(self).audio_data.source_path == old(self).audio_path_int
                &&& r is Ok
            },
            !decode_ok ==> {
                &&& *final(self) == *old(self)
                &&& r matches Err(e) && e.message@ == load_error_message(
                    old(self).audio_path_int@,
                )
            },
    {
        if decode_ok {
            self.audio_path = self.audio_path_int.clone();
            self.audio_data = ClipData { source_path: self.audio_path_int.clone() };
            Ok(())
        } else {
            let mut message = "could not load audio file: \"".to_owned();
            message.append(self.audio_path_int.as_str());
            message.append("\"");
            Err(AudioError { message })
        }
    }
}

/// The two notification clips: one for the end of the main phase, one
/// for the end of the break phase.
pub struct AudioMaster {
    pub main_audio: CustomAudio,
    pub break_audio: CustomAudio,
}

impl Default for AudioMaster {
    /// Both clips start at their built-in default paths, with the active
    /// data regarded as decoded from those paths (the caller decodes them
    /// at construction and treats a failure there as fatal).
    fn default() -> (r: AudioMaster)
        ensures
            r.main_audio.audio_path@ == default_main_audio_path(),
            r.main_audio.audio_path_int@ == Seq::<char>::empty(),
            r.main_audio.audio_data.source_path@ == default_main_audio_path(),
            r.break_audio.audio_path@ == default_break_audio_path(),
            r.break_audio.audio_path_int@ == Seq::<char>::empty(),
            r.break_audio.audio_data.source_path@ == default_break_audio_path(),
    {
        AudioMaster {
            main_audio: CustomAudio::new("public/new-notification-014-363678.mp3".to_owned()),
            break_audio: CustomAudio::new("public/snd_fragment_retrievewav-14728.mp3".to_owned()),
        }
    }
}

impl AudioMaster {
    /// Entering the settings screen: stage both active paths into their
    /// edit buffers.
    pub fn pre_settings_phase(&mut self)
        ensures
            final(self).main_audio.audio_path_int@ == old(self).main_audio.audio_path@,
            final(self).main_audio.audio_path == old(self).main_audio.audio_path,
            final(self).main_audio.audio_data == old(self).main_audio.audio_data,
            final(self).break_audio.audio_path_int@ == old(self).break_audio.audio_path@,
            final(self).break_audio.audio_path == old(self).break_audio.audio_path,
            final(self).break_audio.audio_data == old(self).break_audio.audio_data,
    {
        self.main_audio.stage_current_path();
        self.break_audio.stage_current_path();
    }

    /// Commit the staged main-audio path given the outcome of decoding
    /// it; the break clip is untouched either way.
    pub fn set_main_audio_path(&mut self, decode_ok: bool) -> (r: Result<(), AudioError>)
        ensures
            final(self).break_audio == old(self).break_audio,
            decode_ok ==> {
                &&& final(self).main_audio.audio_path == old(self).main_audio.audio_path_int
                &&& final(self).main_audio.audio_path_int == old(self).main_audio.audio_path_int
                &&& final(self).main_audio.audio_data.source_path == old(
                    self,
                ).main_audio.audio_path_int
                &&& r is Ok
            },
            !decode_ok ==> {
                &&& final(self).main_audio == old(self).main_audio
                &&& r matches Err(e) && e.message@ == load_error_message(
                    old(self).main_audio.audio_path_int@,
                )
            },
    {
        self.main_audio.apply_commit(decode_ok)
    }

    /// Commit the staged break-audio path given the outcome of decoding
    /// it; the main clip is untouched either way.
    pub fn set_break_audio_path(&mut self, decode_ok: bool) -> (r: Result<(), AudioError>)
        ensures
            final(self).main_audio == old(self).main_audio,
            decode_ok ==> {
                &&& final(self).break_audio.audio_path == old(self).break_audio.audio_path_int
                &&& final(self).break_audio.audio_path_int == old(self).break_audio.audio_path_int
                &&& final(self).break_audio.audio_data.source_path == old(
                    self,
                ).break_audio.audio_path_int
                &&& r is Ok
            },
            !decode_ok ==> {
                &&& final(self).break_audio == old(self).break_audio
                &&& r matches Err(e) && e.message@ == load_error_message(
                    old(self).break_audio.audio_path_int@,
                )
            },
    {
        self.break_audio.apply_commit(decode_ok)
    }
}

} // verus!
