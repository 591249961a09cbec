//! Recording controller: the state machine that guards one recording
//! session at a time.
//!
//! The controller owns the transcript buffer and a model of the session
//! resources: whether a recognizer process and an audio stream are
//! live. The callers around the library perform the outside steps of a
//! transition (spawning the recognizer, opening the audio device,
//! killing the process, dropping the stream) and report their outcome;
//! the controller decides the transition, keeps the single-session
//! invariant, and tells the caller which resource to tear down, so that
//! no partially started session is ever observable.

use vstd::prelude::*;

use crate::transcript::TranscriptBuffer;
use crate::transcript::join_frags;

verus! {

/// The persisted states of the controller: transient start/stop
/// sub-steps are not states of their own.
#[derive(PartialEq, Eq, Structural, Clone, Copy, Debug)]
pub enum ControllerState {
    Idle,
    Recording,
}

/// Structured result of every host-facing command.
pub struct CommandResponse {
    pub success: bool,
    pub message: Option<String>,
    pub transcript: Option<String>,
    pub path: Option<String>,
    pub error: Option<String>,
}

/// A failed command that carries only a message.
pub open spec fn resp_failure_msg(r: CommandResponse, m: Seq<char>) -> bool {
    &&& !r.success
    &&& r.message matches Some(s) && s@ == m
    &&& r.transcript is None
    &&& r.path is None
    &&& r.error is None
}

/// A successful command that carries only a message.
pub open spec fn resp_success_msg(r: CommandResponse, m: Seq<char>) -> bool {
    &&& r.success
    &&& r.message matches Some(s) && s@ == m
    &&& r.transcript is None
    &&& r.path is None
    &&& r.error is None
}

/// A failed command that carries only an error description.
pub open spec fn resp_error(r: CommandResponse, e: Seq<char>) -> bool {
    &&& !r.success
    &&& r.message is None
    &&& r.transcript is None
    &&& r.path is None
    &&& r.error matches Some(s) && s@ == e
}

/// The controller with its session-resource model. `transcriber_live`
/// stands for a held recognizer handle (a live subprocess or a loaded
/// model), `stream_live` for a held audio stream handle.
pub struct RecordingController {
    pub state: ControllerState,
    pub transcriber_live: bool,
    pub stream_live: bool,
    pub transcript: TranscriptBuffer,
}

impl RecordingController {
    /// Single-session invariant: session resources are held exactly
    /// while a recording is in progress, and never only in part.
    pub open spec fn inv(self) -> bool {
        &&& self.transcriber_live == (self.state is Recording)
        &&& self.stream_live == (self.state is Recording)
    }

    /// A fresh controller: idle, no resources, empty transcript.
    pub fn new() -> (r: Self)
        ensures
            r.inv(),
            r.state is Idle,
            !r.transcriber_live,
            !r.stream_live,
            r.transcript@ == Seq::<Seq<char>>::empty(),
    {
        RecordingController {
            state: ControllerState::Idle,
            transcriber_live: false,
            stream_live: false,
            transcript: TranscriptBuffer::new(),
        }
    }

    /// First step of `start`: rejects a second session. Returns the
    /// `AlreadyRecording` response exactly when a recording is already
    /// in progress; the caller must then acquire nothing. Takes the
    /// controller immutably, so a rejected `start` has no side effect
    /// and the running session is unaffected.
    pub fn start_begin(&self) -> (r: Option<CommandResponse>)
        ensures
            r is Some <==> self.state is Recording,
            self.state is Recording ==> resp_failure_msg(r->0, "Already recording"@),
    {
        match self.state {
            ControllerState::Recording => Some(
                CommandResponse {
                    success: false,
                    message: Some("Already recording".to_owned()),
                    transcript: None,
                    path: None,
                    error: None,
                },
            ),
            ControllerState::Idle => None,
        }
    }

    /// Second step of `start`: the caller reports whether the
    /// recognizer spawn and then the audio-device open succeeded
    /// (`device_ok` is meaningful only when `spawn_ok` holds, since the
    /// device step runs after a successful spawn). The returned flag
    /// directs the caller to kill the recognizer it spawned: exactly
    /// when the device step failed after a successful spawn, so a
    /// failed `start` leaves no recognizer process running and the
    /// controller idle.
    pub fn start_finish(&mut self, spawn_ok: bool, device_ok: bool) -> (r: (
        CommandResponse,
        bool,
    ))
        requires
            old(self).inv(),
            old(self).state is Idle,
        ensures
            final(self).inv(),
            final(self).transcript == old(self).transcript,
            r.0.success == (spawn_ok && device_ok),
            final(self).state is Recording <==> (spawn_ok && device_ok),
            final(self).transcriber_live == (spawn_ok && device_ok),
            final(self).stream_live == (spawn_ok && device_ok),
            r.1 == (spawn_ok && !device_ok),
            spawn_ok && device_ok ==> resp_success_msg(r.0, "Recording started"@),
            !spawn_ok ==> resp_error(r.0, "Failed to spawn recognizer process"@),
            spawn_ok && !device_ok ==> resp_error(r.0, "Failed to start audio capture"@),
    {
        if !spawn_ok {
            let resp = CommandResponse {
                success: false,
                message: None,
                transcript: None,
                path: None,
                error: Some("Failed to spawn recognizer process".to_owned()),
            };
            (resp, false)
        } else if !device_ok {
            let resp = CommandResponse {
                success: false,
                message: None,
                transcript: None,
                path: None,
                error: Some("Failed to start audio capture".to_owned()),
            };
            (resp, true)
        } else {
            self.state = ControllerState::Recording;
            self.transcriber_live = true;
            self.stream_live = true;
            let resp = CommandResponse {
                success: true,
                message: Some("Recording started".to_owned()),
                transcript: None,
                path: None,
                error: None,
            };
            (resp, false)
        }
    }

    /// `stop`: while idle it is a safe no-op that returns the
    /// `NotRecording` response and changes nothing, the transcript
    /// included. While recording, the returned flag directs the caller
    /// to tear the session down (drop the audio stream, which closes
    /// the chunk channel, then kill the recognizer); the controller
    /// releases its resource model and returns to idle.
    pub fn stop_transcription(&mut self) -> (r: (CommandResponse, bool))
        requires
            old(self).inv(),
        ensures
            final(self).inv(),
            final(self).transcript == old(self).transcript,
            final(self).state is Idle,
            !final(self).transcriber_live,
            !final(self).stream_live,
            r.1 == (old(self).state is Recording),
            r.0.success == (old(self).state is Recording),
            old(self).state is Idle ==> *final(self) == *old(self) && resp_failure_msg(
                r.0,
                "Not recording"@,
            ),
            old(self).state is Recording ==> resp_success_msg(r.0, "Recording stopped"@),
    {
        match self.state {
            ControllerState::Idle => {
                let resp = CommandResponse {
                    success: false,
                    message: Some("Not recording".to_owned()),
                    transcript: None,
                    path: None,
                    error: None,
                };
                (resp, false)
            },
            ControllerState::Recording => {
                self.state = ControllerState::Idle;
                self.transcriber_live = false;
                self.stream_live = false;
                let resp = CommandResponse {
                    success: true,
                    message: Some("Recording stopped".to_owned()),
                    transcript: None,
                    path: None,
                    error: None,
                };
                (resp, true)
            },
        }
    }

    /// `getTranscript`: an atomic snapshot of the whole transcript,
    /// the fragments joined by single spaces.
    pub fn get_transcript(&self) -> (r: CommandResponse)
        ensures
            r.success,
            r.transcript matches Some(t) && t@ == join_frags(self.transcript@),
            r.message is None,
            r.path is None,
            r.error is None,
    {
        CommandResponse {
            success: true,
            message: None,
            transcript: Some(self.transcript.get_full_text()),
            path: None,
            error: None,
        }
    }

    /// `clearTranscript`: empties the buffer; the recording state and
    /// the session resources are untouched.
    pub fn clear_transcript(&mut self) -> (r: CommandResponse)
        ensures
            final(self).transcript@ == Seq::<Seq<char>>::empty(),
            final(self).state == old(self).state,
            final(self).transcriber_live == old(self).transcriber_live,
            final(self).stream_live == old(self).stream_live,
            resp_success_msg(r, "Transcript cleared"@),
    {
        self.transcript.clear();
        CommandResponse {
            success: true,
            message: Some("Transcript cleared".to_owned()),
            transcript: None,
            path: None,
            error: None,
        }
    }

    /// One step of the drainer loop: appends a fragment read from the
    /// recognizer output to the transcript, leaving state and session
    /// resources untouched. Fragments keep their arrival order.
    pub fn push_fragment(&mut self, text: String)
        ensures
            final(self).transcript@ == old(self).transcript@.push(text@),
            final(self).state == old(self).state,
            final(self).transcriber_live == old(self).transcriber_live,
            final(self).stream_live == old(self).stream_live,
    {
        self.transcript.push(text);
    }
}

/// `saveTranscript`'s response, from the outcome the caller reports of
/// writing the snapshot: the written path on success, the reported
/// reason on failure.
pub fn save_transcript_response(outcome: Result<String, String>) -> (r: CommandResponse)
    ensures
        match outcome {
            Ok(p) => {
                &&& r.success
                &&& r.message matches Some(m) && m@ == "Transcript saved"@
                &&& r.path matches Some(q) && q@ == p@
                &&& r.transcript is None
                &&& r.error is None
            },
            Err(e) => resp_error(r, e@),
        },
{
    match outcome {
        Ok(p) => CommandResponse {
            success: true,
            message: Some("Transcript saved".to_owned()),
            transcript: None,
            path: Some(p),
            error: None,
        },
        Err(e) => CommandResponse {
            success: false,
            message: None,
            transcript: None,
            path: None,
            error: Some(e),
        },
    }
}

} // verus!
