//! The recording session and the token store, held together in one state
//! object that the host guards with a lock.

use vstd::prelude::*;
use crate::callback::{delivered_via, store_after, Channel};
use crate::external::{now_seconds, MAX_TIMESTAMP};
use crate::text::opt_view;

verus! {

/// Why a session transition was refused.
#[derive(Debug, Clone, Copy, PartialEq, Eq, Structural)]
pub enum SessionError {
    AlreadyRecording,
    NotRecording,
}

impl SessionError {
    /// The message shown to the caller.
    pub fn message(&self) -> (r: String)
        ensures
            r@ == session_error_text(*self),
    {
        match self {
            SessionError::AlreadyRecording => {
                proof { reveal_strlit("Already recording"); }
                String::from_str("Already recording")
            },
            SessionError::NotRecording => {
                proof { reveal_strlit("Not recording"); }
                String::from_str("Not recording")
            },
        }
    }
}

pub open spec fn session_error_text(e: SessionError) -> Seq<char> {
    match e {
        SessionError::AlreadyRecording => seq!['A', 'l', 'r', 'e', 'a', 'd', 'y', ' ', 'r', 'e', 'c', 'o', 'r', 'd', 'i', 'n', 'g'],
        SessionError::NotRecording => seq!['N', 'o', 't', ' ', 'r', 'e', 'c', 'o', 'r', 'd', 'i', 'n', 'g'],
    }
}

/// The two transitions of a session.
#[derive(Debug, Clone, Copy, PartialEq, Eq, Structural)]
pub enum SessionOp {
    Start,
    Stop,
}

/// Whether `op` is legal from a session that is (or is not) recording.
pub open spec fn op_allowed(recording: bool, op: SessionOp) -> bool {
    match op {
        SessionOp::Start => !recording,
        SessionOp::Stop => recording,
    }
}

/// Whether the session records after `op` was attempted.
pub open spec fn recording_after_op(recording: bool, op: SessionOp) -> bool {
    if op_allowed(recording, op) {
        op == SessionOp::Start
    } else {
        recording
    }
}

/// The error an illegal `op` reports.
pub open spec fn op_error(op: SessionOp) -> SessionError {
    match op {
        SessionOp::Start => SessionError::AlreadyRecording,
        SessionOp::Stop => SessionError::NotRecording,
    }
}

/// Whether a session that began idle records after the attempts `ops`.
pub open spec fn recording_after_ops(ops: Seq<SessionOp>) -> bool
    decreases ops.len(),
{
    if ops.len() == 0 {
        false
    } else {
        recording_after_op(recording_after_ops(ops.drop_last()), ops.last())
    }
}

/// The attempts among `ops` that were allowed, in order.
pub open spec fn allowed_ops(ops: Seq<SessionOp>) -> Seq<SessionOp>
    decreases ops.len(),
{
    if ops.len() == 0 {
        Seq::empty()
    } else {
        let prev = allowed_ops(ops.drop_last());
        if op_allowed(recording_after_ops(ops.drop_last()), ops.last()) {
            prev.push(ops.last())
        } else {
            prev
        }
    }
}

/// From an idle session, whatever starts and stops are attempted, those
/// allowed alternate: start, stop, start, ...; the session records exactly
/// when an odd number were allowed. An attempt is refused exactly when it
/// is a start while recording or a stop while idle.
pub proof fn lemma_sessions_alternate(ops: Seq<SessionOp>)
    ensures
        forall|k: int|
            0 <= k < allowed_ops(ops).len() ==> allowed_ops(ops)[k] == (if k % 2 == 0 {
                SessionOp::Start
            } else {
                SessionOp::Stop
            }),
        recording_after_ops(ops) <==> allowed_ops(ops).len() % 2 == 1,
        forall|k: int|
            0 <= k < ops.len() ==> (!op_allowed(recording_after_ops(ops.take(k)), ops[k]) <==> (
            ops[k] == SessionOp::Start && recording_after_ops(ops.take(k))) || (ops[k]
                == SessionOp::Stop && !recording_after_ops(ops.take(k)))),
    decreases ops.len(),
{
    if ops.len() > 0 {
        lemma_sessions_alternate(ops.drop_last());
    }
}

/// A snapshot of the session for the caller.
#[derive(Debug, Clone, PartialEq, Eq)]
pub struct RecordingStatus {
    pub is_recording: bool,
    pub brief_id: Option<String>,
    pub duration_seconds: i64,
    pub screenshot_count: usize,
}

/// The state shared by all operations: the recording session, its
/// screenshot buffer and the token store.
#[derive(Debug)]
pub struct AppState {
    pub is_recording: bool,
    pub current_brief_id: Option<String>,
    pub session_start: Option<i64>,
    pub screenshots: Vec<String>,
    pub auth_token: Option<String>,
}

impl AppState {
    /// An idle session is described by its flag alone; the start time is a
    /// reading of the wall clock.
    pub open spec fn wf(&self) -> bool {
        &&& (self.is_recording <==> self.current_brief_id is Some)
        &&& (self.is_recording <==> self.session_start is Some)
        &&& (!self.is_recording ==> self.screenshots@.len() == 0)
        &&& (self.session_start matches Some(t) ==> 0 <= t <= MAX_TIMESTAMP)
    }

    /// Idle, with no token.
    pub fn new() -> (r: AppState)
        ensures
            r.wf(),
            !r.is_recording,
            r.auth_token is None,
    {
        AppState {
            is_recording: false,
            current_brief_id: None,
            session_start: None,
            screenshots: Vec::new(),
            auth_token: None,
        }
    }

    /// The session's status at wall-clock time `now`.
    pub fn status_at(&self, now: i64) -> (r: RecordingStatus)
        requires
            self.wf(),
            0 <= now <= MAX_TIMESTAMP,
        ensures
            r.is_recording == self.is_recording,
            r.brief_id == self.current_brief_id,
            r.duration_seconds == match self.session_start {
                Some(t) => now - t,
                None => 0,
            },
            r.screenshot_count == self.screenshots@.len(),
    {
        let brief_id = match &self.current_brief_id {
            Some(b) => Some(b.clone()),
            None => None,
        };
        let duration_seconds = match self.session_start {
            Some(t) => now - t,
            None => 0,
        };
        RecordingStatus {
            is_recording: self.is_recording,
            brief_id,
            duration_seconds,
            screenshot_count: self.screenshots.len(),
        }
    }

    /// The session's status now.
    pub fn get_recording_status(&self) -> (r: RecordingStatus)
        requires
            self.wf(),
        ensures
            r.is_recording == self.is_recording,
            r.brief_id == self.current_brief_id,
            self.session_start is None ==> r.duration_seconds == 0,
            r.screenshot_count == self.screenshots@.len(),
    {
        let now = now_seconds();
        self.status_at(now)
    }

    /// Starts a session for `brief_id` at wall-clock time `now`, with an
    /// empty screenshot buffer; refused while a session is recording.
    pub fn start_recording_at(&mut self, brief_id: String, now: i64) -> (r: Result<(), SessionError>)
        requires
            old(self).wf(),
            0 <= now <= MAX_TIMESTAMP,
        ensures
            final(self).wf(),
            r is Ok <==> op_allowed(old(self).is_recording, SessionOp::Start),
            r matches Err(e) ==> e == op_error(SessionOp::Start) && *final(self) == *old(self),
            final(self).is_recording == recording_after_op(old(self).is_recording, SessionOp::Start),
            r is Ok ==> {
                &&& final(self).current_brief_id == Some(brief_id)
                &&& final(self).session_start == Some(now)
                &&& final(self).screenshots@.len() == 0
            },
            final(self).auth_token == old(self).auth_token,
    {
        if self.is_recording {
            return Err(SessionError::AlreadyRecording);
        }
        self.is_recording = true;
        self.current_brief_id = Some(brief_id);
        self.session_start = Some(now);
        self.screenshots = Vec::new();
        Ok(())
    }

    /// Starts a session for `brief_id` now.
    pub fn start_recording(&mut self, brief_id: String) -> (r: Result<(), SessionError>)
        requires
            old(self).wf(),
        ensures
            final(self).wf(),
            r is Ok <==> op_allowed(old(self).is_recording, SessionOp::Start),
            r matches Err(e) ==> e == op_error(SessionOp::Start) && *final(self) == *old(self),
            final(self).is_recording == recording_after_op(old(self).is_recording, SessionOp::Start),
            r is Ok ==> {
                &&& final(self).current_brief_id == Some(brief_id)
                &&& final(self).session_start is Some
                &&& final(self).screenshots@.len() == 0
            },
            final(self).auth_token == old(self).auth_token,
    {
        let now = now_seconds();
        self.start_recording_at(brief_id, now)
    }

    /// Ends the session and hands back the screenshots it gathered, in the
    /// order they were taken; refused while idle.
    pub fn stop_recording(&mut self) -> (r: Result<Vec<String>, SessionError>)
        requires
            old(self).wf(),
        ensures
            final(self).wf(),
            r is Ok <==> op_allowed(old(self).is_recording, SessionOp::Stop),
            r matches Err(e) ==> e == op_error(SessionOp::Stop) && *final(self) == *old(self),
            final(self).is_recording == recording_after_op(old(self).is_recording, SessionOp::Stop),
            r matches Ok(shots) ==> {
                &&& shots == old(self).screenshots
                &&& final(self).current_brief_id is None
                &&& final(self).session_start is None
                &&& final(self).screenshots@.len() == 0
            },
            final(self).auth_token == old(self).auth_token,
    {
        if !self.is_recording {
            return Err(SessionError::NotRecording);
        }
        let mut shots: Vec<String> = Vec::new();
        std::mem::swap(&mut shots, &mut self.screenshots);
        self.is_recording = false;
        self.current_brief_id = None;
        self.session_start = None;
        Ok(shots)
    }

    /// Records the outcome of one screen capture: the image joins the buffer
    /// while a session records, and goes back to the caller either way.
    pub fn capture_screenshot(&mut self, captured: Result<String, String>) -> (r: Result<String, String>)
        requires
            old(self).wf(),
        ensures
            final(self).wf(),
            r == captured,
            final(self).screenshots@ == match captured {
                Ok(image) if old(self).is_recording => old(self).screenshots@.push(image),
                _ => old(self).screenshots@,
            },
            final(self).is_recording == old(self).is_recording,
            final(self).current_brief_id == old(self).current_brief_id,
            final(self).session_start == old(self).session_start,
            final(self).auth_token == old(self).auth_token,
    {
        match captured {
            Ok(image) => {
                if self.is_recording {
                    self.screenshots.push(image.clone());
                }
                Ok(image)
            },
            Err(e) => Err(e),
        }
    }

    /// Replaces the stored token.
    pub fn set_auth_token(&mut self, token: String)
        ensures
            final(self).auth_token == Some(token),
            opt_view(final(self).auth_token) == store_after(
                opt_view(old(self).auth_token),
                delivered_via(Channel::Direct, token@),
            ),
            final(self).is_recording == old(self).is_recording,
            final(self).current_brief_id == old(self).current_brief_id,
            final(self).session_start == old(self).session_start,
            final(self).screenshots == old(self).screenshots,
    {
        self.auth_token = Some(token);
    }

    /// The stored token, if any.
    pub fn get_auth_token(&self) -> (r: Option<String>)
        ensures
            r == self.auth_token,
    {
        match &self.auth_token {
            Some(t) => Some(t.clone()),
            None => None,
        }
    }
}


impl Default for AppState {
    fn default() -> (r: AppState)
        ensures
            r.wf(),
            !r.is_recording,
            r.auth_token is None,
    {
        AppState::new()
    }
}

} // verus!
