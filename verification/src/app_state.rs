//! The recording lifecycle: one state machine that takes what happens (a
//! gesture, a capture that started or ended, a transcript, an insertion) and
//! answers with the next state and the work to do.
//!
//! The machine does no work itself. Whoever drives it performs each
//! [`Action`] and reports back with the [`Event`] that the action leads to.
//! The capture handle is of a type `H` that the machine only keeps and hands
//! back.

use crate::config::Config;
use crate::key_listener::gesture::Intent;
use crate::text::{is_blank, str_eq, trimmed};
use vstd::prelude::*;

verus! {

/// The phase of the recording lifecycle.
#[derive(Clone, Copy, Debug, PartialEq, Eq, Structural)]
pub enum Lifecycle {
    Idle,
    Recording,
    Transcribing,
    Inserting,
}

/// What listeners are told: the name of the phase and the last error, if any.
#[derive(Debug, Clone, PartialEq, Eq)]
pub struct Status {
    pub state: String,
    pub last_error: Option<String>,
}

/// A [`Status`] as plain text.
pub struct StatusView {
    pub state: Seq<char>,
    pub last_error: Option<Seq<char>>,
}

/// The text in an optional string.
pub open spec fn text_of(o: Option<String>) -> Option<Seq<char>> {
    match o {
        Some(s) => Some(s@),
        None => None,
    }
}

/// The texts in the result of a step of work that yields a string.
pub open spec fn texts_of(r: Result<String, String>) -> Result<Seq<char>, Seq<char>> {
    match r {
        Ok(s) => Ok(s@),
        Err(e) => Err(e@),
    }
}

/// The text in the result of a step of work that yields nothing.
pub open spec fn error_of(r: Result<(), String>) -> Result<(), Seq<char>> {
    match r {
        Ok(_) => Ok(()),
        Err(e) => Err(e@),
    }
}

impl View for Status {
    type V = StatusView;

    open spec fn view(&self) -> StatusView {
        StatusView { state: self.state@, last_error: text_of(self.last_error) }
    }
}

/// The name under which a phase is told.
pub open spec fn lifecycle_name(l: Lifecycle) -> Seq<char> {
    match l {
        Lifecycle::Idle => "Idle"@,
        Lifecycle::Recording => "Recording"@,
        Lifecycle::Transcribing => "Transcribing"@,
        Lifecycle::Inserting => "Inserting"@,
    }
}

/// The phase that a name stands for. Any name but those of the three busy
/// phases stands for [`Lifecycle::Idle`].
pub open spec fn lifecycle_of(name: Seq<char>) -> Lifecycle {
    if name == "Recording"@ {
        Lifecycle::Recording
    } else if name == "Transcribing"@ {
        Lifecycle::Transcribing
    } else if name == "Inserting"@ {
        Lifecycle::Inserting
    } else {
        Lifecycle::Idle
    }
}

impl Lifecycle {
    /// The name under which the phase is told.
    pub fn name(&self) -> (r: &'static str)
        ensures
            r@ == lifecycle_name(*self),
    {
        match self {
            Lifecycle::Idle => "Idle",
            Lifecycle::Recording => "Recording",
            Lifecycle::Transcribing => "Transcribing",
            Lifecycle::Inserting => "Inserting",
        }
    }
}

impl Status {
    /// The phase that the status tells of.
    pub fn lifecycle(&self) -> (r: Lifecycle)
        ensures
            r == lifecycle_of(self.state@),
    {
        let s = self.state.as_str();
        if str_eq(s, "Recording") {
            Lifecycle::Recording
        } else if str_eq(s, "Transcribing") {
            Lifecycle::Transcribing
        } else if str_eq(s, "Inserting") {
            Lifecycle::Inserting
        } else {
            Lifecycle::Idle
        }
    }
}

/// Every phase is told under a name of its own.
pub proof fn law_lifecycle_names(l: Lifecycle)
    ensures
        lifecycle_of(lifecycle_name(l)) == l,
{
    reveal_strlit("Idle");
    reveal_strlit("Recording");
    reveal_strlit("Transcribing");
    reveal_strlit("Inserting");
    assert("Idle"@.len() == 4);
    assert("Inserting"@[0] == 'I');
    assert("Recording"@[0] == 'R');
}

/// What the machine holds of the session in progress.
pub enum Session<H> {
    /// No session.
    Idle,
    /// The capture runs and writes to `path`.
    Recording { handle: H, path: String },
    /// The capture was told to stop and has not ended yet.
    Stopping { path: String },
    /// The audio in `path` is with the transcription service.
    Transcribing { path: String },
    /// The transcript `text` is being inserted.
    Inserting { path: String, text: String },
}

/// A [`Session`] with its strings as plain text.
pub enum SessionView<H> {
    Idle,
    Recording { handle: H, path: Seq<char> },
    Stopping { path: Seq<char> },
    Transcribing { path: Seq<char> },
    Inserting { path: Seq<char>, text: Seq<char> },
}

impl<H> View for Session<H> {
    type V = SessionView<H>;

    open spec fn view(&self) -> SessionView<H> {
        match *self {
            Session::Idle => SessionView::Idle,
            Session::Recording { handle, path } => SessionView::Recording { handle, path: path@ },
            Session::Stopping { path } => SessionView::Stopping { path: path@ },
            Session::Transcribing { path } => SessionView::Transcribing { path: path@ },
            Session::Inserting { path, text } => SessionView::Inserting {
                path: path@,
                text: text@,
            },
        }
    }
}

/// The state of the lifecycle: the session, the last error, and the count of
/// sessions started, which wraps around.
pub struct RuntimeState<H> {
    session: Session<H>,
    last_error: Option<String>,
    recording_token: u64,
}

/// A [`RuntimeState`] with its strings as plain text.
pub struct StateView<H> {
    pub session: SessionView<H>,
    pub last_error: Option<Seq<char>>,
    pub recording_token: u64,
}

impl<H> View for RuntimeState<H> {
    type V = StateView<H>;

    closed spec fn view(&self) -> StateView<H> {
        StateView {
            session: self.session@,
            last_error: text_of(self.last_error),
            recording_token: self.recording_token,
        }
    }
}

/// What has happened.
#[allow(inconsistent_fields)]
#[derive(Debug, PartialEq, Eq)]
pub enum Event<H> {
    /// The user made a gesture, or asked by other means.
    Gesture { intent: Intent },
    /// A capture began; it writes to `path`.
    CaptureStarted { handle: H, path: String },
    /// The time limit that was set for the session `token` ran out.
    GuardElapsed { token: u64 },
    /// The capture ended: with the path of the finished audio, or an error.
    CaptureStopped { result: Result<String, String> },
    /// The transcription service answered: with the text, or an error.
    Transcribed { result: Result<String, String> },
    /// The insertion ended.
    Inserted { result: Result<(), String> },
}

/// An [`Event`] with its strings as plain text.
#[allow(inconsistent_fields)]
pub enum EventView<H> {
    Gesture { intent: Intent },
    CaptureStarted { handle: H, path: Seq<char> },
    GuardElapsed { token: u64 },
    CaptureStopped { result: Result<Seq<char>, Seq<char>> },
    Transcribed { result: Result<Seq<char>, Seq<char>> },
    Inserted { result: Result<(), Seq<char>> },
}

impl<H> View for Event<H> {
    type V = EventView<H>;

    open spec fn view(&self) -> EventView<H> {
        match *self {
            Event::Gesture { intent } => EventView::Gesture { intent },
            Event::CaptureStarted { handle, path } => EventView::CaptureStarted {
                handle,
                path: path@,
            },
            Event::GuardElapsed { token } => EventView::GuardElapsed { token },
            Event::CaptureStopped { result } => EventView::CaptureStopped {
                result: texts_of(result),
            },
            Event::Transcribed { result } => EventView::Transcribed { result: texts_of(result) },
            Event::Inserted { result } => EventView::Inserted { result: error_of(result) },
        }
    }
}

/// Work to do, in the order given.
#[derive(Debug, PartialEq, Eq)]
pub enum Action<H> {
    /// Begin a capture, and report it with [`Event::CaptureStarted`].
    StartCapture,
    /// A capture began while another session was in progress: end it and
    /// remove what it wrote to `path`.
    AbandonCapture { handle: H, path: String },
    /// Tell every listener the status.
    Broadcast { status: Status },
    /// Mark the start of the recording by a sound.
    PlayStartSound,
    /// Mark the end of the recording by a sound.
    PlayStopSound,
    /// Report [`Event::GuardElapsed`] with this token after `seconds`.
    ArmGuard { token: u64, seconds: u64 },
    /// End the capture, wait for it, and report with [`Event::CaptureStopped`].
    StopCapture { handle: H },
    /// Send the audio in `path` to the transcription service, and report with
    /// [`Event::Transcribed`].
    Transcribe { path: String },
    /// Insert `text` where the user types, and report with [`Event::Inserted`].
    Insert { text: String, restore_clipboard: bool },
    /// Remove the audio file.
    DeleteFile { path: String },
    /// Write the error to the log.
    LogError { context: String, message: String },
    /// Write the error to the log and tell every listener of it.
    ReportError { context: String, message: String },
    /// Tell every listener the transcript.
    TranscriptReady { text: String },
    /// The request is done, with this result.
    Reply { result: Result<(), String> },
}

/// An [`Action`] with its strings as plain text.
pub enum ActionView<H> {
    StartCapture,
    AbandonCapture { handle: H, path: Seq<char> },
    Broadcast { status: StatusView },
    PlayStartSound,
    PlayStopSound,
    ArmGuard { token: u64, seconds: u64 },
    StopCapture { handle: H },
    Transcribe { path: Seq<char> },
    Insert { text: Seq<char>, restore_clipboard: bool },
    DeleteFile { path: Seq<char> },
    LogError { context: Seq<char>, message: Seq<char> },
    ReportError { context: Seq<char>, message: Seq<char> },
    TranscriptReady { text: Seq<char> },
    Reply { result: Result<(), Seq<char>> },
}

impl<H> View for Action<H> {
    type V = ActionView<H>;

    open spec fn view(&self) -> ActionView<H> {
        match *self {
            Action::StartCapture => ActionView::StartCapture,
            Action::AbandonCapture { handle, path } => ActionView::AbandonCapture {
                handle,
                path: path@,
            },
            Action::Broadcast { status } => ActionView::Broadcast { status: status@ },
            Action::PlayStartSound => ActionView::PlayStartSound,
            Action::PlayStopSound => ActionView::PlayStopSound,
            Action::ArmGuard { token, seconds } => ActionView::ArmGuard { token, seconds },
            Action::StopCapture { handle } => ActionView::StopCapture { handle },
            Action::Transcribe { path } => ActionView::Transcribe { path: path@ },
            Action::Insert { text, restore_clipboard } => ActionView::Insert {
                text: text@,
                restore_clipboard,
            },
            Action::DeleteFile { path } => ActionView::DeleteFile { path: path@ },
            Action::LogError { context, message } => ActionView::LogError {
                context: context@,
                message: message@,
            },
            Action::ReportError { context, message } => ActionView::ReportError {
                context: context@,
                message: message@,
            },
            Action::TranscriptReady { text } => ActionView::TranscriptReady { text: text@ },
            Action::Reply { result } => ActionView::Reply { result: error_of(result) },
        }
    }
}

/// A list of actions, each as plain text.
pub open spec fn views<H>(actions: Seq<Action<H>>) -> Seq<ActionView<H>> {
    actions.map_values(|a: Action<H>| a@)
}

/// The phase that a session is told as. The wait for the capture to end
/// already counts as transcribing.
pub open spec fn phase_of<H>(s: SessionView<H>) -> Lifecycle {
    match s {
        SessionView::Idle => Lifecycle::Idle,
        SessionView::Recording { .. } => Lifecycle::Recording,
        SessionView::Stopping { .. } => Lifecycle::Transcribing,
        SessionView::Transcribing { .. } => Lifecycle::Transcribing,
        SessionView::Inserting { .. } => Lifecycle::Inserting,
    }
}

/// The status that a state is told as.
pub open spec fn status_of<H>(s: StateView<H>) -> StatusView {
    StatusView { state: lifecycle_name(phase_of(s.session)), last_error: s.last_error }
}

/// The label under which the errors of a session are logged.
pub open spec fn stop_context() -> Seq<char> {
    "stop_recording"@
}

/// The answer to a request that comes while a session is past recording.
pub open spec fn busy() -> Seq<char> {
    "Busy"@
}

/// The answer to a stop request that finds no recording.
pub open spec fn not_recording() -> Seq<char> {
    "Not recording"@
}

/// The error of a session that finds no key for the transcription service.
pub open spec fn api_key_empty() -> Seq<char> {
    "Azure apiKey is empty"@
}

/// The state before anything happened.
pub open spec fn initial<H>() -> StateView<H> {
    StateView { session: SessionView::Idle, last_error: None, recording_token: 0 }
}

/// A request to stop. While recording, the session goes on to wait for the
/// capture, which is told to end. In any other phase the request is refused
/// and the refusal logged.
pub open spec fn stop_spec<H>(s: StateView<H>) -> (StateView<H>, Seq<ActionView<H>>) {
    match s.session {
        SessionView::Recording { handle, path } => {
            let next = StateView { session: SessionView::Stopping { path }, ..s };
            (
                next,
                seq![
                    ActionView::Broadcast { status: status_of(next) },
                    ActionView::PlayStopSound,
                    ActionView::StopCapture { handle },
                ],
            )
        },
        _ => (
            s,
            seq![
                ActionView::LogError { context: stop_context(), message: not_recording() },
                ActionView::Reply { result: Err(not_recording()) },
            ],
        ),
    }
}

/// The end of a session by an error: the audio is removed, the machine is
/// idle and remembers the error, which is reported, told and given as the
/// result.
pub open spec fn fail_spec<H>(s: StateView<H>, path: Seq<char>, message: Seq<char>) -> (
    StateView<H>,
    Seq<ActionView<H>>,
) {
    let next = StateView { session: SessionView::Idle, last_error: Some(message), ..s };
    (
        next,
        seq![
            ActionView::DeleteFile { path },
            ActionView::ReportError { context: stop_context(), message },
            ActionView::Broadcast { status: status_of(next) },
            ActionView::Reply { result: Err(message) },
        ],
    )
}

/// The seconds after which a recording is stopped: the configured limit, and
/// one second at least.
pub open spec fn guard_seconds(cfg: Config) -> u64 {
    if cfg.recording.max_seconds >= 1 {
        cfg.recording.max_seconds
    } else {
        1
    }
}

/// The session count after one more session.
pub open spec fn next_token(token: u64) -> u64 {
    if token == u64::MAX {
        0
    } else {
        (token + 1) as u64
    }
}

/// The next state and the work to do when `e` happens in state `s`.
///
/// An event that does not belong to the phase of `s` changes nothing and asks
/// for nothing, except that a capture which began out of turn is abandoned.
pub open spec fn step_spec<H>(s: StateView<H>, e: EventView<H>, cfg: Config) -> (
    StateView<H>,
    Seq<ActionView<H>>,
) {
    match e {
        EventView::Gesture { intent: Intent::StartOrToggle } => match s.session {
            SessionView::Idle => (s, seq![ActionView::StartCapture]),
            SessionView::Recording { .. } => stop_spec(s),
            _ => (s, seq![ActionView::Reply { result: Err(busy()) }]),
        },
        EventView::Gesture { intent: Intent::ForceStop } => stop_spec(s),
        EventView::GuardElapsed { token } => if s.session is Recording && token
            == s.recording_token {
            stop_spec(s)
        } else {
            (s, seq![])
        },
        EventView::CaptureStarted { handle, path } => match s.session {
            SessionView::Idle => {
                let token = next_token(s.recording_token);
                let next = StateView {
                    session: SessionView::Recording { handle, path },
                    last_error: None,
                    recording_token: token,
                };
                (
                    next,
                    seq![
                        ActionView::Broadcast { status: status_of(next) },
                        ActionView::PlayStartSound,
                        ActionView::ArmGuard { token, seconds: guard_seconds(cfg) },
                        ActionView::Reply { result: Ok(()) },
                    ],
                )
            },
            _ => (
                s,
                seq![
                    ActionView::AbandonCapture { handle, path },
                    ActionView::Reply { result: Err(busy()) },
                ],
            ),
        },
        EventView::CaptureStopped { result } => match s.session {
            SessionView::Stopping { path } => match result {
                Err(message) => fail_spec(s, path, message),
                Ok(audio) => if trimmed(cfg.azure.api_key@).len() == 0 {
                    fail_spec(s, audio, api_key_empty())
                } else {
                    (
                        StateView { session: SessionView::Transcribing { path: audio }, ..s },
                        seq![ActionView::Transcribe { path: audio }],
                    )
                },
            },
            _ => (s, seq![]),
        },
        EventView::Transcribed { result } => match s.session {
            SessionView::Transcribing { path } => match result {
                Err(message) => fail_spec(s, path, message),
                Ok(text) => {
                    let next = StateView { session: SessionView::Inserting { path, text }, ..s };
                    (
                        next,
                        seq![
                            ActionView::Broadcast { status: status_of(next) },
                            ActionView::Insert {
                                text,
                                restore_clipboard: cfg.insert.restore_clipboard,
                            },
                        ],
                    )
                },
            },
            _ => (s, seq![]),
        },
        EventView::Inserted { result } => match s.session {
            SessionView::Inserting { path, text } => match result {
                Err(message) => fail_spec(s, path, message),
                Ok(_) => {
                    let next = StateView { session: SessionView::Idle, last_error: None, ..s };
                    (
                        next,
                        seq![
                            ActionView::DeleteFile { path },
                            ActionView::TranscriptReady { text },
                            ActionView::Broadcast { status: status_of(next) },
                            ActionView::Reply { result: Ok(()) },
                        ],
                    )
                },
            },
            _ => (s, seq![]),
        },
    }
}

fn copy_of(o: &Option<String>) -> (r: Option<String>)
    ensures
        text_of(r) == text_of(*o),
{
    match o {
        Some(s) => Some(s.clone()),
        None => None,
    }
}

impl<H> RuntimeState<H> {
    /// The state before anything happened: idle, no error, no session counted.
    pub fn new() -> (s: Self)
        ensures
            s@ == initial::<H>(),
    {
        RuntimeState { session: Session::Idle, last_error: None, recording_token: 0 }
    }

    /// The phase of the lifecycle.
    pub fn lifecycle(&self) -> (l: Lifecycle)
        ensures
            l == phase_of(self@.session),
    {
        match &self.session {
            Session::Idle => Lifecycle::Idle,
            Session::Recording { .. } => Lifecycle::Recording,
            Session::Stopping { .. } => Lifecycle::Transcribing,
            Session::Transcribing { .. } => Lifecycle::Transcribing,
            Session::Inserting { .. } => Lifecycle::Inserting,
        }
    }

    /// The status to tell.
    pub fn status(&self) -> (st: Status)
        ensures
            st@ == status_of(self@),
    {
        Status { state: self.lifecycle().name().to_owned(), last_error: copy_of(&self.last_error) }
    }

    /// The error that ended the last session, if one did.
    pub fn last_error(&self) -> (e: Option<String>)
        ensures
            text_of(e) == self@.last_error,
    {
        copy_of(&self.last_error)
    }

    /// The count of sessions started.
    pub fn recording_token(&self) -> (t: u64)
        ensures
            t == self@.recording_token,
    {
        self.recording_token
    }

    /// Whether the time limit set for the session `token` still applies: the
    /// session is the one that records now.
    pub fn guard_applies(&self, token: u64) -> (r: bool)
        ensures
            r == (self@.session is Recording && token == self@.recording_token),
    {
        match &self.session {
            Session::Recording { .. } => token == self.recording_token,
            _ => false,
        }
    }

    fn stop(&mut self, session: Session<H>) -> (actions: Vec<Action<H>>)
        requires
            old(self).session is Idle,
        ensures
            (final(self)@, views(actions@)) == stop_spec(
                StateView { session: session@, ..old(self)@ },
            ),
    {
        let mut actions: Vec<Action<H>> = Vec::new();
        match session {
            Session::Recording { handle, path } => {
                self.session = Session::Stopping { path };
                actions.push(Action::Broadcast { status: self.status() });
                actions.push(Action::PlayStopSound);
                actions.push(Action::StopCapture { handle });
            },
            other => {
                self.session = other;
                actions.push(
                    Action::LogError {
                        context: "stop_recording".to_owned(),
                        message: "Not recording".to_owned(),
                    },
                );
                actions.push(Action::Reply { result: Err("Not recording".to_owned()) });
            },
        }
        actions
    }

    fn fail(&mut self, path: String, message: String) -> (actions: Vec<Action<H>>)
        ensures
            (final(self)@, views(actions@)) == fail_spec(old(self)@, path@, message@),
    {
        let mut actions: Vec<Action<H>> = Vec::new();
        self.session = Session::Idle;
        self.last_error = Some(message.clone());
        actions.push(Action::DeleteFile { path });
        actions.push(
            Action::ReportError { context: "stop_recording".to_owned(), message: message.clone() },
        );
        actions.push(Action::Broadcast { status: self.status() });
        actions.push(Action::Reply { result: Err(message) });
        actions
    }

    /// Takes what happened and answers with the work to do.
    pub fn step(&mut self, event: Event<H>, cfg: &Config) -> (actions: Vec<Action<H>>)
        ensures
            (final(self)@, views(actions@)) == step_spec(old(self)@, event@, *cfg),
    {
        let mut session: Session<H> = Session::Idle;
        core::mem::swap(&mut self.session, &mut session);
        match event {
            Event::Gesture { intent: Intent::StartOrToggle } => match session {
                Session::Idle => {
                    let mut actions: Vec<Action<H>> = Vec::new();
                    actions.push(Action::StartCapture);
                    actions
                },
                Session::Recording { handle, path } => self.stop(
                    Session::Recording { handle, path },
                ),
                other => {
                    self.session = other;
                    let mut actions: Vec<Action<H>> = Vec::new();
                    actions.push(Action::Reply { result: Err("Busy".to_owned()) });
                    actions
                },
            },
            Event::Gesture { intent: Intent::ForceStop } => self.stop(session),
            Event::GuardElapsed { token } => match session {
                Session::Recording { handle, path } => {
                    if token == self.recording_token {
                        self.stop(Session::Recording { handle, path })
                    } else {
                        self.session = Session::Recording { handle, path };
                        Vec::new()
                    }
                },
                other => {
                    self.session = other;
                    Vec::new()
                },
            },
            Event::CaptureStarted { handle, path } => match session {
                Session::Idle => {
                    let token = self.recording_token.wrapping_add(1);
                    let seconds = if cfg.recording.max_seconds >= 1 {
                        cfg.recording.max_seconds
                    } else {
                        1
                    };
                    self.session = Session::Recording { handle, path };
                    self.last_error = None;
                    self.recording_token = token;
                    let mut actions: Vec<Action<H>> = Vec::new();
                    actions.push(Action::Broadcast { status: self.status() });
                    actions.push(Action::PlayStartSound);
                    actions.push(Action::ArmGuard { token, seconds });
                    actions.push(Action::Reply { result: Ok(()) });
                    actions
                },
                other => {
                    self.session = other;
                    let mut actions: Vec<Action<H>> = Vec::new();
                    actions.push(Action::AbandonCapture { handle, path });
                    actions.push(Action::Reply { result: Err("Busy".to_owned()) });
                    actions
                },
            },
            Event::CaptureStopped { result } => match session {
                Session::Stopping { path } => match result {
                    Err(message) => self.fail(path, message),
                    Ok(audio) => {
                        if is_blank(cfg.azure.api_key.as_str()) {
                            self.fail(audio, "Azure apiKey is empty".to_owned())
                        } else {
                            self.session = Session::Transcribing { path: audio.clone() };
                            let mut actions: Vec<Action<H>> = Vec::new();
                            actions.push(Action::Transcribe { path: audio });
                            actions
                        }
                    },
                },
                other => {
                    self.session = other;
                    Vec::new()
                },
            },
            Event::Transcribed { result } => match session {
                Session::Transcribing { path } => match result {
                    Err(message) => self.fail(path, message),
                    Ok(text) => {
                        self.session = Session::Inserting { path, text: text.clone() };
                        let mut actions: Vec<Action<H>> = Vec::new();
                        actions.push(Action::Broadcast { status: self.status() });
                        actions.push(
                            Action::Insert {
                                text,
                                restore_clipboard: cfg.insert.restore_clipboard,
                            },
                        );
                        actions
                    },
                },
                other => {
                    self.session = other;
                    Vec::new()
                },
            },
            Event::Inserted { result } => match session {
                Session::Inserting { path, text } => match result {
                    Err(message) => self.fail(path, message),
                    Ok(_) => {
                        self.last_error = None;
                        let mut actions: Vec<Action<H>> = Vec::new();
                        actions.push(Action::DeleteFile { path });
                        actions.push(Action::TranscriptReady { text });
                        actions.push(Action::Broadcast { status: self.status() });
                        actions.push(Action::Reply { result: Ok(()) });
                        actions
                    },
                },
                other => {
                    self.session = other;
                    Vec::new()
                },
            },
        }
    }
}

/// A request to start or toggle that finds the machine idle asks for a
/// capture and changes nothing until the capture has begun.
pub proof fn law_start_waits_for_the_capture<H>(s: StateView<H>, cfg: Config)
    requires
        s.session is Idle,
    ensures
        step_spec(s, EventView::Gesture { intent: Intent::StartOrToggle }, cfg) == (
            s,
            seq![ActionView::<H>::StartCapture],
        ),
{
}

/// A request to start or toggle that comes while a session is past recording
/// is answered with "Busy" and changes nothing.
pub proof fn law_busy_is_refused<H>(s: StateView<H>, cfg: Config)
    requires
        phase_of(s.session) is Transcribing || phase_of(s.session) is Inserting,
    ensures
        step_spec(s, EventView::Gesture { intent: Intent::StartOrToggle }, cfg) == (
            s,
            seq![ActionView::<H>::Reply { result: Err(busy()) }],
        ),
{
}

/// A request to stop that finds no recording (the machine is idle, or past
/// recording) is answered with "Not recording", which is logged, and changes
/// nothing.
pub proof fn law_stop_needs_a_recording<H>(s: StateView<H>, cfg: Config)
    requires
        !(phase_of(s.session) is Recording),
    ensures
        step_spec(s, EventView::Gesture { intent: Intent::ForceStop }, cfg) == (
            s,
            seq![
                ActionView::<H>::LogError { context: stop_context(), message: not_recording() },
                ActionView::<H>::Reply { result: Err(not_recording()) },
            ],
        ),
{
}

/// While a recording runs, either gesture stops it: the machine goes on to
/// transcribing, tells so, and has the capture ended.
pub proof fn law_gesture_stops_recording<H>(s: StateView<H>, intent: Intent, cfg: Config)
    requires
        s.session is Recording,
    ensures
        ({
            let (next, actions) = step_spec(s, EventView::Gesture { intent }, cfg);
            &&& phase_of(next.session) is Transcribing
            &&& next.last_error == s.last_error
            &&& next.recording_token == s.recording_token
            &&& actions == seq![
                ActionView::Broadcast { status: status_of(next) },
                ActionView::PlayStopSound,
                ActionView::StopCapture { handle: s.session->Recording_handle },
            ]
        }),
{
}

/// A time limit that was set for another session than the one that records
/// does nothing.
pub proof fn law_stale_guard_is_ignored<H>(s: StateView<H>, token: u64, cfg: Config)
    requires
        !(s.session is Recording) || token != s.recording_token,
    ensures
        step_spec(s, EventView::GuardElapsed { token }, cfg) == (s, Seq::<ActionView<H>>::empty()),
{
}

/// One session at a time: a capture that begins while the machine is not
/// idle is handed back to be abandoned, and nothing changes.
pub proof fn law_one_session_at_a_time<H>(s: StateView<H>, handle: H, path: Seq<char>, cfg: Config)
    requires
        !(s.session is Idle),
    ensures
        step_spec(s, EventView::CaptureStarted { handle, path }, cfg) == (
            s,
            seq![
                ActionView::AbandonCapture { handle, path },
                ActionView::Reply { result: Err(busy()) },
            ],
        ),
{
}

/// The session count moves on by one, wrapping around, exactly when a
/// session starts, and stands still otherwise.
pub proof fn law_token_counts_sessions<H>(s: StateView<H>, e: EventView<H>, cfg: Config)
    ensures
        step_spec(s, e, cfg).0.recording_token == (if e is CaptureStarted && s.session is Idle {
            next_token(s.recording_token)
        } else {
            s.recording_token
        }),
{
}

/// Whenever a step changes what is told (the phase or the remembered error),
/// it tells the new status.
pub proof fn law_every_change_is_told<H>(s: StateView<H>, e: EventView<H>, cfg: Config)
    ensures
        ({
            let (next, actions) = step_spec(s, e, cfg);
            phase_of(next.session) != phase_of(s.session) || next.last_error != s.last_error
                ==> actions.contains(ActionView::Broadcast { status: status_of(next) })
        }),
{
    let (next, actions) = step_spec(s, e, cfg);
    let told = ActionView::<H>::Broadcast { status: status_of(next) };
    if phase_of(next.session) != phase_of(s.session) || next.last_error != s.last_error {
        if next.session is Idle {
            assert(actions[2] == told);
        } else {
            assert(actions[0] == told);
        }
    }
}

/// A step that ends a session leaves the machine idle in one of two ways.
/// By an error: the error is remembered, reported under the label of the
/// session and given as the result, and the audio is removed. Or by success:
/// no error is remembered, the audio is removed, and the transcript is told.
pub proof fn law_sessions_end_cleanly<H>(s: StateView<H>, e: EventView<H>, cfg: Config)
    requires
        !(s.session is Idle),
        step_spec(s, e, cfg).0.session is Idle,
    ensures
        ({
            let (next, actions) = step_spec(s, e, cfg);
            &&& actions.len() == 4
            &&& actions[0] is DeleteFile
            &&& actions[2] == ActionView::<H>::Broadcast { status: status_of(next) }
            &&& match next.last_error {
                Some(message) => {
                    &&& actions[1] == ActionView::<H>::ReportError {
                        context: stop_context(),
                        message,
                    }
                    &&& actions[3] == ActionView::<H>::Reply { result: Err(message) }
                },
                None => {
                    &&& s.session is Inserting
                    &&& actions[1] == ActionView::<H>::TranscriptReady {
                        text: s.session->Inserting_text,
                    }
                    &&& actions[3] == ActionView::<H>::Reply { result: Ok(()) }
                },
            }
        }),
{
}

/// The phases follow one another in one order only: from idle to recording,
/// from recording to transcribing, from transcribing to inserting or back to
/// idle, from inserting to idle.
pub proof fn law_phases_in_order<H>(s: StateView<H>, e: EventView<H>, cfg: Config)
    ensures
        ({
            let before = phase_of(s.session);
            let after = phase_of(step_spec(s, e, cfg).0.session);
            ||| after == before
            ||| before is Idle && after is Recording
            ||| before is Recording && after is Transcribing
            ||| before is Transcribing && after is Inserting
            ||| before is Transcribing && after is Idle
            ||| before is Inserting && after is Idle
        }),
{
}

/// A whole session that goes well. From idle, with a key for the service
/// in the settings: a request to start asks for a capture; the capture that
/// began makes the machine record; a request to stop makes it transcribe;
/// the finished audio is sent off; the transcript makes it insert; and the
/// insertion leaves it idle with no error, the audio removed and the
/// transcript told. Every change of phase is told as it happens.
pub proof fn law_session_succeeds<H>(
    start: StateView<H>,
    handle: H,
    path: Seq<char>,
    audio: Seq<char>,
    text: Seq<char>,
    stop: Intent,
    cfg: Config,
)
    requires
        start.session is Idle,
        trimmed(cfg.azure.api_key@).len() > 0,
    ensures
        ({
            let (s0, a0) = step_spec(
                start,
                EventView::Gesture { intent: Intent::StartOrToggle },
                cfg,
            );
            let (s1, a1) = step_spec(s0, EventView::CaptureStarted { handle, path }, cfg);
            let (s2, a2) = step_spec(s1, EventView::Gesture { intent: stop }, cfg);
            let (s3, a3) = step_spec(s2, EventView::CaptureStopped { result: Ok(audio) }, cfg);
            let (s4, a4) = step_spec(s3, EventView::Transcribed { result: Ok(text) }, cfg);
            let (s5, a5) = step_spec(s4, EventView::Inserted { result: Ok(()) }, cfg);
            &&& a0 == seq![ActionView::<H>::StartCapture]
            &&& phase_of(s1.session) is Recording
            &&& a1[0] == ActionView::<H>::Broadcast { status: status_of(s1) }
            &&& phase_of(s2.session) is Transcribing
            &&& a2 == seq![
                ActionView::Broadcast { status: status_of(s2) },
                ActionView::PlayStopSound,
                ActionView::StopCapture { handle },
            ]
            &&& phase_of(s3.session) is Transcribing
            &&& a3 == seq![ActionView::<H>::Transcribe { path: audio }]
            &&& phase_of(s4.session) is Inserting
            &&& a4 == seq![
                ActionView::<H>::Broadcast { status: status_of(s4) },
                ActionView::<H>::Insert { text, restore_clipboard: cfg.insert.restore_clipboard },
            ]
            &&& s5 == (StateView {
                session: SessionView::<H>::Idle,
                last_error: None,
                recording_token: next_token(start.recording_token),
            })
            &&& a5 == seq![
                ActionView::<H>::DeleteFile { path: audio },
                ActionView::<H>::TranscriptReady { text },
                ActionView::<H>::Broadcast { status: status_of(s5) },
                ActionView::<H>::Reply { result: Ok(()) },
            ]
        }),
{
}

/// A session whose transcription fails. Once the audio is with the service,
/// an error in place of the transcript takes the machine straight back to
/// idle: the error is remembered, the audio removed, and nothing is inserted.
pub proof fn law_failed_transcription_ends_the_session<H>(
    s: StateView<H>,
    message: Seq<char>,
    cfg: Config,
)
    requires
        s.session is Transcribing,
    ensures
        ({
            let (next, actions) = step_spec(
                s,
                EventView::Transcribed { result: Err(message) },
                cfg,
            );
            &&& next == (StateView {
                session: SessionView::<H>::Idle,
                last_error: Some(message),
                recording_token: s.recording_token,
            })
            &&& actions == seq![
                ActionView::<H>::DeleteFile { path: s.session->Transcribing_path },
                ActionView::<H>::ReportError { context: stop_context(), message },
                ActionView::<H>::Broadcast { status: status_of(next) },
                ActionView::<H>::Reply { result: Err(message) },
            ]
        }),
{
}

/// No capture is lost. A capture that records stays with the machine until
/// a step hands it out to be ended, and a capture that is reported to have
/// begun is either taken up as the recording or handed back to be abandoned.
/// In both cases it is handed out by one action only.
pub proof fn law_capture_is_never_lost<H>(s: StateView<H>, e: EventView<H>, cfg: Config)
    ensures
        ({
            let (next, actions) = step_spec(s, e, cfg);
            &&& s.session matches SessionView::Recording { handle, .. } ==> {
                ||| next.session matches SessionView::Recording { handle: kept, .. } && kept
                    == handle
                ||| !(next.session is Recording) && actions.len() == 3 && actions[2]
                    == ActionView::StopCapture { handle }
            }
            &&& e matches EventView::CaptureStarted { handle, path } ==> {
                ||| s.session is Idle && next.session == SessionView::Recording { handle, path }
                ||| !(s.session is Idle) && next.session == s.session && actions[0]
                    == ActionView::AbandonCapture { handle, path }
            }
        }),
{
}

} // verus!
