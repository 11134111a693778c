//! One run of the command as a sequence of decisions.
//!
//! The command stages the song text in a file, probes for Perl, runs the
//! `chordpro` script, removes the file and reports. Writing, running and
//! removing are the caller's part. A [`Session`] decides: it hands out one
//! [`Action`] at a time, takes the [`Event`] that tells how the action went,
//! and answers with the next action, until it hands out the verdict.

use crate::invocation::{generation_invocation, probe_invocation, Invocation, InvocationView};
use crate::message::{
    interpreter_missing_message, interpreter_missing_text, invalid_input_path_message,
    invalid_input_path_text, spawn_failure_message, spawn_failure_text, write_failure_message,
    write_failure_text,
};
use crate::output::{
    verdict_from_output, verdict_of, verdict_view, ProcessOutput, ProcessOutputView,
};
use vstd::prelude::*;

verus! {

/// What the caller is to do next.
#[derive(Debug, PartialEq, Eq)]
pub enum Action {
    /// Write `content` to the input file, over whatever it held.
    WriteInput { content: String },
    /// Start the probe and wait for it to end.
    Probe { invocation: Invocation },
    /// Start the generation run and wait for it to end.
    Generate { invocation: Invocation },
    /// Remove the input file.
    RemoveInput,
    /// Report `verdict`; the session is over.
    Finish { verdict: Result<String, String> },
}

/// [`Action`] as the contracts see it.
pub enum ActionView {
    WriteInput { content: Seq<char> },
    Probe { invocation: InvocationView },
    Generate { invocation: InvocationView },
    RemoveInput,
    Finish { verdict: Result<Seq<char>, Seq<char>> },
}

impl View for Action {
    type V = ActionView;

    open spec fn view(&self) -> ActionView {
        match *self {
            Action::WriteInput { content } => ActionView::WriteInput { content: content@ },
            Action::Probe { invocation } => ActionView::Probe { invocation: invocation@ },
            Action::Generate { invocation } => ActionView::Generate { invocation: invocation@ },
            Action::RemoveInput => ActionView::RemoveInput,
            Action::Finish { verdict } => ActionView::Finish { verdict: verdict_view(verdict) },
        }
    }
}

/// How the last action went.
#[derive(Debug, PartialEq, Eq)]
pub enum Event {
    /// The input file was written.
    InputWritten,
    /// The input file could not be written; `cause` is the system's wording.
    InputNotWritten { cause: String },
    /// The probe was started and has ended, with whatever status.
    ProbeSpawned,
    /// The probe could not be started.
    ProbeNotSpawned,
    /// The generation run could not be started; `cause` is the system's
    /// wording.
    GenerationNotSpawned { cause: String },
    /// The generation run was started and has ended.
    GenerationExited { output: ProcessOutput },
    /// The removal of the input file was tried. Whether it succeeded is not
    /// asked.
    InputRemoved,
}

/// [`Event`] as the contracts see it.
pub enum EventView {
    InputWritten,
    InputNotWritten { cause: Seq<char> },
    ProbeSpawned,
    ProbeNotSpawned,
    GenerationNotSpawned { cause: Seq<char> },
    GenerationExited { output: ProcessOutputView },
    InputRemoved,
}

impl View for Event {
    type V = EventView;

    open spec fn view(&self) -> EventView {
        match *self {
            Event::InputWritten => EventView::InputWritten,
            Event::InputNotWritten { cause } => EventView::InputNotWritten { cause: cause@ },
            Event::ProbeSpawned => EventView::ProbeSpawned,
            Event::ProbeNotSpawned => EventView::ProbeNotSpawned,
            Event::GenerationNotSpawned { cause } => EventView::GenerationNotSpawned {
                cause: cause@,
            },
            Event::GenerationExited { output } => EventView::GenerationExited { output: output@ },
            Event::InputRemoved => EventView::InputRemoved,
        }
    }
}

/// Where a run of the command stands: which action is out, and what is
/// still needed to decide the rest.
///
/// `input_path` is the path of the input file as text; it is `None` where
/// that path has no textual form.
#[derive(Debug, PartialEq, Eq)]
pub enum Session {
    /// The write of the input file is out.
    Staging { output_path: String, input_path: Option<String> },
    /// The probe is out.
    Probing { output_path: String, input_path: Option<String> },
    /// The generation run is out.
    Generating { output_path: String },
    /// The removal of the input file is out; the verdict is drawn.
    Cleaning { verdict: Result<String, String> },
    /// The verdict was handed out.
    Finished,
}

/// [`Session`] as the contracts see it.
pub enum SessionView {
    Staging { output_path: Seq<char>, input_path: Option<Seq<char>> },
    Probing { output_path: Seq<char>, input_path: Option<Seq<char>> },
    Generating { output_path: Seq<char> },
    Cleaning { verdict: Result<Seq<char>, Seq<char>> },
    Finished,
}

impl View for Session {
    type V = SessionView;

    open spec fn view(&self) -> SessionView {
        match *self {
            Session::Staging { output_path, input_path } => SessionView::Staging {
                output_path: output_path@,
                input_path: input_path.deep_view(),
            },
            Session::Probing { output_path, input_path } => SessionView::Probing {
                output_path: output_path@,
                input_path: input_path.deep_view(),
            },
            Session::Generating { output_path } => SessionView::Generating {
                output_path: output_path@,
            },
            Session::Cleaning { verdict } => SessionView::Cleaning {
                verdict: verdict_view(verdict),
            },
            Session::Finished => SessionView::Finished,
        }
    }
}

/// The session that a request opens.
pub open spec fn opening_session(
    output_path: Seq<char>,
    input_path: Option<Seq<char>>,
) -> SessionView {
    SessionView::Staging { output_path, input_path }
}

/// The action that a request opens with.
pub open spec fn opening_action(song_content: Seq<char>) -> ActionView {
    ActionView::WriteInput { content: song_content }
}

/// The rules of the command. Given where the session stands and how the
/// action that is out went, the session that follows and the action that it
/// hands out; `None` where `event` is no answer to the action that is out.
///
/// - A failed write ends the session with its report. Nothing is removed.
/// - After the write comes the probe. A probe that could not be started
///   ends the session with the report that Perl is missing; one that was
///   started is not asked for its status.
/// - After the probe comes the generation run, unless the input file's path
///   has no textual form, which ends the session with its report.
/// - A generation run that could not be started ends the session with its
///   report. Nothing is removed.
/// - A generation run that ended, well or badly, is followed by the removal
///   of the input file, and that by the verdict on the run.
pub open spec fn transition(session: SessionView, event: EventView) -> Option<
    (SessionView, ActionView),
> {
    match (session, event) {
        (SessionView::Staging { output_path, input_path }, EventView::InputWritten) => Some(
            (
                SessionView::Probing { output_path, input_path },
                ActionView::Probe { invocation: probe_invocation() },
            ),
        ),
        (SessionView::Staging { .. }, EventView::InputNotWritten { cause }) => Some(
            (SessionView::Finished, ActionView::Finish { verdict: Err(write_failure_text(cause)) }),
        ),
        (SessionView::Probing { .. }, EventView::ProbeNotSpawned) => Some(
            (SessionView::Finished, ActionView::Finish { verdict: Err(interpreter_missing_text()) }),
        ),
        (
            SessionView::Probing { output_path, input_path: Some(input_path) },
            EventView::ProbeSpawned,
        ) => Some(
            (
                SessionView::Generating { output_path },
                ActionView::Generate {
                    invocation: generation_invocation(output_path, input_path),
                },
            ),
        ),
        (SessionView::Probing { input_path: None, .. }, EventView::ProbeSpawned) => Some(
            (SessionView::Finished, ActionView::Finish { verdict: Err(invalid_input_path_text()) }),
        ),
        (SessionView::Generating { .. }, EventView::GenerationNotSpawned { cause }) => Some(
            (SessionView::Finished, ActionView::Finish { verdict: Err(spawn_failure_text(cause)) }),
        ),
        (SessionView::Generating { output_path }, EventView::GenerationExited { output }) => Some(
            (
                SessionView::Cleaning { verdict: verdict_of(output_path, output) },
                ActionView::RemoveInput,
            ),
        ),
        (SessionView::Cleaning { verdict }, EventView::InputRemoved) => Some(
            (SessionView::Finished, ActionView::Finish { verdict }),
        ),
        _ => None,
    }
}

/// An action that was or was not handed out, as the contracts see it.
pub open spec fn handed_out(action: Option<Action>) -> Option<ActionView> {
    match action {
        Some(action) => Some(action@),
        None => None,
    }
}

impl Session {
    /// Opens a session for the request to turn `song_content` into a PDF at
    /// `output_path`, and hands out its first action: the write of the song
    /// text to the input file.
    pub fn begin(song_content: String, output_path: String, input_path: Option<String>) -> (out: (
        Session,
        Action,
    ))
        ensures
            out.0@ == opening_session(output_path@, input_path.deep_view()),
            out.1@ == opening_action(song_content@),
    {
        (Session::Staging { output_path, input_path }, Action::WriteInput { content: song_content })
    }

    /// Takes the event that tells how the action that is out went, and
    /// answers with the session that follows and the action to do next, as
    /// [`transition`] rules. An event that is no answer to the action that
    /// is out changes nothing and gets `None`.
    pub fn step(self, event: Event) -> (out: (Session, Option<Action>))
        ensures
            match transition(self@, event@) {
                Some((session, action)) => out.0@ == session && handed_out(out.1) == Some(action),
                None => out.0@ == self@ && out.1 is None,
            },
    {
        match self {
            Session::Staging { output_path, input_path } => match event {
                Event::InputWritten => (
                    Session::Probing { output_path, input_path },
                    Some(Action::Probe { invocation: Invocation::probe() }),
                ),
                Event::InputNotWritten { cause } => (
                    Session::Finished,
                    Some(Action::Finish { verdict: Err(write_failure_message(cause.as_str())) }),
                ),
                _ => (Session::Staging { output_path, input_path }, None),
            },
            Session::Probing { output_path, input_path } => match event {
                Event::ProbeNotSpawned => (
                    Session::Finished,
                    Some(Action::Finish { verdict: Err(interpreter_missing_message()) }),
                ),
                Event::ProbeSpawned => match input_path {
                    Some(input_path) => {
                        let invocation = Invocation::generation(output_path.clone(), input_path);
                        (Session::Generating { output_path }, Some(Action::Generate { invocation }))
                    },
                    None => (
                        Session::Finished,
                        Some(Action::Finish { verdict: Err(invalid_input_path_message()) }),
                    ),
                },
                _ => (Session::Probing { output_path, input_path }, None),
            },
            Session::Generating { output_path } => match event {
                Event::GenerationNotSpawned { cause } => (
                    Session::Finished,
                    Some(Action::Finish { verdict: Err(spawn_failure_message(cause.as_str())) }),
                ),
                Event::GenerationExited { output } => {
                    let verdict = verdict_from_output(output_path.as_str(), &output);
                    (Session::Cleaning { verdict }, Some(Action::RemoveInput))
                },
                _ => (Session::Generating { output_path }, None),
            },
            Session::Cleaning { verdict } => match event {
                Event::InputRemoved => (Session::Finished, Some(Action::Finish { verdict })),
                _ => (Session::Cleaning { verdict }, None),
            },
            Session::Finished => (Session::Finished, None),
        }
    }
}

} // verus!
