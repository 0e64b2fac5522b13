//! The editor bridge: text is written to a temporary file, an external editor
//! is run on the file, and what the file then holds is read back.
//!
//! Files and processes are the front end's work. What is decided here is what
//! to do next and how the round trip ends: the front end performs the action
//! that [`EditSession::action`] names and hands what came of it to
//! [`EditSession::step`], until the action is to finish. The temporary file is
//! removed on every path that created it, before the session ends.

use crate::decimal::{append_signed_decimal, signed_decimal};
use vstd::prelude::*;
use vstd::string::*;

verus! {

/// Why an editor round trip failed.
#[derive(Debug, PartialEq, Eq)]
pub enum Error {
    /// The temporary file could not be created, written or read back, or the
    /// editor could not be run; with the system's message.
    IoError(String),
    /// The editor did not end with success; with its exit code, if it has one.
    NonZeroExitStatus(Option<i32>),
    /// The path of the temporary file is not text.
    PathError,
}

/// An `Error` as a mathematical value.
pub enum ErrorView {
    IoError(Seq<char>),
    NonZeroExitStatus(Option<i32>),
    PathError,
}

impl View for Error {
    type V = ErrorView;

    open spec fn view(&self) -> ErrorView {
        match self {
            Error::IoError(message) => ErrorView::IoError(message@),
            Error::NonZeroExitStatus(code) => ErrorView::NonZeroExitStatus(*code),
            Error::PathError => ErrorView::PathError,
        }
    }
}

impl Clone for Error {
    fn clone(&self) -> (r: Self)
        ensures
            r@ == self@,
    {
        match self {
            Error::IoError(message) => Error::IoError(message.clone()),
            Error::NonZeroExitStatus(code) => Error::NonZeroExitStatus(*code),
            Error::PathError => Error::PathError,
        }
    }
}

impl ErrorView {
    /// The error in words.
    pub open spec fn message(self) -> Seq<char> {
        match self {
            ErrorView::IoError(message) => message,
            ErrorView::NonZeroExitStatus(Some(code)) => "Editor exited with "@ + signed_decimal(
                code as int,
            ) + " exit code"@,
            ErrorView::NonZeroExitStatus(None) => "Editor exited with "@ + "no"@ + " exit code"@,
            ErrorView::PathError => "Fail to get tempfile path"@,
        }
    }
}

impl Error {
    /// The error in words: the system's message for an I/O error, the exit code
    /// of an editor that failed, or `no` in its place if it has none.
    pub fn message(&self) -> (r: String)
        ensures
            r@ == self@.message(),
    {
        match self {
            Error::IoError(message) => message.clone(),
            Error::NonZeroExitStatus(code) => {
                let mut out = String::from_str("Editor exited with ");
                match code {
                    Some(code) => {
                        append_signed_decimal(&mut out, *code);
                    },
                    None => {
                        out.append("no");
                    },
                }
                out.append(" exit code");
                assert(out@ =~= self@.message());
                out
            },
            Error::PathError => String::from_str("Fail to get tempfile path"),
        }
    }
}

/// The editor to run: the first of `visual` and `editor` that is set, and `vi`
/// when neither is.
pub fn choose_editor(visual: Option<String>, editor: Option<String>) -> (r: String)
    ensures
        r@ == (match (visual, editor) {
            (Some(v), _) => v@,
            (None, Some(e)) => e@,
            (None, None) => "vi"@,
        }),
{
    match visual {
        Some(v) => v,
        None => match editor {
            Some(e) => e,
            None => String::from_str("vi"),
        },
    }
}

/// How the editor ended.
#[derive(Clone, Copy, Debug, PartialEq, Eq, Structural)]
pub struct Exit {
    /// Whether it ended with success.
    pub success: bool,
    /// Its exit code, if it has one.
    pub code: Option<i32>,
}

/// What the front end reports back to a session. A failure comes with the
/// system's message.
#[derive(Debug, PartialEq, Eq)]
pub enum EditEvent {
    /// The temporary file was created; with its path, if the path is text.
    Created(Result<Option<String>, String>),
    /// The content was written to the file.
    Written(Result<(), String>),
    /// The editor was started.
    Launched(Result<(), String>),
    /// The editor ended.
    Exited(Result<Exit, String>),
    /// What the file holds was read.
    Read(Result<String, String>),
    /// The temporary file is gone.
    Removed,
}

/// An `EditEvent` as a mathematical value.
pub enum EditEventView {
    Created(Result<Option<Seq<char>>, Seq<char>>),
    Written(Result<(), Seq<char>>),
    Launched(Result<(), Seq<char>>),
    Exited(Result<Exit, Seq<char>>),
    Read(Result<Seq<char>, Seq<char>>),
    Removed,
}

impl View for EditEvent {
    type V = EditEventView;

    open spec fn view(&self) -> EditEventView {
        match self {
            EditEvent::Created(Ok(Some(path))) => EditEventView::Created(Ok(Some(path@))),
            EditEvent::Created(Ok(None)) => EditEventView::Created(Ok(None)),
            EditEvent::Created(Err(message)) => EditEventView::Created(Err(message@)),
            EditEvent::Written(Ok(())) => EditEventView::Written(Ok(())),
            EditEvent::Written(Err(message)) => EditEventView::Written(Err(message@)),
            EditEvent::Launched(Ok(())) => EditEventView::Launched(Ok(())),
            EditEvent::Launched(Err(message)) => EditEventView::Launched(Err(message@)),
            EditEvent::Exited(Ok(exit)) => EditEventView::Exited(Ok(*exit)),
            EditEvent::Exited(Err(message)) => EditEventView::Exited(Err(message@)),
            EditEvent::Read(Ok(text)) => EditEventView::Read(Ok(text@)),
            EditEvent::Read(Err(message)) => EditEventView::Read(Err(message@)),
            EditEvent::Removed => EditEventView::Removed,
        }
    }
}

/// What a session asks the front end to do next.
#[derive(Debug, PartialEq, Eq)]
pub enum EditAction {
    /// Create a fresh temporary file whose name starts with `prefix` and goes on
    /// with `random` random characters.
    CreateFile { prefix: String, random: usize },
    /// Write `content` to the file.
    Write { content: String },
    /// Start `editor` with `path` as its one argument.
    Launch { editor: String, path: String },
    /// Wait until the editor has ended.
    Wait,
    /// Read what the file holds.
    Read,
    /// Remove the file.
    Remove,
    /// Stop: the round trip has ended like this.
    Finish(Result<String, Error>),
}

/// An `EditAction` as a mathematical value.
pub enum EditActionView {
    CreateFile { prefix: Seq<char>, random: usize },
    Write { content: Seq<char> },
    Launch { editor: Seq<char>, path: Seq<char> },
    Wait,
    Read,
    Remove,
    Finish(Result<Seq<char>, ErrorView>),
}

/// The mathematical value of the outcome of a round trip.
pub open spec fn outcome_view(outcome: Result<String, Error>) -> Result<Seq<char>, ErrorView> {
    match outcome {
        Ok(text) => Ok(text@),
        Err(error) => Err(error@),
    }
}

impl View for EditAction {
    type V = EditActionView;

    open spec fn view(&self) -> EditActionView {
        match self {
            EditAction::CreateFile { prefix, random } => EditActionView::CreateFile {
                prefix: prefix@,
                random: *random,
            },
            EditAction::Write { content } => EditActionView::Write { content: content@ },
            EditAction::Launch { editor, path } => EditActionView::Launch {
                editor: editor@,
                path: path@,
            },
            EditAction::Wait => EditActionView::Wait,
            EditAction::Read => EditActionView::Read,
            EditAction::Remove => EditActionView::Remove,
            EditAction::Finish(outcome) => EditActionView::Finish(outcome_view(*outcome)),
        }
    }
}

/// Where an editor round trip stands.
#[derive(Debug, PartialEq, Eq)]
pub enum EditSession {
    /// Nothing was done yet.
    Start { editor: String, content: String },
    /// The temporary file exists and is empty; `path_text` is its path, if the
    /// path is text.
    Created { editor: String, content: String, path_text: Option<String> },
    /// The file holds the content.
    Written { editor: String, path: String },
    /// The editor is running on the file.
    EditorRunning,
    /// The editor ended with success; what the file holds is awaited.
    Reading,
    /// The outcome is known; the file is still to be removed.
    Closing(Result<String, Error>),
    /// The round trip has ended with the edited content.
    ReadBack(String),
    /// The round trip has ended with an error.
    Aborted(Error),
}

/// An `EditSession` as a mathematical value.
pub enum EditSessionView {
    Start { editor: Seq<char>, content: Seq<char> },
    Created { editor: Seq<char>, content: Seq<char>, path_text: Option<Seq<char>> },
    Written { editor: Seq<char>, path: Seq<char> },
    EditorRunning,
    Reading,
    Closing(Result<Seq<char>, ErrorView>),
    ReadBack(Seq<char>),
    Aborted(ErrorView),
}

impl View for EditSession {
    type V = EditSessionView;

    open spec fn view(&self) -> EditSessionView {
        match self {
            EditSession::Start { editor, content } => EditSessionView::Start {
                editor: editor@,
                content: content@,
            },
            EditSession::Created { editor, content, path_text } => EditSessionView::Created {
                editor: editor@,
                content: content@,
                path_text: crate::snapshot::text_view(*path_text),
            },
            EditSession::Written { editor, path } => EditSessionView::Written {
                editor: editor@,
                path: path@,
            },
            EditSession::EditorRunning => EditSessionView::EditorRunning,
            EditSession::Reading => EditSessionView::Reading,
            EditSession::Closing(outcome) => EditSessionView::Closing(outcome_view(*outcome)),
            EditSession::ReadBack(text) => EditSessionView::ReadBack(text@),
            EditSession::Aborted(error) => EditSessionView::Aborted(error@),
        }
    }
}

/// The state in which a round trip that has come to `outcome` ends.
pub open spec fn ended(outcome: Result<Seq<char>, ErrorView>) -> EditSessionView {
    match outcome {
        Ok(text) => EditSessionView::ReadBack(text),
        Err(error) => EditSessionView::Aborted(error),
    }
}

impl EditSessionView {
    /// Whether the round trip has ended.
    pub open spec fn is_final(self) -> bool {
        self is ReadBack || self is Aborted
    }

    /// Whether the temporary file exists.
    pub open spec fn holds_file(self) -> bool {
        self is Created || self is Written || self is EditorRunning || self is Reading
            || self is Closing
    }

    /// The state after `event`. Each step that fails settles the outcome: an
    /// I/O error with the system's message, a path that is not text, or an
    /// editor that did not end with success, whose edits are then not read. The
    /// content that was read back is the outcome when every step went through.
    /// Once the file exists, the session goes through `Closing`, where the file
    /// is removed, before it ends. An event that the state does not await
    /// changes nothing.
    pub open spec fn step(self, event: EditEventView) -> EditSessionView {
        match (self, event) {
            (EditSessionView::Start { editor, content }, EditEventView::Created(Ok(path_text))) => {
                EditSessionView::Created { editor, content, path_text }
            },
            (EditSessionView::Start { editor, content }, EditEventView::Created(Err(message))) => {
                EditSessionView::Aborted(ErrorView::IoError(message))
            },
            (
                EditSessionView::Created { editor, content, path_text },
                EditEventView::Written(Ok(())),
            ) => match path_text {
                Some(path) => EditSessionView::Written { editor, path },
                None => EditSessionView::Closing(Err(ErrorView::PathError)),
            },
            (
                EditSessionView::Created { editor, content, path_text },
                EditEventView::Written(Err(message)),
            ) => EditSessionView::Closing(Err(ErrorView::IoError(message))),
            (EditSessionView::Written { editor, path }, EditEventView::Launched(Ok(()))) => {
                EditSessionView::EditorRunning
            },
            (EditSessionView::Written { editor, path }, EditEventView::Launched(Err(message))) => {
                EditSessionView::Closing(Err(ErrorView::IoError(message)))
            },
            (EditSessionView::EditorRunning, EditEventView::Exited(Ok(exit))) => {
                if exit.success {
                    EditSessionView::Reading
                } else {
                    EditSessionView::Closing(Err(ErrorView::NonZeroExitStatus(exit.code)))
                }
            },
            (EditSessionView::EditorRunning, EditEventView::Exited(Err(message))) => {
                EditSessionView::Closing(Err(ErrorView::IoError(message)))
            },
            (EditSessionView::Reading, EditEventView::Read(Ok(text))) => EditSessionView::Closing(
                Ok(text),
            ),
            (EditSessionView::Reading, EditEventView::Read(Err(message))) => {
                EditSessionView::Closing(Err(ErrorView::IoError(message)))
            },
            (EditSessionView::Closing(outcome), EditEventView::Removed) => ended(outcome),
            _ => self,
        }
    }

    /// What the state asks the front end to do.
    pub open spec fn action(self) -> EditActionView {
        match self {
            EditSessionView::Start { editor, content } => EditActionView::CreateFile {
                prefix: "tags-"@,
                random: 10,
            },
            EditSessionView::Created { editor, content, path_text } => EditActionView::Write {
                content,
            },
            EditSessionView::Written { editor, path } => EditActionView::Launch { editor, path },
            EditSessionView::EditorRunning => EditActionView::Wait,
            EditSessionView::Reading => EditActionView::Read,
            EditSessionView::Closing(outcome) => EditActionView::Remove,
            EditSessionView::ReadBack(text) => EditActionView::Finish(Ok(text)),
            EditSessionView::Aborted(error) => EditActionView::Finish(Err(error)),
        }
    }
}

impl EditSession {
    /// The round trip of `content` through `editor`, before anything was done.
    pub fn start(editor: String, content: String) -> (r: EditSession)
        ensures
            r@ == (EditSessionView::Start { editor: editor@, content: content@ }),
    {
        EditSession::Start { editor, content }
    }

    /// The state after `event`.
    pub fn step(self, event: EditEvent) -> (r: EditSession)
        ensures
            r@ == self@.step(event@),
    {
        match self {
            EditSession::Start { editor, content } => match event {
                EditEvent::Created(Ok(path_text)) => EditSession::Created {
                    editor,
                    content,
                    path_text,
                },
                EditEvent::Created(Err(message)) => EditSession::Aborted(Error::IoError(message)),
                _ => EditSession::Start { editor, content },
            },
            EditSession::Created { editor, content, path_text } => match event {
                EditEvent::Written(Ok(())) => match path_text {
                    Some(path) => EditSession::Written { editor, path },
                    None => EditSession::Closing(Err(Error::PathError)),
                },
                EditEvent::Written(Err(message)) => EditSession::Closing(
                    Err(Error::IoError(message)),
                ),
                _ => EditSession::Created { editor, content, path_text },
            },
            EditSession::Written { editor, path } => match event {
                EditEvent::Launched(Ok(())) => EditSession::EditorRunning,
                EditEvent::Launched(Err(message)) => EditSession::Closing(
                    Err(Error::IoError(message)),
                ),
                _ => EditSession::Written { editor, path },
            },
            EditSession::EditorRunning => match event {
                EditEvent::Exited(Ok(exit)) => {
                    if exit.success {
                        EditSession::Reading
                    } else {
                        EditSession::Closing(Err(Error::NonZeroExitStatus(exit.code)))
                    }
                },
                EditEvent::Exited(Err(message)) => EditSession::Closing(
                    Err(Error::IoError(message)),
                ),
                _ => EditSession::EditorRunning,
            },
            EditSession::Reading => match event {
                EditEvent::Read(Ok(text)) => EditSession::Closing(Ok(text)),
                EditEvent::Read(Err(message)) => EditSession::Closing(Err(Error::IoError(message))),
                _ => EditSession::Reading,
            },
            EditSession::Closing(outcome) => match event {
                EditEvent::Removed => match outcome {
                    Ok(text) => EditSession::ReadBack(text),
                    Err(error) => EditSession::Aborted(error),
                },
                _ => EditSession::Closing(outcome),
            },
            EditSession::ReadBack(text) => EditSession::ReadBack(text),
            EditSession::Aborted(error) => EditSession::Aborted(error),
        }
    }

    /// What the front end has to do next.
    pub fn action(&self) -> (r: EditAction)
        ensures
            r@ == self@.action(),
    {
        match self {
            EditSession::Start { editor, content } => EditAction::CreateFile {
                prefix: String::from_str("tags-"),
                random: 10,
            },
            EditSession::Created { editor, content, path_text } => EditAction::Write {
                content: content.clone(),
            },
            EditSession::Written { editor, path } => EditAction::Launch {
                editor: editor.clone(),
                path: path.clone(),
            },
            EditSession::EditorRunning => EditAction::Wait,
            EditSession::Reading => EditAction::Read,
            EditSession::Closing(outcome) => EditAction::Remove,
            EditSession::ReadBack(text) => EditAction::Finish(Ok(text.clone())),
            EditSession::Aborted(error) => EditAction::Finish(Err(error.clone())),
        }
    }
}

/// A session that has ended stays as it is, whatever is reported to it.
pub proof fn lemma_final_states_stay(session: EditSessionView, event: EditEventView)
    requires
        session.is_final(),
    ensures
        session.step(event) == session,
{
}

/// A session whose temporary file exists ends in no other way than by the
/// removal of the file: the file is removed on every path, whether the editor
/// failed, the content could not be read back, or all went well.
pub proof fn lemma_file_removed_before_end(session: EditSessionView, event: EditEventView)
    requires
        session.holds_file(),
        session.step(event).is_final(),
    ensures
        session is Closing,
        session.action() == EditActionView::Remove,
        event == EditEventView::Removed,
        session.step(event) == ended(session->Closing_0),
{
}

/// A step that fails while the file exists leads to `Closing` with the error,
/// and the removal that follows ends the session with that error.
pub proof fn lemma_failure_aborts(session: EditSessionView, event: EditEventView)
    requires
        session.holds_file(),
        session.step(event) matches EditSessionView::Closing(Err(error)),
    ensures
        session.step(event).step(EditEventView::Removed) == EditSessionView::Aborted(
            session.step(event)->Closing_0->Err_0,
        ),
{
}

/// An editor that did not end with success has its edits discarded: the file
/// is not read, and the round trip ends with the editor's exit code.
pub proof fn lemma_failed_editor_discards_edits(exit: Exit)
    requires
        !exit.success,
    ensures
        ({
            let next = EditSessionView::EditorRunning.step(EditEventView::Exited(Ok(exit)));
            &&& next.action() == EditActionView::Remove
            &&& next.step(EditEventView::Removed) == EditSessionView::Aborted(
                ErrorView::NonZeroExitStatus(exit.code),
            )
        }),
{
}

/// The round trip in which every step goes through: the actions are, in order,
/// to create the file, to write the content, to start the editor on the file,
/// to wait for it, to read the file, to remove it and to finish with what was
/// read.
pub proof fn lemma_round_trip(
    editor: Seq<char>,
    content: Seq<char>,
    path: Seq<char>,
    exit: Exit,
    edited: Seq<char>,
)
    requires
        exit.success,
    ensures
        ({
            let s0 = EditSessionView::Start { editor, content };
            let s1 = s0.step(EditEventView::Created(Ok(Some(path))));
            let s2 = s1.step(EditEventView::Written(Ok(())));
            let s3 = s2.step(EditEventView::Launched(Ok(())));
            let s4 = s3.step(EditEventView::Exited(Ok(exit)));
            let s5 = s4.step(EditEventView::Read(Ok(edited)));
            let s6 = s5.step(EditEventView::Removed);
            &&& s0.action() == (EditActionView::CreateFile { prefix: "tags-"@, random: 10 })
            &&& s1.action() == (EditActionView::Write { content })
            &&& s2.action() == (EditActionView::Launch { editor, path })
            &&& s3.action() == EditActionView::Wait
            &&& s4.action() == EditActionView::Read
            &&& s5.action() == EditActionView::Remove
            &&& s6.action() == EditActionView::Finish(Ok(edited))
        }),
{
}

} // verus!
