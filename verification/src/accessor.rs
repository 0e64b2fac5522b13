//! The tag accessor's errors, and the protocol by which one file is updated.
//!
//! Reading and writing the file is the work of the metadata library, which the
//! front end calls. What is decided here is what to ask of it next and how the
//! update ends: the front end performs the action that [`Update::action`] names
//! and hands what came of it to [`Update::step`], until the action is to finish.

use crate::field::Field;
use crate::policy::written;
use crate::snapshot::{tag_views, AudioTags, Tag, TagView, TagsView};
use vstd::prelude::*;
use vstd::std_specs::convert::FromSpecImpl;

verus! {

/// Why the metadata library rejected a file.
#[derive(Clone, Copy, Debug, PartialEq, Eq, Structural)]
pub enum LibraryError {
    /// The file is an invalid or an unrecognized audio container.
    InvalidFile,
    /// The file name is invalid.
    InvalidFileName,
    /// No metadata is available.
    NoAvailableTag,
    /// No audio properties are available.
    NoAvailableAudioProperties,
}

/// Why a file could not be opened, read or updated.
#[derive(Clone, Copy, Debug, PartialEq, Eq, Structural)]
pub enum FileError {
    /// The path does not name an existing regular file.
    NotAFile,
    /// The metadata library rejected the file.
    TaglibError(LibraryError),
    /// The tags were changed in memory, but the file could not be saved.
    TaglibFailedToSaveFile,
}

impl From<LibraryError> for FileError {
    fn from(error: LibraryError) -> (r: FileError) {
        FileError::TaglibError(error)
    }
}

impl FromSpecImpl<LibraryError> for FileError {
    open spec fn obeys_from_spec() -> bool {
        true
    }

    open spec fn from_spec(error: LibraryError) -> FileError {
        FileError::TaglibError(error)
    }
}

impl LibraryError {
    /// The error in words.
    pub open spec fn spec_message(self) -> Seq<char> {
        match self {
            LibraryError::InvalidFile => "invalid or unrecognized audio file"@,
            LibraryError::InvalidFileName => "invalid file name"@,
            LibraryError::NoAvailableTag => "no metadata available"@,
            LibraryError::NoAvailableAudioProperties => "no audio properties available"@,
        }
    }

    /// The error in words.
    pub fn message(&self) -> (r: &'static str)
        ensures
            r@ == self.spec_message(),
    {
        match self {
            LibraryError::InvalidFile => "invalid or unrecognized audio file",
            LibraryError::InvalidFileName => "invalid file name",
            LibraryError::NoAvailableTag => "no metadata available",
            LibraryError::NoAvailableAudioProperties => "no audio properties available",
        }
    }
}

impl FileError {
    /// The error in words.
    pub open spec fn spec_message(self) -> Seq<char> {
        match self {
            FileError::NotAFile => "not a file"@,
            FileError::TaglibError(error) => error.spec_message(),
            FileError::TaglibFailedToSaveFile => "failed to save the file"@,
        }
    }

    /// The error in words.
    pub fn message(&self) -> (r: &'static str)
        ensures
            r@ == self.spec_message(),
    {
        match self {
            FileError::NotAFile => "not a file",
            FileError::TaglibError(error) => error.message(),
            FileError::TaglibFailedToSaveFile => "failed to save the file",
        }
    }
}

/// What the front end reports back while a file is opened.
#[derive(Clone, Copy, Debug, PartialEq, Eq)]
pub enum OpenEvent {
    /// Whether the path names an existing regular file.
    Checked(bool),
    /// The library opened the file, or rejected it.
    Opened(Result<(), LibraryError>),
}

/// What the opening of a file asks the front end to do next.
#[derive(Clone, Copy, Debug, PartialEq, Eq)]
pub enum OpenAction {
    /// Find out whether the path names an existing regular file.
    CheckPath,
    /// Have the library open the file.
    OpenFile,
    /// Stop: the opening has ended like this.
    Finish(Result<(), FileError>),
}

/// Where the opening of one file stands.
#[derive(Clone, Copy, Debug, PartialEq, Eq)]
pub enum Open {
    /// It is not known yet whether the path names a regular file.
    Checking,
    /// The path names a regular file; the library's answer is awaited.
    Opening,
    /// The opening has ended.
    Done(Result<(), FileError>),
}

impl Open {
    /// The state after `event`. A path that names no existing regular file ends
    /// the opening with `NotAFile`, and the library is not asked. What the
    /// library answers ends it: well, or with the library's error. An event that
    /// the state does not await changes nothing.
    pub open spec fn spec_step(self, event: OpenEvent) -> Open {
        match (self, event) {
            (Open::Checking, OpenEvent::Checked(true)) => Open::Opening,
            (Open::Checking, OpenEvent::Checked(false)) => Open::Done(Err(FileError::NotAFile)),
            (Open::Opening, OpenEvent::Opened(Ok(()))) => Open::Done(Ok(())),
            (Open::Opening, OpenEvent::Opened(Err(error))) => Open::Done(
                Err(FileError::TaglibError(error)),
            ),
            _ => self,
        }
    }

    /// What the state asks the front end to do.
    pub open spec fn spec_action(self) -> OpenAction {
        match self {
            Open::Checking => OpenAction::CheckPath,
            Open::Opening => OpenAction::OpenFile,
            Open::Done(outcome) => OpenAction::Finish(outcome),
        }
    }

    /// The opening of a file, before anything was done.
    pub fn begin() -> (r: Open)
        ensures
            r == Open::Checking,
    {
        Open::Checking
    }

    /// The state after `event`.
    pub fn step(self, event: OpenEvent) -> (r: Open)
        ensures
            r == self.spec_step(event),
    {
        match self {
            Open::Checking => match event {
                OpenEvent::Checked(true) => Open::Opening,
                OpenEvent::Checked(false) => Open::Done(Err(FileError::NotAFile)),
                OpenEvent::Opened(_) => Open::Checking,
            },
            Open::Opening => match event {
                OpenEvent::Opened(Ok(())) => Open::Done(Ok(())),
                OpenEvent::Opened(Err(error)) => Open::Done(Err(FileError::from(error))),
                OpenEvent::Checked(_) => Open::Opening,
            },
            Open::Done(outcome) => Open::Done(outcome),
        }
    }

    /// What the front end has to do next.
    pub fn action(&self) -> (r: OpenAction)
        ensures
            r == self.spec_action(),
    {
        match self {
            Open::Checking => OpenAction::CheckPath,
            Open::Opening => OpenAction::OpenFile,
            Open::Done(outcome) => OpenAction::Finish(*outcome),
        }
    }
}

/// The tags that were read, or the error that stands for the library's.
pub fn tags_read(tags: Result<AudioTags, LibraryError>) -> (r: Result<AudioTags, FileError>)
    ensures
        match tags {
            Ok(read) => r matches Ok(given) && given@ == read@,
            Err(error) => r matches Err(FileError::TaglibError(relayed)) && relayed == error,
        },
{
    match tags {
        Ok(read) => Ok(read),
        Err(error) => Err(FileError::from(error)),
    }
}

/// What the front end reports back to an update.
pub enum UpdateEvent {
    /// The tags that the file holds were read, or the library had none to give.
    Tags(Result<AudioTags, LibraryError>),
    /// The tags were written and the file was saved, or the save failed.
    Saved(bool),
}

/// An `UpdateEvent` as a mathematical value.
pub enum UpdateEventView {
    Tags(Result<TagsView, LibraryError>),
    Saved(bool),
}

impl View for UpdateEvent {
    type V = UpdateEventView;

    open spec fn view(&self) -> UpdateEventView {
        match self {
            UpdateEvent::Tags(Ok(tags)) => UpdateEventView::Tags(Ok(tags@)),
            UpdateEvent::Tags(Err(error)) => UpdateEventView::Tags(Err(*error)),
            UpdateEvent::Saved(saved) => UpdateEventView::Saved(*saved),
        }
    }
}

/// What an update asks the front end to do next.
#[derive(Debug, PartialEq, Eq)]
pub enum UpdateAction {
    /// Read the tags that the file holds.
    ReadTags,
    /// Write these tags, in this order, then save the file.
    WriteAndSave(Vec<Tag>),
    /// Stop: the update has ended like this.
    Finish(Result<(), FileError>),
}

/// An `UpdateAction` as a mathematical value.
pub enum UpdateActionView {
    ReadTags,
    WriteAndSave(Seq<TagView>),
    Finish(Result<(), FileError>),
}

impl View for UpdateAction {
    type V = UpdateActionView;

    open spec fn view(&self) -> UpdateActionView {
        match self {
            UpdateAction::ReadTags => UpdateActionView::ReadTags,
            UpdateAction::WriteAndSave(tags) => UpdateActionView::WriteAndSave(tag_views(tags@)),
            UpdateAction::Finish(result) => UpdateActionView::Finish(*result),
        }
    }
}

/// Where the update of one file stands.
#[derive(Debug, PartialEq, Eq)]
pub enum Update {
    /// The tags of the file are awaited; `desired` is what the update asks for.
    Reading { desired: AudioTags },
    /// The outcome of writing `changes` and saving is awaited.
    Saving { changes: AudioTags },
    /// The update has ended.
    Done(Result<(), FileError>),
}

/// An `Update` as a mathematical value.
pub enum UpdateView {
    Reading { desired: TagsView },
    Saving { changes: TagsView },
    Done(Result<(), FileError>),
}

impl View for Update {
    type V = UpdateView;

    open spec fn view(&self) -> UpdateView {
        match self {
            Update::Reading { desired } => UpdateView::Reading { desired: desired@ },
            Update::Saving { changes } => UpdateView::Saving { changes: changes@ },
            Update::Done(result) => UpdateView::Done(*result),
        }
    }
}

impl UpdateView {
    /// The state after `event`. Having read the tags, the update ends at once if
    /// the library had none to give or if no tag has to be written; otherwise it
    /// goes on to write the tags that differ. Having saved, it ends, with an error
    /// if the save failed. An event that the state does not await changes nothing.
    pub open spec fn step(self, event: UpdateEventView) -> UpdateView {
        match (self, event) {
            (UpdateView::Reading { desired }, UpdateEventView::Tags(Err(error))) => UpdateView::Done(
                Err(FileError::TaglibError(error)),
            ),
            (UpdateView::Reading { desired }, UpdateEventView::Tags(Ok(current))) => {
                if desired.changes(current) == TagsView::empty() {
                    UpdateView::Done(Ok(()))
                } else {
                    UpdateView::Saving { changes: desired.changes(current) }
                }
            },
            (UpdateView::Saving { changes }, UpdateEventView::Saved(saved)) => {
                if saved {
                    UpdateView::Done(Ok(()))
                } else {
                    UpdateView::Done(Err(FileError::TaglibFailedToSaveFile))
                }
            },
            _ => self,
        }
    }

    /// What the state asks the front end to do.
    pub open spec fn action(self) -> UpdateActionView {
        match self {
            UpdateView::Reading { desired } => UpdateActionView::ReadTags,
            UpdateView::Saving { changes } => UpdateActionView::WriteAndSave(changes.entries()),
            UpdateView::Done(result) => UpdateActionView::Finish(result),
        }
    }
}

impl Update {
    /// The update of a file towards `desired`, before anything was done.
    pub fn begin(desired: AudioTags) -> (r: Update)
        ensures
            r@ == (UpdateView::Reading { desired: desired@ }),
    {
        Update::Reading { desired }
    }

    /// The state after `event`.
    pub fn step(self, event: UpdateEvent) -> (r: Update)
        ensures
            r@ == self@.step(event@),
    {
        match self {
            Update::Reading { desired } => match event {
                UpdateEvent::Tags(Err(error)) => Update::Done(Err(FileError::TaglibError(error))),
                UpdateEvent::Tags(Ok(current)) => {
                    let changes = desired.changes(&current);
                    if changes.is_empty() {
                        Update::Done(Ok(()))
                    } else {
                        Update::Saving { changes }
                    }
                },
                UpdateEvent::Saved(_) => Update::Reading { desired },
            },
            Update::Saving { changes } => match event {
                UpdateEvent::Saved(true) => Update::Done(Ok(())),
                UpdateEvent::Saved(false) => Update::Done(Err(FileError::TaglibFailedToSaveFile)),
                UpdateEvent::Tags(_) => Update::Saving { changes },
            },
            Update::Done(result) => Update::Done(result),
        }
    }

    /// What the front end has to do next.
    pub fn action(&self) -> (r: UpdateAction)
        ensures
            r@ == self@.action(),
    {
        match self {
            Update::Reading { desired } => UpdateAction::ReadTags,
            Update::Saving { changes } => UpdateAction::WriteAndSave(changes.entries()),
            Update::Done(result) => UpdateAction::Finish(*result),
        }
    }
}

/// An update that finds no tags to read ends with the library's error, and
/// nothing is written.
pub proof fn lemma_update_without_tags(desired: TagsView, error: LibraryError)
    ensures
        (UpdateView::Reading { desired }).step(UpdateEventView::Tags(Err(error))).action()
            == UpdateActionView::Finish(Err(FileError::TaglibError(error))),
{
}

/// An update asks for a save if and only if some tag has to be written, and it
/// then asks to write exactly the tags that have to be. Otherwise it ends well
/// without touching the file.
pub proof fn lemma_update_saves_only_changes(desired: TagsView, current: TagsView)
    ensures
        ({
            let next = (UpdateView::Reading { desired }).step(UpdateEventView::Tags(Ok(current)));
            if exists|field: Field| written(desired, current, field) {
                next.action() == UpdateActionView::WriteAndSave(desired.changes(current).entries())
            } else {
                next.action() == UpdateActionView::Finish(Ok(()))
            }
        }),
{
    crate::policy::lemma_nothing_written(desired, current);
}

/// An update that holds no tag never asks for a save.
pub proof fn lemma_empty_update_never_saves(current: TagsView)
    ensures
        (UpdateView::Reading { desired: TagsView::empty() }).step(
            UpdateEventView::Tags(Ok(current)),
        ) == UpdateView::Done(Ok(())),
{
}

/// A failed save ends the update with an error; a save that went through ends
/// it well.
pub proof fn lemma_update_after_save(changes: TagsView, saved: bool)
    ensures
        (UpdateView::Saving { changes }).step(UpdateEventView::Saved(saved)).action()
            == UpdateActionView::Finish(
            if saved {
                Ok(())
            } else {
                Err(FileError::TaglibFailedToSaveFile)
            },
        ),
{
}

} // verus!
