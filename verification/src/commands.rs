//! What the commands decide between reading the files and writing them: the
//! text that `view` prints, the document that `editor` hands to the editor and
//! the updates that come back from it, the snapshot that `quickedit` applies,
//! and the lines that report a failure.

use crate::accessor::FileError;
use crate::batch::{
    batch_entries, batch_from_json, batch_in, batch_to_json, file_views, FileTags, FileTagsView,
};
use crate::decimal::{parse_u32, parsed_u32};
use crate::json::{json_pretty, snapshot_in, value_entries, MalformedInput};
use crate::listing::{position_of, Listing};
use crate::snapshot::{text_view, AudioTags, TagsView};
use vstd::prelude::*;
use vstd::string::*;

verus! {

/// Whether the command works on one file alone: it was given one file, and
/// that file is loaded.
pub open spec fn is_single(files: Seq<FileTagsView>, requested: usize) -> bool {
    requested == 1 && files.len() > 0
}

/// What `view` prints for the files that it loaded. For one file alone, when
/// JSON was not asked for: its tags as text. In every other case, that is for
/// several files or when JSON was asked for: the JSON object that has one member
/// for each file, named after the file, and a line feed.
pub open spec fn view_text(files: Seq<FileTagsView>, requested: usize, json: bool) -> Seq<char> {
    if is_single(files, requested) && !json {
        files[0].tags.rendered()
    } else {
        json_pretty(batch_entries(files)) + "\n"@
    }
}

/// What `view` prints for the files of `listing`, when it was given
/// `requested` files and `json` tells whether JSON was asked for.
pub fn view_output(listing: &Listing, requested: usize, json: bool) -> (r: String)
    ensures
        r@ == view_text(listing@, requested, json),
{
    match listing.single(requested) {
        Some(file) if !json => file.tags.render(),
        _ => {
            let mut out = batch_to_json(listing.files());
            out.append("\n");
            out
        },
    }
}

/// The document that `editor` hands to the editor: the JSON object of the one
/// file, or the JSON object of all of them.
pub open spec fn edit_text(files: Seq<FileTagsView>, requested: usize) -> Seq<char> {
    if is_single(files, requested) {
        json_pretty(value_entries(files[0].tags.document()))
    } else {
        json_pretty(batch_entries(files))
    }
}

/// The document that `editor` hands to the editor for the files of `listing`.
pub fn editor_content(listing: &Listing, requested: usize) -> (r: String)
    ensures
        r@ == edit_text(listing@, requested),
{
    match listing.single(requested) {
        Some(file) => file.tags.to_json(),
        None => batch_to_json(listing.files()),
    }
}

/// What to do with one snapshot that came back from the editor.
#[derive(Debug, PartialEq, Eq)]
pub enum Edit {
    /// Update the file that stands at `file` in the listing towards `tags`.
    Update { file: usize, tags: AudioTags },
    /// Report that no file was loaded under `name`.
    NotLoaded { name: String },
}

/// An `Edit` as a mathematical value.
pub enum EditView {
    Update { file: int, tags: TagsView },
    NotLoaded { name: Seq<char> },
}

impl View for Edit {
    type V = EditView;

    open spec fn view(&self) -> EditView {
        match self {
            Edit::Update { file, tags } => EditView::Update { file: *file as int, tags: tags@ },
            Edit::NotLoaded { name } => EditView::NotLoaded { name: name@ },
        }
    }
}

/// The edits of a list, as mathematical values.
pub open spec fn edit_views(edits: Seq<Edit>) -> Seq<EditView> {
    edits.map_values(|edit: Edit| edit@)
}

/// What to do with `edited`: update the file that was loaded under its name,
/// or report that there is none.
pub open spec fn edit_of(files: Seq<FileTagsView>, edited: FileTagsView) -> EditView {
    match position_of(files, edited.name) {
        Some(file) => EditView::Update { file, tags: edited.tags },
        None => EditView::NotLoaded { name: edited.name },
    }
}

/// What to do with each of `edited`, in the same order.
pub open spec fn edits_of(files: Seq<FileTagsView>, edited: Seq<FileTagsView>) -> Seq<EditView> {
    edited.map_values(|file: FileTagsView| edit_of(files, file))
}

/// What to do with each of the snapshots that came back from the editor: the
/// file of `listing` that goes by its name is updated towards it, and a name
/// under which no file was loaded is reported.
pub fn resolve_edits(listing: &Listing, edited: Vec<FileTags>) -> (r: Vec<Edit>)
    ensures
        edit_views(r@) == edits_of(listing@, file_views(edited@)),
{
    let ghost all = file_views(edited@);
    let mut out: Vec<Edit> = Vec::new();
    let mut i: usize = 0;
    while i < edited.len()
        invariant
            i <= edited.len(),
            all == file_views(edited@),
            edit_views(out@) == edits_of(listing@, all.take(i as int)),
        decreases edited.len() - i,
    {
        let file = &edited[i];
        let ghost before = edit_views(out@);
        let edit = match listing.position(file.name.as_str()) {
            Some(at) => Edit::Update { file: at, tags: file.tags.clone() },
            None => Edit::NotLoaded { name: file.name.clone() },
        };
        out.push(edit);
        proof {
            assert(all[i as int] == file@);
            assert(edit_views(out@) =~= before.push(edit_of(listing@, file@)));
            assert(edits_of(listing@, all.take(i + 1)) =~= before.push(edit_of(listing@, file@)));
        }
        i += 1;
    }
    assert(all.take(i as int) =~= all);
    out
}

/// What the document that came back from the editor asks for. For one file
/// alone it is that file's snapshot. For several it holds a snapshot for each
/// name. A document that cannot be read asks for nothing: it is refused as a
/// whole.
pub open spec fn edits_in(files: Seq<FileTagsView>, requested: usize, text: Seq<char>) -> Result<
    Seq<EditView>,
    MalformedInput,
> {
    if is_single(files, requested) {
        match snapshot_in(text) {
            Ok(tags) => Ok(seq![EditView::Update { file: 0, tags }]),
            Err(error) => Err(error),
        }
    } else {
        match batch_in(text) {
            Ok(edited) => Ok(edits_of(files, edited)),
            Err(error) => Err(error),
        }
    }
}

/// The mathematical value of the edits that were read, or of the refusal.
pub open spec fn edits_view(outcome: Result<Vec<Edit>, MalformedInput>) -> Result<
    Seq<EditView>,
    MalformedInput,
> {
    match outcome {
        Ok(edits) => Ok(edit_views(edits@)),
        Err(error) => Err(error),
    }
}

/// What the document `text`, as it came back from the editor, asks for.
pub fn edits_from(listing: &Listing, requested: usize, text: &str) -> (r: Result<
    Vec<Edit>,
    MalformedInput,
>)
    ensures
        edits_view(r) == edits_in(listing@, requested, text@),
{
    match listing.single(requested) {
        Some(_) => match AudioTags::from_json(text) {
            Ok(tags) => {
                let edits = vec![Edit::Update { file: 0, tags }];
                assert(edit_views(edits@) =~= seq![EditView::Update { file: 0, tags: tags@ }]);
                Ok(edits)
            },
            Err(error) => Err(error),
        },
        None => match batch_from_json(text) {
            Ok(edited) => Ok(resolve_edits(listing, edited)),
            Err(error) => Err(error),
        },
    }
}

/// Why the arguments of `quickedit` give no snapshot.
#[derive(Clone, Copy, Debug, PartialEq, Eq, Structural)]
pub enum QuickEditError {
    /// The year is not a number.
    Year,
    /// The track is not a number.
    Track,
}

impl QuickEditError {
    /// The error in words.
    pub open spec fn spec_message(self) -> Seq<char> {
        match self {
            QuickEditError::Year => "Year should be a integer"@,
            QuickEditError::Track => "Track should be a integer"@,
        }
    }

    /// The error in words.
    pub fn message(&self) -> (r: &'static str)
        ensures
            r@ == self.spec_message(),
    {
        match self {
            QuickEditError::Year => "Year should be a integer",
            QuickEditError::Track => "Track should be a integer",
        }
    }
}

/// Whether an argument that is given denotes a number.
pub open spec fn is_number(argument: Option<Seq<char>>) -> bool {
    argument matches Some(text) ==> parsed_u32(text) is Some
}

/// The number that an argument denotes, if it is given.
pub open spec fn number_given(argument: Option<Seq<char>>) -> Option<u32> {
    match argument {
        Some(text) => parsed_u32(text),
        None => None,
    }
}

/// The snapshot that `quickedit` applies to every file: the arguments that are
/// given, as they are, the track and the year read as numbers, and no comment.
/// A year or a track that is not a number gives no snapshot; the year is looked
/// at first.
pub open spec fn quick_edit_view(
    title: Option<Seq<char>>,
    artist: Option<Seq<char>>,
    album: Option<Seq<char>>,
    genre: Option<Seq<char>>,
    track: Option<Seq<char>>,
    year: Option<Seq<char>>,
) -> Result<TagsView, QuickEditError> {
    if !is_number(year) {
        Err(QuickEditError::Year)
    } else if !is_number(track) {
        Err(QuickEditError::Track)
    } else {
        Ok(
            TagsView {
                title,
                artist,
                album,
                comment: None,
                genre,
                year: number_given(year),
                track: number_given(track),
            },
        )
    }
}

/// The mathematical value of the snapshot of `quickedit`, or of the refusal.
pub open spec fn quick_edit_outcome(outcome: Result<AudioTags, QuickEditError>) -> Result<
    TagsView,
    QuickEditError,
> {
    match outcome {
        Ok(tags) => Ok(tags@),
        Err(error) => Err(error),
    }
}

/// The snapshot that `quickedit` applies to every file, from the arguments
/// that were given.
pub fn quick_edit_tags(
    title: Option<String>,
    artist: Option<String>,
    album: Option<String>,
    genre: Option<String>,
    track: Option<String>,
    year: Option<String>,
) -> (r: Result<AudioTags, QuickEditError>)
    ensures
        quick_edit_outcome(r) == quick_edit_view(
            text_view(title),
            text_view(artist),
            text_view(album),
            text_view(genre),
            text_view(track),
            text_view(year),
        ),
{
    let year_number = match &year {
        Some(text) => match parse_u32(text.as_str()) {
            Some(number) => Some(number),
            None => {
                return Err(QuickEditError::Year);
            },
        },
        None => None,
    };
    let track_number = match &track {
        Some(text) => match parse_u32(text.as_str()) {
            Some(number) => Some(number),
            None => {
                return Err(QuickEditError::Track);
            },
        },
        None => None,
    };
    Ok(
        AudioTags {
            title,
            artist,
            album,
            comment: None,
            genre,
            year: year_number,
            track: track_number,
        },
    )
}

/// The line that reports that a file could not be opened, read or updated: the
/// file's name, a colon, a space, and the error in words.
pub fn failure_line(name: &str, error: &FileError) -> (r: String)
    ensures
        r@ == name@ + ": "@ + error.spec_message(),
{
    let mut out = String::from_str(name);
    out.append(": ");
    out.append(error.message());
    out
}

/// The line by which `quickedit` reports that a file could not be updated.
pub fn update_failure_line(name: &str) -> (r: String)
    ensures
        r@ == "Couldn't update tags for "@ + name@,
{
    let mut out = String::from_str("Couldn't update tags for ");
    out.append(name);
    out
}

/// The line by which `editor` reports a name under which no file was loaded.
pub fn not_loaded_line() -> (r: &'static str)
    ensures
        r@ == "File not loaded"@,
{
    "File not loaded"
}

} // verus!
