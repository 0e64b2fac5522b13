//! Snapshots of several files at once, and their JSON form: an object with one
//! member for each file, named after the file, that holds the file's snapshot.

use crate::json::{
    entry_views, json_object, json_pretty, member_views, outcome_view, read_object, snapshot_in,
    write_object, Entry, EntryValue, EntryValueView, EntryView, MalformedInput, Member,
    MemberValue, MemberView,
};
use crate::snapshot::{AudioTags, TagsView};
use vstd::prelude::*;

verus! {

/// The snapshot of one file, with the file's name.
#[derive(Debug, PartialEq, Eq)]
pub struct FileTags {
    pub name: String,
    pub tags: AudioTags,
}

/// A `FileTags` as a mathematical value.
pub struct FileTagsView {
    pub name: Seq<char>,
    pub tags: TagsView,
}

impl View for FileTags {
    type V = FileTagsView;

    open spec fn view(&self) -> FileTagsView {
        FileTagsView { name: self.name@, tags: self.tags@ }
    }
}

/// The JSON text of the snapshot of one file, with the file's name.
#[derive(Debug, PartialEq, Eq)]
pub struct FileText {
    pub name: String,
    pub text: String,
}

/// A `FileText` as a mathematical value.
pub struct FileTextView {
    pub name: Seq<char>,
    pub text: Seq<char>,
}

impl View for FileText {
    type V = FileTextView;

    open spec fn view(&self) -> FileTextView {
        FileTextView { name: self.name@, text: self.text@ }
    }
}

/// The snapshots of a list of files, as mathematical values.
pub open spec fn file_views(files: Seq<FileTags>) -> Seq<FileTagsView> {
    files.map_values(|file: FileTags| file@)
}

/// The texts of a list of files, as mathematical values.
pub open spec fn file_text_views(files: Seq<FileText>) -> Seq<FileTextView> {
    files.map_values(|file: FileText| file@)
}

/// The member that stands for one file: it is named after the file and holds
/// the object of the file's snapshot.
pub open spec fn file_entry(file: FileTagsView) -> EntryView {
    EntryView { key: file.name, value: EntryValueView::Object(file.tags.document()) }
}

/// The members that stand for `files`, in the same order.
pub open spec fn batch_entries(files: Seq<FileTagsView>) -> Seq<EntryView> {
    files.map_values(|file: FileTagsView| file_entry(file))
}

/// The snapshots of `files` as pretty-printed JSON: the object that has one
/// member for each file, named after the file, in the order of `files`.
pub fn batch_to_json(files: &Vec<FileTags>) -> (r: String)
    ensures
        r@ == json_pretty(batch_entries(file_views(files@))),
{
    let ghost all = file_views(files@);
    let mut entries: Vec<Entry> = Vec::new();
    let mut i: usize = 0;
    while i < files.len()
        invariant
            i <= files.len(),
            all == file_views(files@),
            entry_views(entries@) == batch_entries(all.take(i as int)),
        decreases files.len() - i,
    {
        let file = &files[i];
        let ghost before = entry_views(entries@);
        entries.push(
            Entry { key: file.name.clone(), value: EntryValue::Object(file.tags.document()) },
        );
        proof {
            assert(entry_views(entries@) =~= before.push(file_entry(file@)));
            assert(batch_entries(all.take(i + 1)) =~= before.push(file_entry(file@)));
        }
        i += 1;
    }
    assert(all.take(i as int) =~= all);
    write_object(&entries)
}

/// Whether every one of `members` holds an object.
pub open spec fn all_objects(members: Seq<MemberView>) -> bool {
    forall|i: int| 0 <= i < members.len() ==> (#[trigger] members[i]).value is Object
}

/// The file that `member` stands for: its name, and the text of its object.
pub open spec fn file_text(member: MemberView) -> FileTextView {
    FileTextView { name: member.key, text: member.value->Object_0 }
}

/// The files that `members` stand for, in the same order. One member that does
/// not hold an object has the whole list refused.
pub open spec fn file_texts(members: Seq<MemberView>) -> Result<Seq<FileTextView>, MalformedInput> {
    if all_objects(members) {
        Ok(members.map_values(|member: MemberView| file_text(member)))
    } else {
        Err(MalformedInput)
    }
}

/// The mathematical value of a list of texts that was read, or of the refusal.
pub open spec fn texts_view(outcome: Result<Vec<FileText>, MalformedInput>) -> Result<
    Seq<FileTextView>,
    MalformedInput,
> {
    match outcome {
        Ok(files) => Ok(file_text_views(files@)),
        Err(error) => Err(error),
    }
}

/// The files that `members` stand for: one for each member, under the member's
/// name, with the text of the object that the member holds. If one member does
/// not hold an object, the whole list is refused.
pub fn file_documents(members: &Vec<Member>) -> (r: Result<Vec<FileText>, MalformedInput>)
    ensures
        texts_view(r) == file_texts(member_views(members@)),
{
    let ghost all = member_views(members@);
    let mut out: Vec<FileText> = Vec::new();
    let mut i: usize = 0;
    while i < members.len()
        invariant
            i <= members.len(),
            all == member_views(members@),
            all_objects(all.take(i as int)),
            file_text_views(out@) == all.take(i as int).map_values(
                |member: MemberView| file_text(member),
            ),
        decreases members.len() - i,
    {
        let member = &members[i];
        let ghost before = file_text_views(out@);
        proof {
            assert(all[i as int] == member@);
        }
        match &member.value {
            MemberValue::Object(text) => {
                out.push(FileText { name: member.key.clone(), text: text.clone() });
                proof {
                    assert(file_text_views(out@) =~= before.push(file_text(member@)));
                    assert(all.take(i + 1).map_values(|member: MemberView| file_text(member))
                        =~= before.push(file_text(member@)));
                    assert forall|k: int| 0 <= k < all.take(i + 1).len() implies (
                    #[trigger] all.take(i + 1)[k]).value is Object by {
                        if k < i {
                            assert(all.take(i + 1)[k] == all.take(i as int)[k]);
                        }
                    }
                }
            },
            _ => {
                return Err(MalformedInput);
            },
        }
        i += 1;
    }
    assert(all.take(i as int) =~= all);
    Ok(out)
}

/// Whether the text of every file stands for a snapshot.
pub open spec fn batch_accepted(files: Seq<FileTextView>) -> bool {
    forall|i: int| 0 <= i < files.len() ==> snapshot_in(#[trigger] files[i].text) is Ok
}

/// The snapshot that the text of one file stands for, with the file's name.
pub open spec fn file_snapshot(file: FileTextView) -> FileTagsView {
    FileTagsView { name: file.name, tags: snapshot_in(file.text)->Ok_0 }
}

/// The snapshots that the texts of `files` stand for, in the same order. One
/// file whose text stands for no snapshot has the whole list refused.
pub open spec fn batch_of(files: Seq<FileTextView>) -> Result<Seq<FileTagsView>, MalformedInput> {
    if batch_accepted(files) {
        Ok(files.map_values(|file: FileTextView| file_snapshot(file)))
    } else {
        Err(MalformedInput)
    }
}

/// The snapshots that the JSON object `text` stands for: one for each of its
/// members, under the member's name. There are none if `text` is not one JSON
/// object, if one of its members does not hold an object, or if one of these
/// objects stands for no snapshot.
pub open spec fn batch_in(text: Seq<char>) -> Result<Seq<FileTagsView>, MalformedInput> {
    match json_object(text) {
        Some(members) => match file_texts(members) {
            Ok(files) => batch_of(files),
            Err(error) => Err(error),
        },
        None => Err(MalformedInput),
    }
}

/// The mathematical value of a list of snapshots that was read, or of the
/// refusal.
pub open spec fn batch_view(outcome: Result<Vec<FileTags>, MalformedInput>) -> Result<
    Seq<FileTagsView>,
    MalformedInput,
> {
    match outcome {
        Ok(files) => Ok(file_views(files@)),
        Err(error) => Err(error),
    }
}

/// The snapshots that the texts of `files` stand for, in the same order and
/// under the same names. If the text of one file stands for no snapshot, the
/// whole list is refused.
pub fn batch_from_texts(files: &Vec<FileText>) -> (r: Result<Vec<FileTags>, MalformedInput>)
    ensures
        batch_view(r) == batch_of(file_text_views(files@)),
{
    let ghost all = file_text_views(files@);
    let mut out: Vec<FileTags> = Vec::new();
    let mut i: usize = 0;
    while i < files.len()
        invariant
            i <= files.len(),
            all == file_text_views(files@),
            batch_accepted(all.take(i as int)),
            file_views(out@) == all.take(i as int).map_values(
                |file: FileTextView| file_snapshot(file),
            ),
        decreases files.len() - i,
    {
        let file = &files[i];
        let ghost before = file_views(out@);
        proof {
            assert(all[i as int] == file@);
        }
        match AudioTags::from_json(file.text.as_str()) {
            Err(_) => {
                proof {
                    assert(snapshot_in(all[i as int].text) is Err);
                }
                return Err(MalformedInput);
            },
            Ok(tags) => {
                out.push(FileTags { name: file.name.clone(), tags });
                proof {
                    assert(outcome_view(Ok::<AudioTags, MalformedInput>(tags)) == snapshot_in(
                        file@.text,
                    ));
                    assert(file_views(out@) =~= before.push(file_snapshot(file@)));
                    assert(all.take(i + 1).map_values(|file: FileTextView| file_snapshot(file))
                        =~= before.push(file_snapshot(file@)));
                    assert forall|k: int| 0 <= k < all.take(i + 1).len() implies snapshot_in(
                        #[trigger] all.take(i + 1)[k].text,
                    ) is Ok by {
                        if k < i {
                            assert(all.take(i + 1)[k] == all.take(i as int)[k]);
                        }
                    }
                }
            },
        }
        i += 1;
    }
    assert(all.take(i as int) =~= all);
    Ok(out)
}

/// The snapshots that the JSON object `text` stands for: one for each of its
/// members, under the member's name and in the order of the members. `text` is
/// refused as a whole if it is not an object whose members hold objects, or if
/// one of these objects stands for no snapshot. A key that `text` repeats, be it
/// the name of a file or of a tag, is not refused: `serde_json` hands on one
/// member for each key, with the value that stands last in `text`.
pub fn batch_from_json(text: &str) -> (r: Result<Vec<FileTags>, MalformedInput>)
    ensures
        batch_view(r) == batch_in(text@),
{
    match read_object(text) {
        Some(members) => match file_documents(&members) {
            Ok(files) => batch_from_texts(&files),
            Err(error) => Err(error),
        },
        None => Err(MalformedInput),
    }
}

} // verus!
