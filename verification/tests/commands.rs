use tags::accessor::{FileError, LibraryError, Update, UpdateAction, UpdateEvent};
use tags::batch::batch_from_json;
use tags::commands::{
    editor_content, edits_from, failure_line, not_loaded_line, quick_edit_tags, resolve_edits,
    update_failure_line, view_output, Edit, QuickEditError,
};
use tags::batch::FileTags;
use tags::editor::{EditAction, EditEvent, EditSession, Error, Exit};
use tags::field::Field;
use tags::json::MalformedInput;
use tags::listing::Listing;
use tags::snapshot::{AudioTags, Tag, TagValue};

fn text(s: &str) -> Option<String> {
    Some(s.to_string())
}

fn song() -> AudioTags {
    AudioTags { title: text("Foo"), ..AudioTags::new() }
}

fn two_files() -> Listing {
    let mut listing = Listing::new();
    listing.insert("a.mp3".to_string(), AudioTags { title: text("A"), year: Some(1990), ..AudioTags::new() });
    listing.insert("b.mp3".to_string(), AudioTags { artist: text("B"), ..AudioTags::new() });
    listing
}

#[test]
fn view_of_one_file_is_its_tags_as_text() {
    let mut listing = Listing::new();
    listing.insert("song.mp3".to_string(), song());
    assert_eq!(view_output(&listing, 1, false), "title:\tFoo\n");
}

#[test]
fn view_of_one_file_as_json_is_keyed_by_name() {
    let mut listing = Listing::new();
    listing.insert("song.mp3".to_string(), song());
    assert_eq!(view_output(&listing, 1, true), "{\n  \"song.mp3\": {\n    \"title\": \"Foo\"\n  }\n}\n");
}

#[test]
fn view_of_several_files_is_json_keyed_by_name() {
    let expected = "{\n  \"a.mp3\": {\n    \"title\": \"A\",\n    \"year\": 1990\n  },\n  \"b.mp3\": {\n    \"artist\": \"B\"\n  }\n}\n";
    assert_eq!(view_output(&two_files(), 2, false), expected);
    assert_eq!(view_output(&two_files(), 2, true), expected);
}

#[test]
fn view_of_several_requests_with_one_loaded_is_json_keyed_by_name() {
    let mut listing = Listing::new();
    listing.insert("song.mp3".to_string(), song());
    let expected = "{\n  \"song.mp3\": {\n    \"title\": \"Foo\"\n  }\n}\n";
    assert_eq!(view_output(&listing, 2, false), expected);
    assert_eq!(view_output(&listing, 2, true), expected);
}

#[test]
fn view_of_several_files_reads_back_as_the_files() {
    let listing = two_files();
    let printed = view_output(&listing, 2, false);
    assert_eq!(batch_from_json(&printed).as_ref(), Ok(listing.files()));
}

#[test]
fn view_of_nothing_loaded_is_the_empty_object() {
    assert_eq!(view_output(&Listing::new(), 1, false), "{}\n");
    assert_eq!(view_output(&Listing::new(), 1, true), "{}\n");
    assert_eq!(view_output(&Listing::new(), 3, false), "{}\n");
}

#[test]
fn editor_content_is_the_snapshot_or_the_batch() {
    let mut listing = Listing::new();
    listing.insert("song.mp3".to_string(), song());
    assert_eq!(editor_content(&listing, 1), "{\n  \"title\": \"Foo\"\n}");
    assert_eq!(
        editor_content(&two_files(), 2),
        "{\n  \"a.mp3\": {\n    \"title\": \"A\",\n    \"year\": 1990\n  },\n  \"b.mp3\": {\n    \"artist\": \"B\"\n  }\n}"
    );
    assert_eq!(editor_content(&Listing::new(), 1), "{}");
}

#[test]
fn edits_of_one_file_update_that_file() {
    let mut listing = Listing::new();
    listing.insert("song.mp3".to_string(), song());
    assert_eq!(
        edits_from(&listing, 1, "{\"title\": \"Bar\", \"track\": 2}"),
        Ok(vec![Edit::Update {
            file: 0,
            tags: AudioTags { title: text("Bar"), track: Some(2), ..AudioTags::new() }
        }])
    );
    assert_eq!(edits_from(&listing, 1, "{\"title\": 3}"), Err(MalformedInput));
    assert_eq!(edits_from(&listing, 1, "not json"), Err(MalformedInput));
}

#[test]
fn edits_of_several_files_go_by_name() {
    let listing = two_files();
    assert_eq!(
        edits_from(
            &listing,
            2,
            "{\"b.mp3\": {\"artist\": \"C\"}, \"x.mp3\": {\"year\": 1}, \"a.mp3\": {}}"
        ),
        Ok(vec![
            Edit::Update { file: 1, tags: AudioTags { artist: text("C"), ..AudioTags::new() } },
            Edit::NotLoaded { name: "x.mp3".to_string() },
            Edit::Update { file: 0, tags: AudioTags::new() },
        ])
    );
    assert_eq!(edits_from(&listing, 2, "{\"a.mp3\": {\"year\": \"x\"}}"), Err(MalformedInput));
    assert_eq!(edits_from(&listing, 2, "{\"title\": \"A\"}"), Err(MalformedInput));
}

#[test]
fn resolve_edits_reports_names_that_were_not_loaded() {
    let listing = two_files();
    let edited = vec![
        FileTags { name: "c.mp3".to_string(), tags: song() },
        FileTags { name: "b.mp3".to_string(), tags: song() },
    ];
    assert_eq!(
        resolve_edits(&listing, edited),
        vec![Edit::NotLoaded { name: "c.mp3".to_string() }, Edit::Update { file: 1, tags: song() }]
    );
}

#[test]
fn quick_edit_takes_the_arguments_as_they_are() {
    assert_eq!(
        quick_edit_tags(text("New Title"), None, None, None, None, None),
        Ok(AudioTags { title: text("New Title"), ..AudioTags::new() })
    );
    assert_eq!(
        quick_edit_tags(text("T"), text("A"), text("L"), text("G"), text("7"), text("1999")),
        Ok(AudioTags {
            title: text("T"),
            artist: text("A"),
            album: text("L"),
            comment: None,
            genre: text("G"),
            year: Some(1999),
            track: Some(7),
        })
    );
    assert_eq!(quick_edit_tags(None, None, None, None, None, None), Ok(AudioTags::new()));
}

#[test]
fn quick_edit_refuses_a_year_or_a_track_that_is_no_number() {
    assert_eq!(
        quick_edit_tags(None, None, None, None, None, text("nineteen")),
        Err(QuickEditError::Year)
    );
    assert_eq!(quick_edit_tags(None, None, None, None, text("-1"), None), Err(QuickEditError::Track));
    assert_eq!(
        quick_edit_tags(None, None, None, None, text("x"), text("y")),
        Err(QuickEditError::Year)
    );
    assert_eq!(quick_edit_tags(None, None, None, None, text(""), text("1")), Err(QuickEditError::Track));
    assert_eq!(QuickEditError::Year.message(), "Year should be a integer");
    assert_eq!(QuickEditError::Track.message(), "Track should be a integer");
}

#[test]
fn failure_lines_name_the_file() {
    assert_eq!(failure_line("a.mp3", &FileError::NotAFile), "a.mp3: not a file");
    assert_eq!(
        failure_line("b.mp3", &FileError::TaglibError(LibraryError::NoAvailableTag)),
        "b.mp3: no metadata available"
    );
    assert_eq!(
        failure_line("c.mp3", &FileError::TaglibFailedToSaveFile),
        "c.mp3: failed to save the file"
    );
    assert_eq!(update_failure_line("a.mp3"), "Couldn't update tags for a.mp3");
    assert_eq!(not_loaded_line(), "File not loaded");
}

fn writes_for(desired: &AudioTags, current: AudioTags) -> Option<Vec<Tag>> {
    match Update::begin(desired.clone()).step(UpdateEvent::Tags(Ok(current))).action() {
        UpdateAction::WriteAndSave(tags) => Some(tags),
        UpdateAction::Finish(Ok(())) => None,
        other => panic!("unexpected action {:?}", other),
    }
}

#[test]
fn quick_edit_of_the_title_rewrites_the_title_of_both_files() {
    let desired = quick_edit_tags(text("New Title"), None, None, None, None, None).unwrap();
    let a = AudioTags { title: text("Old"), artist: text("X"), year: Some(1990), ..AudioTags::new() };
    let b = AudioTags { album: text("Y"), ..AudioTags::new() };
    let title = Tag { field: Field::Title, value: TagValue::Text("New Title".to_string()) };
    assert_eq!(writes_for(&desired, a.clone()), Some(vec![title.clone()]));
    assert_eq!(writes_for(&desired, b.clone()), Some(vec![title]));
    assert_eq!(
        a.merged(&desired.changes(&a)),
        AudioTags { title: text("New Title"), artist: text("X"), year: Some(1990), ..AudioTags::new() }
    );
    assert_eq!(
        b.merged(&desired.changes(&b)),
        AudioTags { title: text("New Title"), album: text("Y"), ..AudioTags::new() }
    );
    assert_eq!(failure_line("a.mp3", &FileError::NotAFile), "a.mp3: not a file");
    assert_eq!(writes_for(&desired, b), writes_for(&desired, AudioTags::new()));
}

#[test]
fn editor_exit_with_status_one_applies_no_change() {
    let mut listing = Listing::new();
    listing.insert("song.mp3".to_string(), song());
    let content = editor_content(&listing, 1);
    let mut session = EditSession::start("false".to_string(), content.clone());
    let mut read_asked = false;
    let outcome = loop {
        let event = match session.action() {
            EditAction::CreateFile { .. } => EditEvent::Created(Ok(Some("/tmp/tags-x".to_string()))),
            EditAction::Write { content: written } => {
                assert_eq!(written, content);
                EditEvent::Written(Ok(()))
            }
            EditAction::Launch { editor, path } => {
                assert_eq!(editor, "false");
                assert_eq!(path, "/tmp/tags-x");
                EditEvent::Launched(Ok(()))
            }
            EditAction::Wait => EditEvent::Exited(Ok(Exit { success: false, code: Some(1) })),
            EditAction::Read => {
                read_asked = true;
                EditEvent::Read(Ok("{\"title\": \"Changed\"}".to_string()))
            }
            EditAction::Remove => EditEvent::Removed,
            EditAction::Finish(outcome) => break outcome,
        };
        session = session.step(event);
    };
    assert!(!read_asked);
    assert_eq!(outcome, Err(Error::NonZeroExitStatus(Some(1))));
}

#[test]
fn edit_from_standard_input_updates_only_the_year_of_one_file() {
    let batch = batch_from_json("{\"a.mp3\": {\"year\": 1999}}").unwrap();
    assert_eq!(batch.len(), 1);
    assert_eq!(batch[0].name, "a.mp3");
    let current = AudioTags { title: text("T"), year: Some(1990), track: Some(1), ..AudioTags::new() };
    assert_eq!(
        writes_for(&batch[0].tags, current.clone()),
        Some(vec![Tag { field: Field::Year, value: TagValue::Number(1999) }])
    );
    let same = AudioTags { year: Some(1999), ..current };
    assert_eq!(writes_for(&batch[0].tags, same), None);
}
