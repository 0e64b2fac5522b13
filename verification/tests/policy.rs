use tags::field::Field;
use tags::snapshot::{AudioTags, Tag, TagValue};

fn text(s: &str) -> Option<String> {
    Some(s.to_string())
}

fn sample() -> AudioTags {
    AudioTags {
        title: text("Foo"),
        artist: text("Bar"),
        album: None,
        comment: text(""),
        genre: None,
        year: Some(1999),
        track: None,
    }
}

#[test]
fn changes_hold_only_present_and_different_tags() {
    let current = sample();
    let desired = AudioTags {
        title: text("Foo"),
        artist: text("Baz"),
        album: text("Qux"),
        comment: None,
        genre: None,
        year: Some(2000),
        track: Some(3),
    };
    let changes = desired.changes(&current);
    assert_eq!(
        changes,
        AudioTags {
            title: None,
            artist: text("Baz"),
            album: text("Qux"),
            comment: None,
            genre: None,
            year: Some(2000),
            track: Some(3),
        }
    );
}

#[test]
fn empty_update_changes_nothing() {
    let changes = AudioTags::new().changes(&sample());
    assert!(changes.is_empty());
    assert_eq!(changes, AudioTags::new());
}

#[test]
fn update_equal_to_current_changes_nothing() {
    let current = sample();
    assert!(current.changes(&current).is_empty());
}

#[test]
fn text_is_compared_without_trimming() {
    let current = AudioTags { title: text("Foo"), ..AudioTags::new() };
    let desired = AudioTags { title: text("Foo "), ..AudioTags::new() };
    assert_eq!(desired.changes(&current).title, text("Foo "));
    let desired = AudioTags { title: text("foo"), ..AudioTags::new() };
    assert_eq!(desired.changes(&current).title, text("foo"));
}

#[test]
fn empty_text_is_a_value_of_its_own() {
    let current = AudioTags::new();
    let desired = AudioTags { comment: text(""), ..AudioTags::new() };
    assert_eq!(desired.changes(&current).comment, text(""));
    assert!(!desired.is_empty());
}

#[test]
fn numbers_are_compared_by_value() {
    let current = AudioTags { year: Some(1999), track: Some(7), ..AudioTags::new() };
    let desired = AudioTags { year: Some(1999), track: Some(8), ..AudioTags::new() };
    let changes = desired.changes(&current);
    assert_eq!(changes.year, None);
    assert_eq!(changes.track, Some(8));
}

#[test]
fn merged_takes_the_update_where_it_holds_a_tag() {
    let current = sample();
    let update = AudioTags { artist: text("Baz"), track: Some(2), ..AudioTags::new() };
    let merged = current.merged(&update);
    assert_eq!(
        merged,
        AudioTags {
            title: text("Foo"),
            artist: text("Baz"),
            album: None,
            comment: text(""),
            genre: None,
            year: Some(1999),
            track: Some(2),
        }
    );
}

#[test]
fn second_update_writes_nothing() {
    let current = sample();
    let desired = AudioTags {
        title: text("New"),
        genre: text("Jazz"),
        year: Some(1999),
        track: Some(4),
        ..AudioTags::new()
    };
    let first = desired.changes(&current);
    assert!(!first.is_empty());
    let after = current.merged(&first);
    assert!(desired.changes(&after).is_empty());
}

#[test]
fn entries_come_in_listing_order() {
    let tags = AudioTags {
        title: text("T"),
        artist: text("A"),
        album: text("L"),
        comment: text("C"),
        genre: text("G"),
        year: Some(1),
        track: Some(2),
    };
    let entries = tags.entries();
    let fields: Vec<Field> = entries.iter().map(|tag| tag.field).collect();
    assert_eq!(
        fields,
        vec![
            Field::Title,
            Field::Artist,
            Field::Album,
            Field::Comment,
            Field::Genre,
            Field::Year,
            Field::Track
        ]
    );
    assert_eq!(entries[0], Tag { field: Field::Title, value: TagValue::Text("T".to_string()) });
    assert_eq!(entries[5], Tag { field: Field::Year, value: TagValue::Number(1) });
}

#[test]
fn entries_leave_absent_tags_out() {
    let tags = AudioTags { album: text("L"), track: Some(9), ..AudioTags::new() };
    assert_eq!(
        tags.entries(),
        vec![
            Tag { field: Field::Album, value: TagValue::Text("L".to_string()) },
            Tag { field: Field::Track, value: TagValue::Number(9) },
        ]
    );
    assert_eq!(AudioTags::new().entries(), vec![]);
}

#[test]
fn get_gives_what_each_tag_holds() {
    let tags = sample();
    assert_eq!(tags.get(Field::Title), Some(TagValue::Text("Foo".to_string())));
    assert_eq!(tags.get(Field::Album), None);
    assert_eq!(tags.get(Field::Comment), Some(TagValue::Text(String::new())));
    assert_eq!(tags.get(Field::Year), Some(TagValue::Number(1999)));
    assert_eq!(tags.get(Field::Track), None);
}

#[test]
fn clone_keeps_every_tag() {
    let tags = sample();
    assert_eq!(tags.clone(), tags);
}

#[test]
fn field_names_round_trip() {
    let all = [
        (Field::Title, "title"),
        (Field::Artist, "artist"),
        (Field::Album, "album"),
        (Field::Comment, "comment"),
        (Field::Genre, "genre"),
        (Field::Year, "year"),
        (Field::Track, "track"),
    ];
    for (i, (field, name)) in all.iter().enumerate() {
        assert_eq!(field.name(), *name);
        assert_eq!(Field::from_name(name), Some(*field));
        assert_eq!(Field::nth(i), *field);
    }
    assert_eq!(Field::from_name("Title"), None);
    assert_eq!(Field::from_name(""), None);
    assert_eq!(Field::from_name("titles"), None);
}
