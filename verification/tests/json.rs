use tags::json::{MalformedInput, Member, MemberValue, Pair};
use tags::snapshot::{AudioTags, TagValue};

fn text(s: &str) -> Option<String> {
    Some(s.to_string())
}

fn member(key: &str, value: MemberValue) -> Member {
    Member { key: key.to_string(), value }
}

fn full() -> AudioTags {
    AudioTags {
        title: text("Foo"),
        artist: text("Bar"),
        album: text("Baz"),
        comment: text("a \"quoted\" comment"),
        genre: text("Jazz"),
        year: Some(1999),
        track: Some(7),
    }
}

#[test]
fn document_has_one_member_for_each_present_tag() {
    let tags = AudioTags { title: text("Foo"), year: Some(1999), ..AudioTags::new() };
    assert_eq!(
        tags.document(),
        vec![
            Pair { key: "title".to_string(), value: TagValue::Text("Foo".to_string()) },
            Pair { key: "year".to_string(), value: TagValue::Number(1999) },
        ]
    );
    assert_eq!(AudioTags::new().document(), vec![]);
}

#[test]
fn json_of_a_snapshot_is_pretty_printed_in_listing_order() {
    let tags = AudioTags { title: text("Foo"), year: Some(1999), ..AudioTags::new() };
    assert_eq!(tags.to_json(), "{\n  \"title\": \"Foo\",\n  \"year\": 1999\n}");
    assert_eq!(
        full().to_json(),
        "{\n  \"title\": \"Foo\",\n  \"artist\": \"Bar\",\n  \"album\": \"Baz\",\n  \"comment\": \"a \\\"quoted\\\" comment\",\n  \"genre\": \"Jazz\",\n  \"year\": 1999,\n  \"track\": 7\n}"
    );
}

#[test]
fn json_of_the_empty_snapshot_is_the_empty_object() {
    assert_eq!(AudioTags::new().to_json(), "{}");
}

#[test]
fn json_never_holds_null_for_an_absent_tag() {
    let tags = AudioTags { artist: text("Bar"), ..AudioTags::new() };
    let json = tags.to_json();
    assert!(!json.contains("null"));
    assert!(!json.contains("title"));
    assert!(json.contains("artist"));
}

#[test]
fn json_round_trip_gives_the_snapshot_back() {
    let samples = vec![
        AudioTags::new(),
        full(),
        AudioTags { title: text(""), ..AudioTags::new() },
        AudioTags { comment: text("line\nbreak\ttab \\ \u{e9}\u{4e2d}"), ..AudioTags::new() },
        AudioTags { year: Some(0), track: Some(u32::MAX), ..AudioTags::new() },
        AudioTags { genre: text("null"), ..AudioTags::new() },
    ];
    for tags in samples {
        assert_eq!(AudioTags::from_json(&tags.to_json()), Ok(tags));
    }
}

#[test]
fn from_json_reads_a_partial_snapshot() {
    assert_eq!(
        AudioTags::from_json("{\"year\": 1999}"),
        Ok(AudioTags { year: Some(1999), ..AudioTags::new() })
    );
    assert_eq!(AudioTags::from_json("{}"), Ok(AudioTags::new()));
    assert_eq!(AudioTags::from_json("  { \"title\" : \"x\" }\n"), Ok(AudioTags {
        title: text("x"),
        ..AudioTags::new()
    }));
}

#[test]
fn from_json_takes_null_for_absent_and_passes_over_other_keys() {
    assert_eq!(
        AudioTags::from_json("{\"title\": null, \"artist\": \"A\", \"rating\": [1, 2], \"Title\": 3}"),
        Ok(AudioTags { artist: text("A"), ..AudioTags::new() })
    );
}

#[test]
fn from_json_refuses_what_is_not_an_object() {
    for input in ["", "null", "[]", "\"title\"", "12", "{", "{\"title\": \"x\"} x", "{title: 1}"] {
        assert_eq!(AudioTags::from_json(input), Err(MalformedInput), "{:?}", input);
    }
}

#[test]
fn from_json_refuses_values_of_the_wrong_kind() {
    for input in [
        "{\"title\": 1}",
        "{\"year\": \"1999\"}",
        "{\"year\": -1}",
        "{\"year\": 1999.5}",
        "{\"year\": 4294967296}",
        "{\"track\": true}",
        "{\"genre\": []}",
        "{\"album\": {}}",
        "{\"artist\": false}",
    ] {
        assert_eq!(AudioTags::from_json(input), Err(MalformedInput), "{:?}", input);
    }
    assert_eq!(
        AudioTags::from_json("{\"year\": 4294967295}"),
        Ok(AudioTags { year: Some(u32::MAX), ..AudioTags::new() })
    );
}

#[test]
fn from_members_builds_the_snapshot() {
    let members = vec![
        member("track", MemberValue::Number(Some(3))),
        member("title", MemberValue::Text("T".to_string())),
        member("other", MemberValue::Object("{}".to_string())),
        member("genre", MemberValue::Null),
    ];
    assert_eq!(
        AudioTags::from_members(&members),
        Ok(AudioTags { title: text("T"), track: Some(3), ..AudioTags::new() })
    );
    assert_eq!(AudioTags::from_members(&vec![]), Ok(AudioTags::new()));
}

#[test]
fn from_members_refuses_a_tag_named_twice() {
    let members = vec![
        member("title", MemberValue::Text("a".to_string())),
        member("title", MemberValue::Text("b".to_string())),
    ];
    assert_eq!(AudioTags::from_members(&members), Err(MalformedInput));
    let members = vec![member("year", MemberValue::Null), member("year", MemberValue::Number(Some(1)))];
    assert_eq!(AudioTags::from_members(&members), Err(MalformedInput));
    let members = vec![member("x", MemberValue::Null), member("x", MemberValue::Null)];
    assert_eq!(AudioTags::from_members(&members), Ok(AudioTags::new()));
}

#[test]
fn from_members_refuses_values_that_the_tag_does_not_accept() {
    let refused = vec![
        member("title", MemberValue::Number(Some(1))),
        member("title", MemberValue::Bool(true)),
        member("album", MemberValue::Array),
        member("comment", MemberValue::Object("{\"a\":1}".to_string())),
        member("year", MemberValue::Text("1999".to_string())),
        member("year", MemberValue::Number(None)),
        member("track", MemberValue::Number(Some(4294967296))),
    ];
    for m in refused {
        assert_eq!(AudioTags::from_members(&vec![m]), Err(MalformedInput));
    }
}

#[test]
fn from_members_reads_an_object_in_a_tag_as_malformed() {
    assert_eq!(
        AudioTags::from_json("{\"title\": {\"text\": \"x\"}}"),
        Err(MalformedInput)
    );
}

#[test]
fn from_json_takes_the_last_value_of_a_repeated_key() {
    assert_eq!(
        AudioTags::from_json("{\"title\": \"a\", \"title\": \"b\"}"),
        Ok(AudioTags { title: text("b"), ..AudioTags::new() })
    );
    assert_eq!(
        AudioTags::from_json("{\"year\": \"x\", \"year\": 7}"),
        Ok(AudioTags { year: Some(7), ..AudioTags::new() })
    );
    assert_eq!(AudioTags::from_json("{\"year\": 7, \"year\": \"x\"}"), Err(MalformedInput));
}
