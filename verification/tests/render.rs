use tags::snapshot::AudioTags;

fn text(s: &str) -> Option<String> {
    Some(s.to_string())
}

#[test]
fn render_of_a_title_alone() {
    let tags = AudioTags { title: text("Foo"), ..AudioTags::new() };
    assert_eq!(tags.render(), "title:\tFoo\n");
}

#[test]
fn render_lists_every_tag_in_the_fixed_order() {
    let tags = AudioTags {
        title: text("T"),
        artist: text("A"),
        album: text("L"),
        comment: text("C"),
        genre: text("G"),
        year: Some(1999),
        track: Some(12),
    };
    assert_eq!(
        tags.render(),
        "title:\tT\nartist:\tA\nalbum:\tL\ncomment:\tC\ngenre:\tG\nyear:\t1999\ntrack:\t12\n"
    );
}

#[test]
fn render_leaves_absent_tags_out() {
    let tags = AudioTags { artist: text("A"), track: Some(3), ..AudioTags::new() };
    assert_eq!(tags.render(), "artist:\tA\ntrack:\t3\n");
    assert_eq!(AudioTags::new().render(), "");
}

#[test]
fn render_keeps_empty_text_and_zero() {
    let tags = AudioTags { comment: text(""), year: Some(0), ..AudioTags::new() };
    assert_eq!(tags.render(), "comment:\t\nyear:\t0\n");
}

#[test]
fn render_does_not_change_the_text() {
    let tags = AudioTags { title: text("  a:\tb \u{e9} "), ..AudioTags::new() };
    assert_eq!(tags.render(), "title:\t  a:\tb \u{e9} \n");
}
