//! The JSON form of snapshots: an object with one member for each tag that the
//! snapshot holds, named after the tag. An absent tag has no member.
//!
//! Text is turned into members, and members into text, by `serde_json`. Which
//! members a snapshot has, and which snapshot a list of members stands for, is
//! decided here. A member that holds an object is read as the JSON text of that
//! object, which is read in its turn where a snapshot is expected in its place.

use crate::field::Field;
use crate::snapshot::{tag_views, AudioTags, Content, TagValue, TagView, TagsView};
use serde_json::Value;
use vstd::prelude::*;
use vstd::string::*;

verus! {

/// The input is not JSON, or not of the shape that was asked for.
#[derive(Clone, Copy, Debug, PartialEq, Eq, Structural)]
pub struct MalformedInput;

/// What a member of a JSON object holds, as far as a snapshot looks at it.
#[derive(Debug, PartialEq, Eq)]
pub enum MemberValue {
    Null,
    Bool(bool),
    /// A number; its value where that is a non-negative integer below 2^64.
    Number(Option<u64>),
    Text(String),
    /// An array, whatever is in it.
    Array,
    /// An object, as JSON text.
    Object(String),
}

/// A `MemberValue` as a mathematical value.
pub enum MemberValueView {
    Null,
    Bool(bool),
    Number(Option<u64>),
    Text(Seq<char>),
    Array,
    Object(Seq<char>),
}

impl View for MemberValue {
    type V = MemberValueView;

    open spec fn view(&self) -> MemberValueView {
        match self {
            MemberValue::Null => MemberValueView::Null,
            MemberValue::Bool(b) => MemberValueView::Bool(*b),
            MemberValue::Number(n) => MemberValueView::Number(*n),
            MemberValue::Text(s) => MemberValueView::Text(s@),
            MemberValue::Array => MemberValueView::Array,
            MemberValue::Object(text) => MemberValueView::Object(text@),
        }
    }
}

/// A member of a JSON object that was read.
#[derive(Debug, PartialEq, Eq)]
pub struct Member {
    pub key: String,
    pub value: MemberValue,
}

/// A `Member` as a mathematical value.
pub struct MemberView {
    pub key: Seq<char>,
    pub value: MemberValueView,
}

impl View for Member {
    type V = MemberView;

    open spec fn view(&self) -> MemberView {
        MemberView { key: self.key@, value: self.value@ }
    }
}

/// A member of a snapshot's JSON object, as it is to be written.
#[derive(Debug, PartialEq, Eq)]
pub struct Pair {
    pub key: String,
    pub value: TagValue,
}

/// A `Pair` as a mathematical value.
pub struct PairView {
    pub key: Seq<char>,
    pub value: Content,
}

impl View for Pair {
    type V = PairView;

    open spec fn view(&self) -> PairView {
        PairView { key: self.key@, value: self.value@ }
    }
}

/// What a member of a JSON object that is to be written holds: the value of a
/// tag, or an object with the members of a snapshot.
#[derive(Debug, PartialEq, Eq)]
pub enum EntryValue {
    Value(TagValue),
    Object(Vec<Pair>),
}

/// An `EntryValue` as a mathematical value.
pub enum EntryValueView {
    Value(Content),
    Object(Seq<PairView>),
}

impl View for EntryValue {
    type V = EntryValueView;

    open spec fn view(&self) -> EntryValueView {
        match self {
            EntryValue::Value(value) => EntryValueView::Value(value@),
            EntryValue::Object(pairs) => EntryValueView::Object(pair_views(pairs@)),
        }
    }
}

/// A member of a JSON object that is to be written.
#[derive(Debug, PartialEq, Eq)]
pub struct Entry {
    pub key: String,
    pub value: EntryValue,
}

/// An `Entry` as a mathematical value.
pub struct EntryView {
    pub key: Seq<char>,
    pub value: EntryValueView,
}

impl View for Entry {
    type V = EntryView;

    open spec fn view(&self) -> EntryView {
        EntryView { key: self.key@, value: self.value@ }
    }
}

/// The entries of a list, as mathematical values.
pub open spec fn entry_views(entries: Seq<Entry>) -> Seq<EntryView> {
    entries.map_values(|entry: Entry| entry@)
}

/// The members of a list, as mathematical values.
pub open spec fn member_views(members: Seq<Member>) -> Seq<MemberView> {
    members.map_values(|member: Member| member@)
}

/// The pairs of a list, as mathematical values.
pub open spec fn pair_views(pairs: Seq<Pair>) -> Seq<PairView> {
    pairs.map_values(|pair: Pair| pair@)
}

/// The members that `serde_json` reads from `text` when it is asked for one JSON
/// object; nothing when it refuses `text`.
pub uninterp spec fn json_object(text: Seq<char>) -> Option<Seq<MemberView>>;

/// The text that `serde_json` writes, pretty-printed, for the object that has
/// these members.
pub uninterp spec fn json_pretty(entries: Seq<EntryView>) -> Seq<char>;

/// Reads `text` with `serde_json::from_str` as one JSON object. What comes back
/// depends on `text` alone: nothing when `serde_json` refuses it, else the
/// object's members in their order, each with its key and with what its value
/// holds; for a value that is an object, the text that its `to_string` gives.
#[verifier::external_body]
pub(crate) fn read_object(text: &str) -> (r: Option<Vec<Member>>)
    ensures
        match r {
            Some(members) => json_object(text@) == Some(member_views(members@)),
            None => json_object(text@) is None,
        },
{
    let object: serde_json::Map<String, Value> = serde_json::from_str(text).ok()?;
    Some(object.into_iter().map(|(key, value)| Member {
        key,
        value: match value {
            Value::Null => MemberValue::Null,
            Value::Bool(b) => MemberValue::Bool(b),
            Value::Number(n) => MemberValue::Number(n.as_u64()),
            Value::String(s) => MemberValue::Text(s),
            Value::Array(_) => MemberValue::Array,
            Value::Object(o) => MemberValue::Object(Value::Object(o).to_string()),
        },
    }).collect())
}

/// Writes the object that has these members with `serde_json::to_string_pretty`.
/// What comes back depends on the members alone.
#[verifier::external_body]
pub(crate) fn write_object(entries: &Vec<Entry>) -> (r: String)
    ensures
        r@ == json_pretty(entry_views(entries@)),
{
    let mut object = serde_json::Map::new();
    for entry in entries.iter() {
        object.insert(entry.key.clone(), match &entry.value {
            EntryValue::Value(TagValue::Text(s)) => Value::String(s.clone()),
            EntryValue::Value(TagValue::Number(n)) => Value::from(*n),
            EntryValue::Object(pairs) => Value::Object(
                pairs.iter().map(|pair| (pair.key.clone(), match &pair.value {
                    TagValue::Text(s) => Value::String(s.clone()),
                    TagValue::Number(n) => Value::from(*n),
                })).collect(),
            ),
        });
    }
    serde_json::to_string_pretty(&object).unwrap_or_default()
}

/// The member that stands for `tag`: it is named after the tag and holds the
/// tag's value.
pub open spec fn pair_of(tag: TagView) -> PairView {
    PairView { key: tag.field.spec_name(), value: tag.value }
}

impl TagsView {
    /// The members of the snapshot's JSON object: one for each tag that it holds,
    /// in listing order, and none for a tag that it does not hold.
    pub open spec fn document(self) -> Seq<PairView> {
        self.entries().map_values(|tag: TagView| pair_of(tag))
    }
}

/// A member that holds the value of a tag, as a member of an object that is to
/// be written.
pub open spec fn value_entry(pair: PairView) -> EntryView {
    EntryView { key: pair.key, value: EntryValueView::Value(pair.value) }
}

/// The members of a snapshot's JSON object, as members that are to be written.
pub open spec fn value_entries(pairs: Seq<PairView>) -> Seq<EntryView> {
    pairs.map_values(|pair: PairView| value_entry(pair))
}

/// The snapshot that the JSON object `text` stands for: the one that the
/// members stand for which `serde_json` reads from it. There is none if `text`
/// is not one JSON object, or if these members stand for no snapshot.
pub open spec fn snapshot_in(text: Seq<char>) -> Result<TagsView, MalformedInput> {
    match json_object(text) {
        Some(members) => snapshot_of(members),
        None => Err(MalformedInput),
    }
}

/// What a member's value gives for `field`: `null` stands for an absent tag, text
/// for a tag that holds text, a non-negative integer up to `u32::MAX` for one
/// that holds a number. Any other value is refused.
pub open spec fn read_value(field: Field, value: MemberValueView) -> Option<Option<Content>> {
    match value {
        MemberValueView::Null => Some(None),
        MemberValueView::Text(s) => if field.is_text() {
            Some(Some(Content::Text(s)))
        } else {
            None
        },
        MemberValueView::Number(Some(n)) => if !field.is_text() && n <= u32::MAX {
            Some(Some(Content::Number(n as u32)))
        } else {
            None
        },
        _ => None,
    }
}

/// Whether member `i` of `members` is named after `field`.
pub open spec fn names(members: Seq<MemberView>, field: Field, i: int) -> bool {
    0 <= i < members.len() && members[i].key == field.spec_name()
}

/// Whether `members` stand for a snapshot: every member that is named after a
/// tag holds a value that the tag accepts, and no tag names two members. A
/// member that is named after no tag is passed over. This is said of members as
/// they are handed in, not of JSON text: see `AudioTags::from_json`.
pub open spec fn accepted(members: Seq<MemberView>) -> bool {
    &&& forall|field: Field, i: int| #[trigger]
        names(members, field, i) ==> read_value(field, members[i].value) is Some
    &&& forall|field: Field, i: int, j: int|
        #[trigger] names(members, field, i) && #[trigger] names(members, field, j) ==> i == j
}

/// What `members` give for `field`: the value of the member that is named after
/// it, and nothing when there is no such member.
pub open spec fn member_of(members: Seq<MemberView>, field: Field) -> Option<Content> {
    if exists|i: int| names(members, field, i) {
        let i = choose|i: int| names(members, field, i);
        match read_value(field, members[i].value) {
            Some(value) => value,
            None => None,
        }
    } else {
        None
    }
}

/// The text that a tag value holds, if it holds text.
pub open spec fn text_of(value: Option<Content>) -> Option<Seq<char>> {
    match value {
        Some(Content::Text(s)) => Some(s),
        _ => None,
    }
}

/// The number that a tag value holds, if it holds a number.
pub open spec fn number_of(value: Option<Content>) -> Option<u32> {
    match value {
        Some(Content::Number(n)) => Some(n),
        _ => None,
    }
}

/// The snapshot that `members` stand for, where they stand for one.
pub open spec fn snapshot_of(members: Seq<MemberView>) -> Result<TagsView, MalformedInput> {
    if accepted(members) {
        Ok(
            TagsView {
                title: text_of(member_of(members, Field::Title)),
                artist: text_of(member_of(members, Field::Artist)),
                album: text_of(member_of(members, Field::Album)),
                comment: text_of(member_of(members, Field::Comment)),
                genre: text_of(member_of(members, Field::Genre)),
                year: number_of(member_of(members, Field::Year)),
                track: number_of(member_of(members, Field::Track)),
            },
        )
    } else {
        Err(MalformedInput)
    }
}

/// The mathematical value of a snapshot that was read, or of the refusal.
pub open spec fn outcome_view(outcome: Result<AudioTags, MalformedInput>) -> Result<
    TagsView,
    MalformedInput,
> {
    match outcome {
        Ok(tags) => Ok(tags@),
        Err(error) => Err(error),
    }
}

/// A member that is to be written, as a member that was read: the same key, and
/// the same text or number as its value.
pub open spec fn as_read(pair: PairView) -> MemberView {
    MemberView {
        key: pair.key,
        value: match pair.value {
            Content::Text(s) => MemberValueView::Text(s),
            Content::Number(n) => MemberValueView::Number(Some(n as u64)),
        },
    }
}

/// Taking one more member into account: it is named after `field` or it is not.
proof fn lemma_names_step(members: Seq<MemberView>, i: int, field: Field, j: int)
    requires
        0 <= i < members.len(),
    ensures
        names(members.take(i + 1), field, j) <==> names(members.take(i), field, j) || (j == i
            && members[i].key == field.spec_name()),
{
}

/// One more member keeps a list acceptable when it is named after no tag, or
/// after a tag that names no earlier member and accepts its value.
proof fn lemma_accepted_step(members: Seq<MemberView>, i: int)
    requires
        0 <= i < members.len(),
        accepted(members.take(i)),
        forall|field: Field|
            members[i].key == field.spec_name() ==> read_value(field, members[i].value) is Some
                && !exists|j: int| names(members.take(i), field, j),
    ensures
        accepted(members.take(i + 1)),
{
    let before = members.take(i);
    let after = members.take(i + 1);
    assert forall|field: Field, k: int| #[trigger] names(after, field, k) implies read_value(
        field,
        after[k].value,
    ) is Some by {
        lemma_names_step(members, i, field, k);
        if names(before, field, k) {
            assert(before[k] == after[k]);
        }
    }
    assert forall|field: Field, k: int, l: int| #[trigger]
        names(after, field, k) && #[trigger] names(after, field, l) implies k == l by {
        lemma_names_step(members, i, field, k);
        lemma_names_step(members, i, field, l);
    }
}

/// What an acceptable list gives for a tag once one more member is taken into
/// account.
proof fn lemma_member_step(members: Seq<MemberView>, i: int, field: Field)
    requires
        0 <= i < members.len(),
        accepted(members.take(i + 1)),
    ensures
        member_of(members.take(i + 1), field) == (if members[i].key == field.spec_name() {
            match read_value(field, members[i].value) {
                Some(value) => value,
                None => None,
            }
        } else {
            member_of(members.take(i), field)
        }),
{
    let before = members.take(i);
    let after = members.take(i + 1);
    if members[i].key == field.spec_name() {
        assert(names(after, field, i));
        let k = choose|k: int| names(after, field, k);
        assert(k == i);
    } else {
        if exists|k: int| names(after, field, k) {
            let k = choose|k: int| names(after, field, k);
            lemma_names_step(members, i, field, k);
            assert(names(before, field, k));
            let l = choose|l: int| names(before, field, l);
            lemma_names_step(members, i, field, l);
            assert(names(after, field, l));
            assert(k == l);
            assert(before[l] == after[l]);
        } else {
            if exists|l: int| names(before, field, l) {
                let l = choose|l: int| names(before, field, l);
                lemma_names_step(members, i, field, l);
            }
        }
    }
}

/// A list with a member that its tag refuses, or with two members named after
/// one tag, stands for no snapshot.
proof fn lemma_refused(members: Seq<MemberView>, i: int, field: Field)
    requires
        names(members, field, i),
        read_value(field, members[i].value) is None || exists|j: int|
            j != i && names(members, field, j),
    ensures
        !accepted(members),
{
}

/// Puts `text` in the place of `field`.
fn set_text(tags: &mut AudioTags, field: Field, text: Option<String>)
    requires
        field.is_text(),
    ensures
        forall|other: Field|
            final(tags)@.get(other) == (if other == field {
                crate::snapshot::text_content(crate::snapshot::text_view(text))
            } else {
                old(tags)@.get(other)
            }),
{
    match field {
        Field::Title => {
            tags.title = text;
        },
        Field::Artist => {
            tags.artist = text;
        },
        Field::Album => {
            tags.album = text;
        },
        Field::Comment => {
            tags.comment = text;
        },
        Field::Genre => {
            tags.genre = text;
        },
        _ => {},
    }
}

/// Puts `number` in the place of `field`.
fn set_number(tags: &mut AudioTags, field: Field, number: Option<u32>)
    requires
        !field.is_text(),
    ensures
        forall|other: Field|
            final(tags)@.get(other) == (if other == field {
                crate::snapshot::number_content(number)
            } else {
                old(tags)@.get(other)
            }),
{
    match field {
        Field::Year => {
            tags.year = number;
        },
        Field::Track => {
            tags.track = number;
        },
        _ => {},
    }
}

/// Puts what `value` gives for `field` in its place, unless the tag refuses it.
fn store(tags: &mut AudioTags, field: Field, value: &MemberValue) -> (stored: bool)
    ensures
        stored == (read_value(field, value@) is Some),
        stored ==> forall|other: Field|
            final(tags)@.get(other) == (if other == field {
                read_value(field, value@)->0
            } else {
                old(tags)@.get(other)
            }),
        !stored ==> final(tags)@ == old(tags)@,
{
    match value {
        MemberValue::Null => {
            if field.holds_text() {
                set_text(tags, field, None);
            } else {
                set_number(tags, field, None);
            }
            true
        },
        MemberValue::Text(s) => {
            if field.holds_text() {
                set_text(tags, field, Some(s.clone()));
                true
            } else {
                false
            }
        },
        MemberValue::Number(Some(n)) => {
            if !field.holds_text() && *n <= u32::MAX as u64 {
                set_number(tags, field, Some(*n as u32));
                true
            } else {
                false
            }
        },
        _ => false,
    }
}

impl AudioTags {
    /// The members of the snapshot's JSON object: one for each tag that it holds,
    /// named after the tag, in listing order; none for a tag that it does not
    /// hold.
    pub fn document(&self) -> (r: Vec<Pair>)
        ensures
            pair_views(r@) == self@.document(),
    {
        let entries = self.entries();
        let ghost tags = tag_views(entries@);
        let mut out: Vec<Pair> = Vec::new();
        let mut i: usize = 0;
        while i < entries.len()
            invariant
                i <= entries.len(),
                tags == tag_views(entries@),
                pair_views(out@) == tags.take(i as int).map_values(|tag: TagView| pair_of(tag)),
            decreases entries.len() - i,
        {
            let tag = &entries[i];
            let ghost before = pair_views(out@);
            out.push(Pair { key: String::from_str(tag.field.name()), value: tag.value.clone() });
            proof {
                assert(pair_views(out@) =~= before.push(pair_of(tag@)));
                assert(tags.take(i + 1).map_values(|tag: TagView| pair_of(tag)) =~= before.push(
                    pair_of(tag@),
                ));
            }
            i += 1;
        }
        assert(tags.take(i as int) =~= tags);
        out
    }

    /// The snapshot as pretty-printed JSON: the object that has the members of
    /// `document`.
    pub fn to_json(&self) -> (r: String)
        ensures
            r@ == json_pretty(value_entries(self@.document())),
    {
        let pairs = self.document();
        let ghost all = pair_views(pairs@);
        let mut entries: Vec<Entry> = Vec::new();
        let mut i: usize = 0;
        while i < pairs.len()
            invariant
                i <= pairs.len(),
                all == pair_views(pairs@),
                entry_views(entries@) == value_entries(all.take(i as int)),
            decreases pairs.len() - i,
        {
            let pair = &pairs[i];
            let ghost before = entry_views(entries@);
            entries.push(
                Entry { key: pair.key.clone(), value: EntryValue::Value(pair.value.clone()) },
            );
            proof {
                assert(entry_views(entries@) =~= before.push(value_entry(pair@)));
                assert(value_entries(all.take(i + 1)) =~= before.push(value_entry(pair@)));
            }
            i += 1;
        }
        assert(all.take(i as int) =~= all);
        write_object(&entries)
    }

    /// The snapshot that `members` stand for. A member named after a tag gives the
    /// tag its value, `null` standing for an absent tag; a tag that names no
    /// member is absent; a member named after no tag is passed over. The members
    /// are refused if one of them holds a value that its tag does not accept, or
    /// if two of them are named after one tag. Members that come from JSON text
    /// through `from_json` never hold one name twice, so the second refusal is
    /// for members that a caller has put together.
    pub fn from_members(members: &Vec<Member>) -> (r: Result<AudioTags, MalformedInput>)
        ensures
            outcome_view(r) == snapshot_of(member_views(members@)),
    {
        let ghost all = member_views(members@);
        let mut tags = AudioTags::new();
        let mut seen: Vec<bool> = vec![false, false, false, false, false, false, false];
        let mut i: usize = 0;
        assert(all.take(0) =~= Seq::<MemberView>::empty());
        while i < members.len()
            invariant
                i <= members.len(),
                all == member_views(members@),
                seen.len() == 7,
                accepted(all.take(i as int)),
                forall|field: Field| #[trigger]
                    seen[field.index()] <==> exists|j: int| names(all.take(i as int), field, j),
                forall|field: Field| #[trigger]
                    tags@.get(field) == member_of(all.take(i as int), field),
            decreases members.len() - i,
        {
            let member = &members[i];
            let ghost before = all.take(i as int);
            let ghost after = all.take(i + 1);
            let ghost held = tags@;
            let named = Field::from_name(member.key.as_str());
            proof {
                assert(all[i as int] == member@);
                assert forall|field: Field|
                    member@.key == field.spec_name() <==> named == Some(field) by {
                    if named is Some {
                        Field::lemma_names_distinct(field, named->0);
                    }
                }
            }
            match named {
                None => {
                    proof {
                        lemma_accepted_step(all, i as int);
                    }
                },
                Some(field) => {
                    if seen[field.position()] {
                        proof {
                            let j = choose|j: int| names(before, field, j);
                            assert(before[j] == all[j]);
                            assert(names(all, field, j) && names(all, field, i as int));
                            lemma_refused(all, i as int, field);
                        }
                        return Err(MalformedInput);
                    }
                    if !store(&mut tags, field, &member.value) {
                        proof {
                            assert(names(all, field, i as int));
                            lemma_refused(all, i as int, field);
                        }
                        return Err(MalformedInput);
                    }
                    seen.set(field.position(), true);
                    proof {
                        assert forall|other: Field|
                            member@.key == other.spec_name() implies read_value(
                            other,
                            member@.value,
                        ) is Some && !exists|j: int| names(before, other, j) by {
                            assert(other == field);
                        }
                        lemma_accepted_step(all, i as int);
                    }
                },
            }
            proof {
                assert forall|field: Field| #[trigger]
                    seen[field.index()] <==> exists|j: int| names(after, field, j) by {
                    if exists|j: int| names(after, field, j) {
                        let j = choose|j: int| names(after, field, j);
                        lemma_names_step(all, i as int, field, j);
                    }
                    if exists|j: int| names(before, field, j) {
                        let j = choose|j: int| names(before, field, j);
                        lemma_names_step(all, i as int, field, j);
                        assert(names(after, field, j));
                    }
                    if member@.key == field.spec_name() {
                        lemma_names_step(all, i as int, field, i as int);
                        assert(names(after, field, i as int));
                    }
                }
                assert forall|field: Field| #[trigger]
                    tags@.get(field) == member_of(after, field) by {
                    lemma_member_step(all, i as int, field);
                    assert(held.get(field) == member_of(before, field));
                }
            }
            i += 1;
        }
        proof {
            assert(all.take(i as int) =~= all);
            let read = snapshot_of(all)->Ok_0;
            assert forall|field: Field| tags@.get(field) == read.get(field) by {
                assert(tags@.get(field) == member_of(all, field));
            }
            tags@.lemma_equal_by_fields(read);
        }
        Ok(tags)
    }

    /// The snapshot that the JSON object `text` stands for. `text` is refused if
    /// it is not one JSON object, or if its members stand for no snapshot. A key
    /// that `text` repeats is not refused: `serde_json` hands on one member for
    /// each key, with the value that stands last in `text`.
    pub fn from_json(text: &str) -> (r: Result<AudioTags, MalformedInput>)
        ensures
            outcome_view(r) == snapshot_in(text@),
    {
        match read_object(text) {
            Some(members) => AudioTags::from_members(&members),
            None => Err(MalformedInput),
        }
    }
}

/// The members of a snapshot's JSON object, as members that were read.
pub open spec fn document_as_read(tags: TagsView) -> Seq<MemberView> {
    tags.document().map_values(|pair: PairView| as_read(pair))
}

/// A snapshot's JSON object has a member for a tag if and only if the snapshot
/// holds the tag, and no member of it is `null`.
pub proof fn lemma_document_members(tags: TagsView, field: Field)
    ensures
        (exists|i: int| names(document_as_read(tags), field, i)) <==> tags.get(field) is Some,
        forall|i: int|
            0 <= i < document_as_read(tags).len() ==> (#[trigger] document_as_read(
                tags,
            )[i]).value != MemberValueView::Null,
{
    let entries = tags.entries();
    let read = document_as_read(tags);
    tags.lemma_entries_held(7);
    Field::lemma_at_index(field);
    if tags.get(field) is Some {
        tags.lemma_entries_complete(7, field);
        let i = choose|i: int|
            0 <= i < entries.len() && #[trigger] entries[i] == (TagView {
                field,
                value: tags.get(field)->0,
            });
        assert(names(read, field, i));
    }
    if exists|i: int| names(read, field, i) {
        let i = choose|i: int| names(read, field, i);
        Field::lemma_names_distinct(entries[i].field, field);
    }
}

/// Reading back the members that are written for a snapshot gives the snapshot
/// again: every tag that it holds with the value that it holds, and every other
/// tag absent.
pub proof fn lemma_document_reads_back(tags: TagsView)
    ensures
        snapshot_of(document_as_read(tags)) == Ok::<TagsView, MalformedInput>(tags),
{
    let entries = tags.entries();
    let read = document_as_read(tags);
    tags.lemma_entries_held(7);
    tags.lemma_entries_ordered(7);
    assert forall|field: Field, i: int| #[trigger] names(read, field, i) implies entries[i].field
        == field && read_value(field, read[i].value) == Some(tags.get(field)) by {
        Field::lemma_names_distinct(entries[i].field, field);
        tags.lemma_get_well_typed(field);
    }
    assert(accepted(read)) by {
        assert forall|field: Field, i: int, j: int| #[trigger]
            names(read, field, i) && #[trigger] names(read, field, j) implies i == j by {
            if i < j {
                assert(entries[i].field.index() < entries[j].field.index());
            }
            if j < i {
                assert(entries[j].field.index() < entries[i].field.index());
            }
        }
    }
    let back = snapshot_of(read)->Ok_0;
    assert forall|field: Field| back.get(field) == tags.get(field) by {
        lemma_document_members(tags, field);
        if exists|i: int| names(read, field, i) {
            let i = choose|i: int| names(read, field, i);
            assert(read_value(field, read[i].value) == Some(tags.get(field)));
        }
        assert(member_of(read, field) == tags.get(field));
    }
    back.lemma_equal_by_fields(tags);
}

} // verus!
