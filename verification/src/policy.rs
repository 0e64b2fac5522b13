//! Which tags an update writes. A desired snapshot is a partial update: an
//! absent tag is left as the file has it, and a tag that the file already holds
//! with the same value is not written again.

use crate::field::Field;
use crate::snapshot::{clone_text, text_view, AudioTags, TagView, TagsView};
use vstd::prelude::*;

verus! {

/// Whether an update to `desired` writes `field` on a file that holds `current`:
/// the update holds the tag, and holds it with another value than the file.
/// Numbers differ by value and text differs character by character.
pub open spec fn written(desired: TagsView, current: TagsView, field: Field) -> bool {
    desired.get(field) is Some && desired.get(field) != current.get(field)
}

/// The desired value where it has to be written, nothing where it has not.
pub open spec fn kept<A>(desired: Option<A>, current: Option<A>) -> Option<A> {
    if desired is Some && desired != current {
        desired
    } else {
        None
    }
}

/// The newer value where there is one, the older one otherwise.
pub open spec fn replaced<A>(older: Option<A>, newer: Option<A>) -> Option<A> {
    if newer is Some {
        newer
    } else {
        older
    }
}

impl TagsView {
    /// The tags that an update to `self` writes on a file that holds `current`,
    /// each with its new value.
    pub open spec fn changes(self, current: TagsView) -> TagsView {
        TagsView {
            title: kept(self.title, current.title),
            artist: kept(self.artist, current.artist),
            album: kept(self.album, current.album),
            comment: kept(self.comment, current.comment),
            genre: kept(self.genre, current.genre),
            year: kept(self.year, current.year),
            track: kept(self.track, current.track),
        }
    }

    /// What a file that held `self` holds once the tags of `update` are written.
    pub open spec fn merged(self, update: TagsView) -> TagsView {
        TagsView {
            title: replaced(self.title, update.title),
            artist: replaced(self.artist, update.artist),
            album: replaced(self.album, update.album),
            comment: replaced(self.comment, update.comment),
            genre: replaced(self.genre, update.genre),
            year: replaced(self.year, update.year),
            track: replaced(self.track, update.track),
        }
    }
}

/// A tag is written if and only if the update holds it with another value than
/// the file, and it is then written with the update's value. The rule is the
/// same for each of the seven tags.
pub proof fn lemma_written_rule(desired: TagsView, current: TagsView, field: Field)
    ensures
        desired.changes(current).get(field) == (if written(desired, current, field) {
            desired.get(field)
        } else {
            None
        }),
{
}

/// Nothing has to be saved if and only if no tag is written.
pub proof fn lemma_nothing_written(desired: TagsView, current: TagsView)
    ensures
        desired.changes(current) == TagsView::empty() <==> forall|field: Field|
            !written(desired, current, field),
{
    let changes = desired.changes(current);
    if changes == TagsView::empty() {
        assert forall|field: Field| !written(desired, current, field) by {
            lemma_written_rule(desired, current, field);
        }
    }
    if forall|field: Field| !written(desired, current, field) {
        assert forall|field: Field| changes.get(field) == TagsView::empty().get(field) by {
            lemma_written_rule(desired, current, field);
        }
        changes.lemma_equal_by_fields(TagsView::empty());
    }
}

/// An update that holds no tag writes nothing, whatever the file holds.
pub proof fn lemma_empty_update(current: TagsView)
    ensures
        TagsView::empty().changes(current) == TagsView::empty(),
{
}

/// Writing the tags of an update leaves the file with the update's value for
/// every tag that the update holds, and with what it had for every other tag.
pub proof fn lemma_merged_rule(current: TagsView, desired: TagsView, field: Field)
    ensures
        current.merged(desired.changes(current)).get(field) == (if desired.get(field) is Some {
            desired.get(field)
        } else {
            current.get(field)
        }),
{
}

/// Applying an update twice: the second time nothing is written, whatever the
/// first one wrote.
pub proof fn lemma_second_update_writes_nothing(desired: TagsView, current: TagsView)
    ensures
        desired.changes(current.merged(desired.changes(current))) == TagsView::empty(),
{
}

/// Applying an update twice: the first time a tag is written, provided that the
/// update holds a tag with another value than the file.
pub proof fn lemma_first_update_writes(desired: TagsView, current: TagsView, field: Field)
    requires
        written(desired, current, field),
    ensures
        desired.changes(current) != TagsView::empty(),
        desired.changes(current).get(field) == desired.get(field),
{
    lemma_written_rule(desired, current, field);
}

/// The tags that an update writes, as a list: a tag is on it if and only if the
/// update holds it with another value than the file, it is on it once, and it
/// stands there with the update's value.
pub proof fn lemma_writes(desired: TagsView, current: TagsView, field: Field)
    ensures
        ({
            let writes = desired.changes(current).entries();
            &&& (exists|i: int| 0 <= i < writes.len() && (#[trigger] writes[i]).field == field)
                <==> written(desired, current, field)
            &&& forall|i: int|
                0 <= i < writes.len() && (#[trigger] writes[i]).field == field ==> Some(
                    writes[i].value,
                ) == desired.get(field)
            &&& forall|i: int, j: int|
                0 <= i < j < writes.len() ==> (#[trigger] writes[i]).field != (
                #[trigger] writes[j]).field
        }),
{
    let changes = desired.changes(current);
    let writes = changes.entries();
    lemma_written_rule(desired, current, field);
    changes.lemma_entries_held(7);
    changes.lemma_entries_ordered(7);
    Field::lemma_at_index(field);
    if written(desired, current, field) {
        changes.lemma_entries_complete(7, field);
        let i = choose|i: int|
            0 <= i < writes.len() && #[trigger] writes[i] == (TagView {
                field,
                value: changes.get(field)->0,
            });
        assert(writes[i].field == field);
    }
}

/// The desired text where it has to be written.
fn changed_text(desired: &Option<String>, current: &Option<String>) -> (r: Option<String>)
    ensures
        text_view(r) == kept(text_view(*desired), text_view(*current)),
{
    match desired {
        None => None,
        Some(wanted) => {
            let same = match current {
                Some(held) => *wanted == *held,
                None => false,
            };
            if same {
                None
            } else {
                Some(wanted.clone())
            }
        },
    }
}

/// The desired number where it has to be written.
fn changed_number(desired: Option<u32>, current: Option<u32>) -> (r: Option<u32>)
    ensures
        r == kept(desired, current),
{
    match desired {
        None => None,
        Some(wanted) => {
            let same = match current {
                Some(held) => wanted == held,
                None => false,
            };
            if same {
                None
            } else {
                Some(wanted)
            }
        },
    }
}

/// The newer text where there is one, the older one otherwise.
fn replaced_text(older: &Option<String>, newer: &Option<String>) -> (r: Option<String>)
    ensures
        text_view(r) == replaced(text_view(*older), text_view(*newer)),
{
    match newer {
        Some(_) => clone_text(newer),
        None => clone_text(older),
    }
}

impl AudioTags {
    /// The tags that an update to `self` writes on a file that holds `current`,
    /// each with its new value: a tag is among them if and only if `self` holds it
    /// and holds it with another value than `current`.
    pub fn changes(&self, current: &AudioTags) -> (r: AudioTags)
        ensures
            r@ == self@.changes(current@),
            forall|field: Field|
                r@.get(field) == (if written(self@, current@, field) {
                    self@.get(field)
                } else {
                    None
                }),
    {
        let r = AudioTags {
            title: changed_text(&self.title, &current.title),
            artist: changed_text(&self.artist, &current.artist),
            album: changed_text(&self.album, &current.album),
            comment: changed_text(&self.comment, &current.comment),
            genre: changed_text(&self.genre, &current.genre),
            year: changed_number(self.year, current.year),
            track: changed_number(self.track, current.track),
        };
        proof {
            assert forall|field: Field|
                r@.get(field) == (if written(self@, current@, field) {
                    self@.get(field)
                } else {
                    None
                }) by {
                lemma_written_rule(self@, current@, field);
            }
        }
        r
    }

    /// What a file that held `self` holds once the tags of `update` are written:
    /// the value of `update` for every tag that it holds, that of `self` for
    /// every other.
    pub fn merged(&self, update: &AudioTags) -> (r: AudioTags)
        ensures
            r@ == self@.merged(update@),
            forall|field: Field|
                r@.get(field) == (if update@.get(field) is Some {
                    update@.get(field)
                } else {
                    self@.get(field)
                }),
    {
        AudioTags {
            title: replaced_text(&self.title, &update.title),
            artist: replaced_text(&self.artist, &update.artist),
            album: replaced_text(&self.album, &update.album),
            comment: replaced_text(&self.comment, &update.comment),
            genre: replaced_text(&self.genre, &update.genre),
            year: if update.year.is_some() {
                update.year
            } else {
                self.year
            },
            track: if update.track.is_some() {
                update.track
            } else {
                self.track
            },
        }
    }
}

} // verus!
