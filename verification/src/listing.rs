//! The files that a command has loaded, each under its name and no name twice.

use crate::batch::{file_views, FileTags, FileTagsView};
use crate::snapshot::AudioTags;
use vstd::prelude::*;
use vstd::string::*;

verus! {

/// Whether file `i` of `files` goes by `name`.
pub open spec fn named(files: Seq<FileTagsView>, name: Seq<char>, i: int) -> bool {
    0 <= i < files.len() && files[i].name == name
}

/// Where the file that goes by `name` stands in `files`, if there is one.
pub open spec fn position_of(files: Seq<FileTagsView>, name: Seq<char>) -> Option<int> {
    if exists|i: int| named(files, name, i) {
        Some(choose|i: int| named(files, name, i))
    } else {
        None
    }
}

/// Whether no two of `files` go by the same name.
pub open spec fn distinct_names(files: Seq<FileTagsView>) -> bool {
    forall|i: int, j: int|
        0 <= i < j < files.len() ==> (#[trigger] files[i]).name != (#[trigger] files[j]).name
}

/// The files that were loaded, in the order in which they first came. A file
/// that is loaded again takes the place of the one that went by its name.
#[derive(Debug, PartialEq, Eq)]
pub struct Listing {
    files: Vec<FileTags>,
}

impl View for Listing {
    type V = Seq<FileTagsView>;

    closed spec fn view(&self) -> Seq<FileTagsView> {
        file_views(self.files@)
    }
}

impl Listing {
    #[verifier::type_invariant]
    spec fn well_formed(&self) -> bool {
        distinct_names(file_views(self.files@))
    }

    /// The listing without any file.
    pub fn new() -> (r: Listing)
        ensures
            r@ == Seq::<FileTagsView>::empty(),
    {
        let r = Listing { files: Vec::new() };
        assert(r@ =~= Seq::<FileTagsView>::empty());
        r
    }

    /// How many files the listing holds.
    pub fn len(&self) -> (r: usize)
        ensures
            r == self@.len(),
    {
        self.files.len()
    }

    /// The files, in order. No two of them go by the same name.
    pub fn files(&self) -> (r: &Vec<FileTags>)
        ensures
            file_views(r@) == self@,
            distinct_names(self@),
    {
        proof {
            use_type_invariant(self);
        }
        &self.files
    }

    /// Where the file that goes by `name` stands, if there is one.
    pub fn position(&self, name: &str) -> (r: Option<usize>)
        ensures
            match r {
                Some(i) => position_of(self@, name@) == Some(i as int),
                None => position_of(self@, name@) is None,
            },
    {
        proof {
            use_type_invariant(self);
        }
        let wanted = String::from_str(name);
        let mut i: usize = 0;
        while i < self.files.len()
            invariant
                i <= self.files.len(),
                wanted@ == name@,
                distinct_names(self@),
                forall|j: int| 0 <= j < i ==> !named(self@, name@, j),
            decreases self.files.len() - i,
        {
            if self.files[i].name == wanted {
                proof {
                    assert(named(self@, name@, i as int));
                    let k = choose|k: int| named(self@, name@, k);
                    assert(k == i) by {
                        if k < i {
                        } else if k > i {
                            assert(self@[i as int].name != self@[k].name);
                        }
                    }
                }
                return Some(i);
            }
            i += 1;
        }
        None
    }

    /// Loads a file under `name`: in the place of the file that goes by `name`,
    /// if there is one, and after all the others if not. Gives the place.
    pub fn insert(&mut self, name: String, tags: AudioTags) -> (at: usize)
        ensures
            match position_of(old(self)@, name@) {
                Some(i) => at == i && final(self)@ == old(self)@.update(
                    i,
                    FileTagsView { name: name@, tags: tags@ },
                ),
                None => at == old(self)@.len() && final(self)@ == old(self)@.push(
                    FileTagsView { name: name@, tags: tags@ },
                ),
            },
            distinct_names(final(self)@),
    {
        let ghost before = self@;
        let ghost file = FileTagsView { name: name@, tags: tags@ };
        let found = self.position(name.as_str());
        let mut taken = Listing { files: Vec::new() };
        core::mem::swap(self, &mut taken);
        proof {
            use_type_invariant(&taken);
        }
        let mut files = taken.files;
        let at = match found {
            Some(i) => {
                files.set(i, FileTags { name, tags });
                proof {
                    let after = file_views(files@);
                    assert(after =~= before.update(i as int, file));
                    assert forall|a: int, b: int| 0 <= a < b < after.len() implies (#[trigger] after[a]).name
                        != (#[trigger] after[b]).name by {
                        assert(after[a].name == before[a].name);
                        assert(after[b].name == before[b].name);
                    }
                }
                i
            },
            None => {
                let at = files.len();
                files.push(FileTags { name, tags });
                proof {
                    let after = file_views(files@);
                    assert(after =~= before.push(file));
                    assert forall|a: int, b: int| 0 <= a < b < after.len() implies (#[trigger] after[a]).name
                        != (#[trigger] after[b]).name by {
                        assert(after[a] == before[a]);
                        if b < before.len() {
                            assert(after[b] == before[b]);
                        } else {
                            assert(!named(before, name@, a));
                        }
                    }
                }
                at
            },
        };
        *self = Listing { files };
        at
    }

    /// The one file of a command that was given one file, once it is loaded.
    /// A command that was given several files has no such file, however many of
    /// them were loaded.
    pub fn single(&self, requested: usize) -> (r: Option<&FileTags>)
        ensures
            match r {
                Some(file) => requested == 1 && self@.len() > 0 && file@ == self@[0],
                None => !(requested == 1 && self@.len() > 0),
            },
    {
        if requested == 1 && self.files.len() > 0 {
            Some(&self.files[0])
        } else {
            None
        }
    }
}

} // verus!
