//! The tags that a snapshot can hold, and the values they take.

use vstd::prelude::*;
use vstd::string::*;

verus! {

/// The seven tags of a snapshot, in the order in which they are always listed.
#[derive(Clone, Copy, Debug, PartialEq, Eq, Structural)]
pub enum Field {
    Title,
    Artist,
    Album,
    Comment,
    Genre,
    Year,
    Track,
}

impl Field {
    /// Position of the tag in the listing order.
    pub open spec fn index(self) -> int {
        match self {
            Field::Title => 0,
            Field::Artist => 1,
            Field::Album => 2,
            Field::Comment => 3,
            Field::Genre => 4,
            Field::Year => 5,
            Field::Track => 6,
        }
    }

    /// Whether the tag holds text; the others hold a number.
    pub open spec fn is_text(self) -> bool {
        self != Field::Year && self != Field::Track
    }

    /// The tag at position `i` of the listing order; the first one for a position
    /// before the start, the last one for a position past the end.
    pub open spec fn at(i: int) -> Field {
        if i <= 0 {
            Field::Title
        } else if i == 1 {
            Field::Artist
        } else if i == 2 {
            Field::Album
        } else if i == 3 {
            Field::Comment
        } else if i == 4 {
            Field::Genre
        } else if i == 5 {
            Field::Year
        } else {
            Field::Track
        }
    }

    /// Every tag stands at its own position.
    pub proof fn lemma_at_index(field: Field)
        ensures
            0 <= field.index() < 7,
            Field::at(field.index()) == field,
    {
    }

    /// Every position of the listing order holds its own tag.
    pub proof fn lemma_index_at(i: int)
        requires
            0 <= i < 7,
        ensures
            Field::at(i).index() == i,
    {
    }

    /// The tag at position `i` of the listing order; the last one for a position
    /// past the end.
    pub fn nth(i: usize) -> (r: Field)
        ensures
            r == Field::at(i as int),
    {
        if i == 0 {
            Field::Title
        } else if i == 1 {
            Field::Artist
        } else if i == 2 {
            Field::Album
        } else if i == 3 {
            Field::Comment
        } else if i == 4 {
            Field::Genre
        } else if i == 5 {
            Field::Year
        } else {
            Field::Track
        }
    }

    /// Position of the tag in the listing order.
    pub fn position(self) -> (r: usize)
        ensures
            r == self.index(),
    {
        match self {
            Field::Title => 0,
            Field::Artist => 1,
            Field::Album => 2,
            Field::Comment => 3,
            Field::Genre => 4,
            Field::Year => 5,
            Field::Track => 6,
        }
    }

    /// Whether the tag holds text; the others hold a number.
    pub fn holds_text(self) -> (r: bool)
        ensures
            r == self.is_text(),
    {
        match self {
            Field::Year => false,
            Field::Track => false,
            _ => true,
        }
    }

    /// The tag's name, as it appears in listings and as a key in JSON.
    pub open spec fn spec_name(self) -> Seq<char> {
        match self {
            Field::Title => "title"@,
            Field::Artist => "artist"@,
            Field::Album => "album"@,
            Field::Comment => "comment"@,
            Field::Genre => "genre"@,
            Field::Year => "year"@,
            Field::Track => "track"@,
        }
    }

    /// The tag's name.
    pub fn name(self) -> (r: &'static str)
        ensures
            r@ == self.spec_name(),
    {
        match self {
            Field::Title => "title",
            Field::Artist => "artist",
            Field::Album => "album",
            Field::Comment => "comment",
            Field::Genre => "genre",
            Field::Year => "year",
            Field::Track => "track",
        }
    }

    /// No two tags share a name.
    pub proof fn lemma_names_distinct(a: Field, b: Field)
        ensures
            a.spec_name() == b.spec_name() <==> a == b,
    {
        reveal_strlit("title");
        reveal_strlit("artist");
        reveal_strlit("album");
        reveal_strlit("comment");
        reveal_strlit("genre");
        reveal_strlit("year");
        reveal_strlit("track");
        if a != b {
            let x = a.spec_name();
            let y = b.spec_name();
            assert(x.len() != y.len() || x[1] != y[1]);
        }
    }

    /// The tag that `name` names, if any.
    pub fn from_name(name: &str) -> (r: Option<Field>)
        ensures
            match r {
                Some(f) => name@ == f.spec_name(),
                None => forall|f: Field| name@ != f.spec_name(),
            },
    {
        let wanted = String::from_str(name);
        if wanted == String::from_str("title") {
            Some(Field::Title)
        } else if wanted == String::from_str("artist") {
            Some(Field::Artist)
        } else if wanted == String::from_str("album") {
            Some(Field::Album)
        } else if wanted == String::from_str("comment") {
            Some(Field::Comment)
        } else if wanted == String::from_str("genre") {
            Some(Field::Genre)
        } else if wanted == String::from_str("year") {
            Some(Field::Year)
        } else if wanted == String::from_str("track") {
            Some(Field::Track)
        } else {
            None
        }
    }
}

} // verus!

