//! Closed-vocabulary category codecs. Each enumeration is parsed from a
//! fixed string-to-variant table; any string outside the table is an
//! error, never coerced to a default. The literal spellings, including
//! "DJ-mix", "Mixtape/Street" and "EP", are part of the wire vocabulary
//! and are preserved exactly.
use vstd::prelude::*;
use crate::error::Error;
use crate::text::str_eq;

verus! {

/// Whether an artist is an individual person, a group, or something else.
#[derive(Clone, Copy, Debug, PartialEq, Eq, Structural)]
pub enum PersonType {
    /// An individual person.
    Person,
    /// A group of people that may or may not have a distinctive name.
    Group,
    /// An orchestra (a large instrumental ensemble).
    Orchestra,
    /// A choir/chorus (a large vocal ensemble).
    Choir,
    /// An individual fictional character.
    Character,
    /// Anything which does not fit into the above categories.
    Other,
}

impl PersonType {
    /// The table mapping vocabulary strings to variants.
    pub open spec fn from_text(s: Seq<char>) -> Option<PersonType> {
        if s == "Person"@ {
            Some(PersonType::Person)
        } else if s == "Group"@ {
            Some(PersonType::Group)
        } else if s == "Orchestra"@ {
            Some(PersonType::Orchestra)
        } else if s == "Choir"@ {
            Some(PersonType::Choir)
        } else if s == "Character"@ {
            Some(PersonType::Character)
        } else if s == "Other"@ {
            Some(PersonType::Other)
        } else {
            None
        }
    }

    /// The vocabulary string of each variant.
    pub open spec fn text(self) -> Seq<char> {
        match self {
            PersonType::Person => "Person"@,
            PersonType::Group => "Group"@,
            PersonType::Orchestra => "Orchestra"@,
            PersonType::Choir => "Choir"@,
            PersonType::Character => "Character"@,
            PersonType::Other => "Other"@,
        }
    }

    /// Parses a vocabulary string; strings outside the table are rejected.
    pub fn from_str(s: &str) -> (r: Result<PersonType, Error>)
        ensures
            match PersonType::from_text(s@) {
                Some(t) => r == Ok::<PersonType, Error>(t),
                None => r == Err::<PersonType, Error>(Error::UnrecognizedEnumValue),
            },
    {
        if str_eq(s, "Person") {
            Ok(PersonType::Person)
        } else if str_eq(s, "Group") {
            Ok(PersonType::Group)
        } else if str_eq(s, "Orchestra") {
            Ok(PersonType::Orchestra)
        } else if str_eq(s, "Choir") {
            Ok(PersonType::Choir)
        } else if str_eq(s, "Character") {
            Ok(PersonType::Character)
        } else if str_eq(s, "Other") {
            Ok(PersonType::Other)
        } else {
            Err(Error::UnrecognizedEnumValue)
        }
    }

    /// The vocabulary string of this variant.
    pub fn as_text(&self) -> (r: &'static str)
        ensures
            r@ == self.text(),
    {
        match self {
            PersonType::Person => "Person",
            PersonType::Group => "Group",
            PersonType::Orchestra => "Orchestra",
            PersonType::Choir => "Choir",
            PersonType::Character => "Character",
            PersonType::Other => "Other",
        }
    }
}

/// The codec of [`PersonType`] is lossless over its table: printing a
/// variant and parsing the result yields the variant back, and any string
/// the parser accepts prints back to itself.
pub proof fn lemma_person_type_codec_lossless(t: PersonType, s: Seq<char>)
    ensures
        PersonType::from_text(t.text()) == Some(t),
        PersonType::from_text(s) matches Some(u) ==> u.text() == s,
{
    reveal_strlit("Person");
    reveal_strlit("Group");
    reveal_strlit("Orchestra");
    reveal_strlit("Choir");
    reveal_strlit("Character");
    reveal_strlit("Other");
    assert("Person"@.len() == 6 && "Person"@[0] == 'P');
    assert("Group"@.len() == 5 && "Group"@[0] == 'G');
    assert("Orchestra"@.len() == 9 && "Orchestra"@[0] == 'O');
    assert("Choir"@.len() == 5 && "Choir"@[0] == 'C');
    assert("Character"@.len() == 9 && "Character"@[0] == 'C');
    assert("Other"@.len() == 5 && "Other"@[0] == 'O');
    assert(PersonType::from_text(PersonType::Person.text()) == Some(PersonType::Person));
    assert(PersonType::from_text(PersonType::Group.text()) == Some(PersonType::Group));
    assert(PersonType::from_text(PersonType::Orchestra.text()) == Some(PersonType::Orchestra));
    assert(PersonType::from_text(PersonType::Choir.text()) == Some(PersonType::Choir));
    assert(PersonType::from_text(PersonType::Character.text()) == Some(PersonType::Character));
    assert(PersonType::from_text(PersonType::Other.text()) == Some(PersonType::Other));
}

/// The main category of a release group.
#[derive(Clone, Copy, Debug, PartialEq, Eq, Structural)]
pub enum AlbumMainType {
    Album,
    Single,
    EP,
    Broadcast,
    Other,
}

impl AlbumMainType {
    /// The table mapping vocabulary strings to variants.
    pub open spec fn from_text(s: Seq<char>) -> Option<AlbumMainType> {
        if s == "Album"@ {
            Some(AlbumMainType::Album)
        } else if s == "Single"@ {
            Some(AlbumMainType::Single)
        } else if s == "EP"@ {
            Some(AlbumMainType::EP)
        } else if s == "Broadcast"@ {
            Some(AlbumMainType::Broadcast)
        } else if s == "Other"@ {
            Some(AlbumMainType::Other)
        } else {
            None
        }
    }

    /// The vocabulary string of each variant.
    pub open spec fn text(self) -> Seq<char> {
        match self {
            AlbumMainType::Album => "Album"@,
            AlbumMainType::Single => "Single"@,
            AlbumMainType::EP => "EP"@,
            AlbumMainType::Broadcast => "Broadcast"@,
            AlbumMainType::Other => "Other"@,
        }
    }

    /// Parses a vocabulary string; strings outside the table are rejected.
    pub fn from_str(s: &str) -> (r: Result<AlbumMainType, Error>)
        ensures
            match AlbumMainType::from_text(s@) {
                Some(t) => r == Ok::<AlbumMainType, Error>(t),
                None => r == Err::<AlbumMainType, Error>(Error::UnrecognizedEnumValue),
            },
    {
        if str_eq(s, "Album") {
            Ok(AlbumMainType::Album)
        } else if str_eq(s, "Single") {
            Ok(AlbumMainType::Single)
        } else if str_eq(s, "EP") {
            Ok(AlbumMainType::EP)
        } else if str_eq(s, "Broadcast") {
            Ok(AlbumMainType::Broadcast)
        } else if str_eq(s, "Other") {
            Ok(AlbumMainType::Other)
        } else {
            Err(Error::UnrecognizedEnumValue)
        }
    }

    /// The vocabulary string of this variant.
    pub fn as_text(&self) -> (r: &'static str)
        ensures
            r@ == self.text(),
    {
        match self {
            AlbumMainType::Album => "Album",
            AlbumMainType::Single => "Single",
            AlbumMainType::EP => "EP",
            AlbumMainType::Broadcast => "Broadcast",
            AlbumMainType::Other => "Other",
        }
    }
}

/// The codec of [`AlbumMainType`] is lossless over its table.
pub proof fn lemma_album_main_type_codec_lossless(t: AlbumMainType, s: Seq<char>)
    ensures
        AlbumMainType::from_text(t.text()) == Some(t),
        AlbumMainType::from_text(s) matches Some(u) ==> u.text() == s,
{
    reveal_strlit("Album");
    reveal_strlit("Single");
    reveal_strlit("EP");
    reveal_strlit("Broadcast");
    reveal_strlit("Other");
    assert("Album"@.len() == 5 && "Album"@[0] == 'A');
    assert("Single"@.len() == 6 && "Single"@[0] == 'S');
    assert("EP"@.len() == 2 && "EP"@[0] == 'E');
    assert("Broadcast"@.len() == 9 && "Broadcast"@[0] == 'B');
    assert("Other"@.len() == 5 && "Other"@[0] == 'O');
    assert(AlbumMainType::from_text(AlbumMainType::Album.text()) == Some(AlbumMainType::Album));
    assert(AlbumMainType::from_text(AlbumMainType::Single.text()) == Some(AlbumMainType::Single));
    assert(AlbumMainType::from_text(AlbumMainType::EP.text()) == Some(AlbumMainType::EP));
    assert(AlbumMainType::from_text(AlbumMainType::Broadcast.text()) == Some(
        AlbumMainType::Broadcast,
    ));
    assert(AlbumMainType::from_text(AlbumMainType::Other.text()) == Some(AlbumMainType::Other));
}

/// A secondary category of a release group; a release group carries a
/// set-like list of these.
#[derive(Clone, Copy, Debug, PartialEq, Eq, Structural)]
pub enum AlbumSecondaryType {
    Compilation,
    Soundtrack,
    Spokenword,
    Interview,
    Audiobook,
    Live,
    Remix,
    DjMix,
    MixtapeStreet,
}

impl AlbumSecondaryType {
    /// The table mapping vocabulary strings to variants.
    pub open spec fn from_text(s: Seq<char>) -> Option<AlbumSecondaryType> {
        if s == "Compilation"@ {
            Some(AlbumSecondaryType::Compilation)
        } else if s == "Soundtrack"@ {
            Some(AlbumSecondaryType::Soundtrack)
        } else if s == "Spokenword"@ {
            Some(AlbumSecondaryType::Spokenword)
        } else if s == "Interview"@ {
            Some(AlbumSecondaryType::Interview)
        } else if s == "Audiobook"@ {
            Some(AlbumSecondaryType::Audiobook)
        } else if s == "Live"@ {
            Some(AlbumSecondaryType::Live)
        } else if s == "Remix"@ {
            Some(AlbumSecondaryType::Remix)
        } else if s == "DJ-mix"@ {
            Some(AlbumSecondaryType::DjMix)
        } else if s == "Mixtape/Street"@ {
            Some(AlbumSecondaryType::MixtapeStreet)
        } else {
            None
        }
    }

    /// The vocabulary string of each variant.
    pub open spec fn text(self) -> Seq<char> {
        match self {
            AlbumSecondaryType::Compilation => "Compilation"@,
            AlbumSecondaryType::Soundtrack => "Soundtrack"@,
            AlbumSecondaryType::Spokenword => "Spokenword"@,
            AlbumSecondaryType::Interview => "Interview"@,
            AlbumSecondaryType::Audiobook => "Audiobook"@,
            AlbumSecondaryType::Live => "Live"@,
            AlbumSecondaryType::Remix => "Remix"@,
            AlbumSecondaryType::DjMix => "DJ-mix"@,
            AlbumSecondaryType::MixtapeStreet => "Mixtape/Street"@,
        }
    }

    /// Parses a vocabulary string; strings outside the table are rejected.
    pub fn from_str(s: &str) -> (r: Result<AlbumSecondaryType, Error>)
        ensures
            match AlbumSecondaryType::from_text(s@) {
                Some(t) => r == Ok::<AlbumSecondaryType, Error>(t),
                None => r == Err::<AlbumSecondaryType, Error>(Error::UnrecognizedEnumValue),
            },
    {
        if str_eq(s, "Compilation") {
            Ok(AlbumSecondaryType::Compilation)
        } else if str_eq(s, "Soundtrack") {
            Ok(AlbumSecondaryType::Soundtrack)
        } else if str_eq(s, "Spokenword") {
            Ok(AlbumSecondaryType::Spokenword)
        } else if str_eq(s, "Interview") {
            Ok(AlbumSecondaryType::Interview)
        } else if str_eq(s, "Audiobook") {
            Ok(AlbumSecondaryType::Audiobook)
        } else if str_eq(s, "Live") {
            Ok(AlbumSecondaryType::Live)
        } else if str_eq(s, "Remix") {
            Ok(AlbumSecondaryType::Remix)
        } else if str_eq(s, "DJ-mix") {
            Ok(AlbumSecondaryType::DjMix)
        } else if str_eq(s, "Mixtape/Street") {
            Ok(AlbumSecondaryType::MixtapeStreet)
        } else {
            Err(Error::UnrecognizedEnumValue)
        }
    }

    /// The vocabulary string of this variant.
    pub fn as_text(&self) -> (r: &'static str)
        ensures
            r@ == self.text(),
    {
        match self {
            AlbumSecondaryType::Compilation => "Compilation",
            AlbumSecondaryType::Soundtrack => "Soundtrack",
            AlbumSecondaryType::Spokenword => "Spokenword",
            AlbumSecondaryType::Interview => "Interview",
            AlbumSecondaryType::Audiobook => "Audiobook",
            AlbumSecondaryType::Live => "Live",
            AlbumSecondaryType::Remix => "Remix",
            AlbumSecondaryType::DjMix => "DJ-mix",
            AlbumSecondaryType::MixtapeStreet => "Mixtape/Street",
        }
    }
}

/// The codec of [`AlbumSecondaryType`] is lossless over its table.
pub proof fn lemma_album_secondary_type_codec_lossless(t: AlbumSecondaryType, s: Seq<char>)
    ensures
        AlbumSecondaryType::from_text(t.text()) == Some(t),
        AlbumSecondaryType::from_text(s) matches Some(u) ==> u.text() == s,
{
    reveal_strlit("Compilation");
    reveal_strlit("Soundtrack");
    reveal_strlit("Spokenword");
    reveal_strlit("Interview");
    reveal_strlit("Audiobook");
    reveal_strlit("Live");
    reveal_strlit("Remix");
    reveal_strlit("DJ-mix");
    reveal_strlit("Mixtape/Street");
    assert("Compilation"@.len() == 11 && "Compilation"@[0] == 'C');
    assert("Soundtrack"@.len() == 10 && "Soundtrack"@[0] == 'S' && "Soundtrack"@[1] == 'o');
    assert("Spokenword"@.len() == 10 && "Spokenword"@[0] == 'S' && "Spokenword"@[1] == 'p');
    assert("Interview"@.len() == 9 && "Interview"@[0] == 'I');
    assert("Audiobook"@.len() == 9 && "Audiobook"@[0] == 'A');
    assert("Live"@.len() == 4 && "Live"@[0] == 'L');
    assert("Remix"@.len() == 5 && "Remix"@[0] == 'R');
    assert("DJ-mix"@.len() == 6 && "DJ-mix"@[0] == 'D');
    assert("Mixtape/Street"@.len() == 14 && "Mixtape/Street"@[0] == 'M');
    assert(AlbumSecondaryType::from_text(AlbumSecondaryType::Compilation.text()) == Some(
        AlbumSecondaryType::Compilation,
    ));
    assert(AlbumSecondaryType::from_text(AlbumSecondaryType::Soundtrack.text()) == Some(
        AlbumSecondaryType::Soundtrack,
    ));
    assert(AlbumSecondaryType::from_text(AlbumSecondaryType::Spokenword.text()) == Some(
        AlbumSecondaryType::Spokenword,
    ));
    assert(AlbumSecondaryType::from_text(AlbumSecondaryType::Interview.text()) == Some(
        AlbumSecondaryType::Interview,
    ));
    assert(AlbumSecondaryType::from_text(AlbumSecondaryType::Audiobook.text()) == Some(
        AlbumSecondaryType::Audiobook,
    ));
    assert(AlbumSecondaryType::from_text(AlbumSecondaryType::Live.text()) == Some(
        AlbumSecondaryType::Live,
    ));
    assert(AlbumSecondaryType::from_text(AlbumSecondaryType::Remix.text()) == Some(
        AlbumSecondaryType::Remix,
    ));
    assert(AlbumSecondaryType::from_text(AlbumSecondaryType::DjMix.text()) == Some(
        AlbumSecondaryType::DjMix,
    ));
    assert(AlbumSecondaryType::from_text(AlbumSecondaryType::MixtapeStreet.text()) == Some(
        AlbumSecondaryType::MixtapeStreet,
    ));
}

/// The merged category vocabulary: every main and secondary category in
/// one table, as some upstream documents mix the two.
#[derive(Clone, Copy, Debug, PartialEq, Eq, Structural)]
pub enum AlbumType {
    Album,
    Single,
    EP,
    Broadcast,
    Compilation,
    Soundtrack,
    Spokenword,
    Interview,
    Audiobook,
    Live,
    Remix,
    DjMix,
    MixtapeStreet,
    Other,
}

impl AlbumType {
    /// The table mapping vocabulary strings to variants.
    pub open spec fn from_text(s: Seq<char>) -> Option<AlbumType> {
        if s == "Album"@ {
            Some(AlbumType::Album)
        } else if s == "Single"@ {
            Some(AlbumType::Single)
        } else if s == "EP"@ {
            Some(AlbumType::EP)
        } else if s == "Broadcast"@ {
            Some(AlbumType::Broadcast)
        } else if s == "Compilation"@ {
            Some(AlbumType::Compilation)
        } else if s == "Soundtrack"@ {
            Some(AlbumType::Soundtrack)
        } else if s == "Spokenword"@ {
            Some(AlbumType::Spokenword)
        } else if s == "Interview"@ {
            Some(AlbumType::Interview)
        } else if s == "Audiobook"@ {
            Some(AlbumType::Audiobook)
        } else if s == "Live"@ {
            Some(AlbumType::Live)
        } else if s == "Remix"@ {
            Some(AlbumType::Remix)
        } else if s == "DJ-mix"@ {
            Some(AlbumType::DjMix)
        } else if s == "Mixtape/Street"@ {
            Some(AlbumType::MixtapeStreet)
        } else if s == "Other"@ {
            Some(AlbumType::Other)
        } else {
            None
        }
    }

    /// The vocabulary string of each variant.
    pub open spec fn text(self) -> Seq<char> {
        match self {
            AlbumType::Album => "Album"@,
            AlbumType::Single => "Single"@,
            AlbumType::EP => "EP"@,
            AlbumType::Broadcast => "Broadcast"@,
            AlbumType::Compilation => "Compilation"@,
            AlbumType::Soundtrack => "Soundtrack"@,
            AlbumType::Spokenword => "Spokenword"@,
            AlbumType::Interview => "Interview"@,
            AlbumType::Audiobook => "Audiobook"@,
            AlbumType::Live => "Live"@,
            AlbumType::Remix => "Remix"@,
            AlbumType::DjMix => "DJ-mix"@,
            AlbumType::MixtapeStreet => "Mixtape/Street"@,
            AlbumType::Other => "Other"@,
        }
    }

    /// Parses a vocabulary string; strings outside the table are rejected.
    pub fn from_str(s: &str) -> (r: Result<AlbumType, Error>)
        ensures
            match AlbumType::from_text(s@) {
                Some(t) => r == Ok::<AlbumType, Error>(t),
                None => r == Err::<AlbumType, Error>(Error::UnrecognizedEnumValue),
            },
    {
        if str_eq(s, "Album") {
            Ok(AlbumType::Album)
        } else if str_eq(s, "Single") {
            Ok(AlbumType::Single)
        } else if str_eq(s, "EP") {
            Ok(AlbumType::EP)
        } else if str_eq(s, "Broadcast") {
            Ok(AlbumType::Broadcast)
        } else if str_eq(s, "Compilation") {
            Ok(AlbumType::Compilation)
        } else if str_eq(s, "Soundtrack") {
            Ok(AlbumType::Soundtrack)
        } else if str_eq(s, "Spokenword") {
            Ok(AlbumType::Spokenword)
        } else if str_eq(s, "Interview") {
            Ok(AlbumType::Interview)
        } else if str_eq(s, "Audiobook") {
            Ok(AlbumType::Audiobook)
        } else if str_eq(s, "Live") {
            Ok(AlbumType::Live)
        } else if str_eq(s, "Remix") {
            Ok(AlbumType::Remix)
        } else if str_eq(s, "DJ-mix") {
            Ok(AlbumType::DjMix)
        } else if str_eq(s, "Mixtape/Street") {
            Ok(AlbumType::MixtapeStreet)
        } else if str_eq(s, "Other") {
            Ok(AlbumType::Other)
        } else {
            Err(Error::UnrecognizedEnumValue)
        }
    }

    /// The vocabulary string of this variant.
    pub fn as_text(&self) -> (r: &'static str)
        ensures
            r@ == self.text(),
    {
        match self {
            AlbumType::Album => "Album",
            AlbumType::Single => "Single",
            AlbumType::EP => "EP",
            AlbumType::Broadcast => "Broadcast",
            AlbumType::Compilation => "Compilation",
            AlbumType::Soundtrack => "Soundtrack",
            AlbumType::Spokenword => "Spokenword",
            AlbumType::Interview => "Interview",
            AlbumType::Audiobook => "Audiobook",
            AlbumType::Live => "Live",
            AlbumType::Remix => "Remix",
            AlbumType::DjMix => "DJ-mix",
            AlbumType::MixtapeStreet => "Mixtape/Street",
            AlbumType::Other => "Other",
        }
    }
}

/// The codec of [`AlbumType`] is lossless over its table.
pub proof fn lemma_album_type_codec_lossless(t: AlbumType, s: Seq<char>)
    ensures
        AlbumType::from_text(t.text()) == Some(t),
        AlbumType::from_text(s) matches Some(u) ==> u.text() == s,
{
    reveal_strlit("Album");
    reveal_strlit("Single");
    reveal_strlit("EP");
    reveal_strlit("Broadcast");
    reveal_strlit("Compilation");
    reveal_strlit("Soundtrack");
    reveal_strlit("Spokenword");
    reveal_strlit("Interview");
    reveal_strlit("Audiobook");
    reveal_strlit("Live");
    reveal_strlit("Remix");
    reveal_strlit("DJ-mix");
    reveal_strlit("Mixtape/Street");
    reveal_strlit("Other");
    assert("Album"@.len() == 5 && "Album"@[0] == 'A');
    assert("Single"@.len() == 6 && "Single"@[0] == 'S');
    assert("EP"@.len() == 2 && "EP"@[0] == 'E');
    assert("Broadcast"@.len() == 9 && "Broadcast"@[0] == 'B');
    assert("Compilation"@.len() == 11 && "Compilation"@[0] == 'C');
    assert("Soundtrack"@.len() == 10 && "Soundtrack"@[0] == 'S' && "Soundtrack"@[1] == 'o');
    assert("Spokenword"@.len() == 10 && "Spokenword"@[0] == 'S' && "Spokenword"@[1] == 'p');
    assert("Interview"@.len() == 9 && "Interview"@[0] == 'I');
    assert("Audiobook"@.len() == 9 && "Audiobook"@[0] == 'A');
    assert("Live"@.len() == 4 && "Live"@[0] == 'L');
    assert("Remix"@.len() == 5 && "Remix"@[0] == 'R');
    assert("DJ-mix"@.len() == 6 && "DJ-mix"@[0] == 'D');
    assert("Mixtape/Street"@.len() == 14 && "Mixtape/Street"@[0] == 'M');
    assert("Other"@.len() == 5 && "Other"@[0] == 'O');
    assert(AlbumType::from_text(AlbumType::Album.text()) == Some(AlbumType::Album));
    assert(AlbumType::from_text(AlbumType::Single.text()) == Some(AlbumType::Single));
    assert(AlbumType::from_text(AlbumType::EP.text()) == Some(AlbumType::EP));
    assert(AlbumType::from_text(AlbumType::Broadcast.text()) == Some(AlbumType::Broadcast));
    assert(AlbumType::from_text(AlbumType::Compilation.text()) == Some(AlbumType::Compilation));
    assert(AlbumType::from_text(AlbumType::Soundtrack.text()) == Some(AlbumType::Soundtrack));
    assert(AlbumType::from_text(AlbumType::Spokenword.text()) == Some(AlbumType::Spokenword));
    assert(AlbumType::from_text(AlbumType::Interview.text()) == Some(AlbumType::Interview));
    assert(AlbumType::from_text(AlbumType::Audiobook.text()) == Some(AlbumType::Audiobook));
    assert(AlbumType::from_text(AlbumType::Live.text()) == Some(AlbumType::Live));
    assert(AlbumType::from_text(AlbumType::Remix.text()) == Some(AlbumType::Remix));
    assert(AlbumType::from_text(AlbumType::DjMix.text()) == Some(AlbumType::DjMix));
    assert(AlbumType::from_text(AlbumType::MixtapeStreet.text()) == Some(AlbumType::MixtapeStreet));
    assert(AlbumType::from_text(AlbumType::Other.text()) == Some(AlbumType::Other));
}

} // verus!
