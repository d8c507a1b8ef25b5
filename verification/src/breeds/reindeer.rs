//! Breeds of reindeer: the name under which each is shown, and the names by
//! which a breed is recognised in text.

use vstd::prelude::*;

use crate::error::{BreedNotFound, Species};
use crate::text::{lowercase_of, same_text};

verus! {

/// A breed of reindeer.
#[derive(Debug, Clone, Copy, PartialEq, Eq, Structural)]
pub enum ReindeerBreed {
    Chukotka,
    Even,
    Evenk,
    Nentsi,
}

impl ReindeerBreed {
    /// The name under which the breed is shown.
    pub open spec fn canonical_name(self) -> Seq<char> {
        match self {
            ReindeerBreed::Chukotka => "Chukotka"@,
            ReindeerBreed::Even => "Even"@,
            ReindeerBreed::Evenk => "Evenk"@,
            ReindeerBreed::Nentsi => "Nentsi"@,
        }
    }

    /// The form in which a text is compared with the listed names: lower
    /// case.
    pub open spec fn normal_form(text: Seq<char>) -> Seq<char> {
        lowercase_of(text)
    }

    /// Whether `name` is one of the names listed for the breed. The listed
    /// names are written in lower case.
    pub open spec fn has_name(self, name: Seq<char>) -> bool {
        match self {
            ReindeerBreed::Chukotka => name == "chukotka"@,
            ReindeerBreed::Even => name == "even"@,
            ReindeerBreed::Evenk => name == "evenk"@,
            ReindeerBreed::Nentsi => name == "nentsi"@,
        }
    }

    /// The breed for which `name` is listed, if it is listed at all.
    pub open spec fn listed_as(name: Seq<char>) -> Option<ReindeerBreed> {
        if exists|breed: ReindeerBreed| breed.has_name(name) {
            Some(choose|breed: ReindeerBreed| breed.has_name(name))
        } else {
            None
        }
    }

    /// The breed that `text` names: the one for which the normal form of
    /// `text` is listed.
    pub open spec fn named_by(text: Seq<char>) -> Option<ReindeerBreed> {
        Self::listed_as(Self::normal_form(text))
    }

    /// The name under which the breed is shown.
    pub fn to_string(&self) -> (shown: String)
        ensures
            shown@ == self.canonical_name(),
    {
        match self {
            ReindeerBreed::Chukotka => "Chukotka".to_string(),
            ReindeerBreed::Even => "Even".to_string(),
            ReindeerBreed::Evenk => "Evenk".to_string(),
            ReindeerBreed::Nentsi => "Nentsi".to_string(),
        }
    }

    /// Looks `name` up among the listed names. The comparison is exact, so
    /// `name` is expected in normal form.
    pub fn from_normalized(name: &str) -> (found: Option<ReindeerBreed>)
        ensures
            found == Self::listed_as(name@),
    {
        let found = Self::search(name);
        proof {
            if let Some(breed) = found {
                Self::lemma_listed_name_is_found(name@, breed);
            }
        }
        found
    }

    /// Goes through the listed names in order and stops at the first that
    /// equals `name`.
    fn search(name: &str) -> (found: Option<ReindeerBreed>)
        ensures
            match found {
                Some(breed) => breed.has_name(name@),
                None => forall|breed: ReindeerBreed| !breed.has_name(name@),
            },
    {
        if same_text(name, "chukotka") {
            return Some(ReindeerBreed::Chukotka);
        }
        if same_text(name, "even") {
            return Some(ReindeerBreed::Even);
        }
        if same_text(name, "evenk") {
            return Some(ReindeerBreed::Evenk);
        }
        if same_text(name, "nentsi") {
            return Some(ReindeerBreed::Nentsi);
        }
        None
    }

    /// Reads a breed from text. Case is ignored.
    ///
    /// Returns the breed that `s` names. Where `s` names none, the error
    /// carries `s` as it was given.
    pub fn from_str(s: &str) -> (parsed: Result<ReindeerBreed, BreedNotFound>)
        ensures
            match parsed {
                Ok(breed) => Self::named_by(s@) == Some(breed),
                Err(e) => {
                    &&& Self::named_by(s@) is None
                    &&& e.species == Species::Reindeer
                    &&& e.name@ == s@
                },
            },
    {
        let lowered = s.to_lowercase();
        let found = Self::from_normalized(lowered.as_str());
        match found {
            Some(breed) => Ok(breed),
            None => Err(BreedNotFound { species: Species::Reindeer, name: s.to_string() }),
        }
    }

    /// No name is listed for two breeds: a name decides the breed.
    pub proof fn lemma_name_decides_breed(name: Seq<char>, a: ReindeerBreed, b: ReindeerBreed)
        requires
            a.has_name(name),
            b.has_name(name),
        ensures
            a == b,
    {
        reveal_strlit("chukotka");
        reveal_strlit("even");
        reveal_strlit("evenk");
        reveal_strlit("nentsi");
        // Two listed names differ in their length or in one of their characters.
        let spelling = (
            name.len(), name[0], name[1], name[2], name[3], name[4], name[5], name[6], name[7],
        );
    }

    /// A name that is listed for a breed is found, and gives that breed.
    pub proof fn lemma_listed_name_is_found(name: Seq<char>, breed: ReindeerBreed)
        requires
            breed.has_name(name),
        ensures
            Self::listed_as(name) == Some(breed),
    {
        Self::lemma_name_decides_breed(name, breed, choose|other: ReindeerBreed| other.has_name(name));
    }

    /// Every breed is listed under a name, so that a lookup can give it.
    pub proof fn lemma_every_breed_is_listed(breed: ReindeerBreed)
        ensures
            exists|name: Seq<char>| Self::listed_as(name) == Some(breed),
    {
        let name = match breed {
            ReindeerBreed::Chukotka => "chukotka"@,
            ReindeerBreed::Even => "even"@,
            ReindeerBreed::Evenk => "evenk"@,
            ReindeerBreed::Nentsi => "nentsi"@,
        };
        Self::lemma_listed_name_is_found(name, breed);
    }

    /// A text whose normal form is listed for a breed names that breed.
    pub proof fn lemma_listed_text_names_breed(text: Seq<char>, breed: ReindeerBreed)
        requires
            breed.has_name(Self::normal_form(text)),
        ensures
            Self::named_by(text) == Some(breed),
    {
        Self::lemma_listed_name_is_found(Self::normal_form(text), breed);
    }

    /// Two texts that are alike in lower case name the same breed, or both
    /// name none.
    pub proof fn lemma_case_is_ignored(s: Seq<char>, t: Seq<char>)
        requires
            lowercase_of(s) == lowercase_of(t),
        ensures
            Self::named_by(s) == Self::named_by(t),
    {
    }

    /// The shown name depends on the breed alone: asking twice gives the
    /// same text.
    pub proof fn lemma_shown_name_is_fixed(a: ReindeerBreed, b: ReindeerBreed)
        requires
            a == b,
        ensures
            a.canonical_name() == b.canonical_name(),
    {
    }
}

} // verus!
