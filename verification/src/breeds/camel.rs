//! Breeds of camels: the name under which each is shown, and the names by
//! which a breed is recognised in text.

use vstd::prelude::*;

use inflector::cases::titlecase::to_title_case;

use crate::error::{BreedNotFound, Species};
use crate::text::{lowercase_of, same_text, title_case_of};

verus! {

/// A breed of camel.
#[derive(Debug, Clone, Copy, PartialEq, Eq, Structural)]
pub enum CamelBreed {
    AfarDromedary,
    AlxaBactrian,
    ArvanaDromedary,
    KalmykBactrian,
    SomaliDromedary,
}

impl CamelBreed {
    /// The breed's identifier: the words of its name run together, each
    /// starting with a capital letter.
    pub open spec fn spec_identifier(self) -> Seq<char> {
        match self {
            CamelBreed::AfarDromedary => "AfarDromedary"@,
            CamelBreed::AlxaBactrian => "AlxaBactrian"@,
            CamelBreed::ArvanaDromedary => "ArvanaDromedary"@,
            CamelBreed::KalmykBactrian => "KalmykBactrian"@,
            CamelBreed::SomaliDromedary => "SomaliDromedary"@,
        }
    }

    /// The name under which the breed is shown.
    ///
    /// It is the title-case form of the identifier.
    pub open spec fn canonical_name(self) -> Seq<char> {
        title_case_of(self.spec_identifier())
    }

    /// The form in which a text is compared with the listed names: lower
    /// case.
    pub open spec fn normal_form(text: Seq<char>) -> Seq<char> {
        lowercase_of(text)
    }

    /// Whether `name` is one of the names listed for the breed. The listed
    /// names are written in lower case.
    pub open spec fn has_name(self, name: Seq<char>) -> bool {
        match self {
            CamelBreed::AfarDromedary => {
                ||| name == "afar dromedary"@
                ||| name == "afar"@
            },
            CamelBreed::AlxaBactrian => {
                ||| name == "alxa bactrian"@
                ||| name == "alxa"@
            },
            CamelBreed::ArvanaDromedary => {
                ||| name == "arvana dromedary"@
                ||| name == "arvana"@
            },
            CamelBreed::KalmykBactrian => {
                ||| name == "kalmyk bactrian"@
                ||| name == "kalmyk"@
            },
            CamelBreed::SomaliDromedary => {
                ||| name == "somali dromedary"@
                ||| name == "somali"@
            },
        }
    }

    /// The breed for which `name` is listed, if it is listed at all.
    pub open spec fn listed_as(name: Seq<char>) -> Option<CamelBreed> {
        if exists|breed: CamelBreed| breed.has_name(name) {
            Some(choose|breed: CamelBreed| breed.has_name(name))
        } else {
            None
        }
    }

    /// The breed that `text` names: the one for which the normal form of
    /// `text` is listed.
    pub open spec fn named_by(text: Seq<char>) -> Option<CamelBreed> {
        Self::listed_as(Self::normal_form(text))
    }

    /// The breed's identifier.
    pub fn identifier(&self) -> (word: &'static str)
        ensures
            word@ == self.spec_identifier(),
    {
        match self {
            CamelBreed::AfarDromedary => "AfarDromedary",
            CamelBreed::AlxaBactrian => "AlxaBactrian",
            CamelBreed::ArvanaDromedary => "ArvanaDromedary",
            CamelBreed::KalmykBactrian => "KalmykBactrian",
            CamelBreed::SomaliDromedary => "SomaliDromedary",
        }
    }

    /// The name under which the breed is shown.
    pub fn to_string(&self) -> (shown: String)
        ensures
            shown@ == self.canonical_name(),
    {
        to_title_case(self.identifier())
    }

    /// Looks `name` up among the listed names. The comparison is exact, so
    /// `name` is expected in normal form.
    pub fn from_normalized(name: &str) -> (found: Option<CamelBreed>)
        ensures
            found == Self::listed_as(name@),
    {
        let found = Self::search(name);
        proof {
            if let Some(breed) = found {
                Self::lemma_listed_name_is_found(name@, breed);
            }
        }
        found
    }

    /// Goes through the listed names in order and stops at the first that
    /// equals `name`.
    fn search(name: &str) -> (found: Option<CamelBreed>)
        ensures
            match found {
                Some(breed) => breed.has_name(name@),
                None => forall|breed: CamelBreed| !breed.has_name(name@),
            },
    {
        if same_text(name, "afar dromedary") || same_text(name, "afar") {
            return Some(CamelBreed::AfarDromedary);
        }
        if same_text(name, "alxa bactrian") || same_text(name, "alxa") {
            return Some(CamelBreed::AlxaBactrian);
        }
        if same_text(name, "arvana dromedary") || same_text(name, "arvana") {
            return Some(CamelBreed::ArvanaDromedary);
        }
        if same_text(name, "kalmyk bactrian") || same_text(name, "kalmyk") {
            return Some(CamelBreed::KalmykBactrian);
        }
        if same_text(name, "somali dromedary") || same_text(name, "somali") {
            return Some(CamelBreed::SomaliDromedary);
        }
        None
    }

    /// Reads a breed from text. Case is ignored.
    ///
    /// Returns the breed that `s` names. Where `s` names none, the error
    /// carries `s` as it was given.
    pub fn from_str(s: &str) -> (parsed: Result<CamelBreed, BreedNotFound>)
        ensures
            match parsed {
                Ok(breed) => Self::named_by(s@) == Some(breed),
                Err(e) => {
                    &&& Self::named_by(s@) is None
                    &&& e.species == Species::Camel
                    &&& e.name@ == s@
                },
            },
    {
        let lowered = s.to_lowercase();
        let found = Self::from_normalized(lowered.as_str());
        match found {
            Some(breed) => Ok(breed),
            None => Err(BreedNotFound { species: Species::Camel, name: s.to_string() }),
        }
    }

    /// No name is listed for two breeds: a name decides the breed.
    pub proof fn lemma_name_decides_breed(name: Seq<char>, a: CamelBreed, b: CamelBreed)
        requires
            a.has_name(name),
            b.has_name(name),
        ensures
            a == b,
    {
        reveal_strlit("afar dromedary");
        reveal_strlit("afar");
        reveal_strlit("alxa bactrian");
        reveal_strlit("alxa");
        reveal_strlit("arvana dromedary");
        reveal_strlit("arvana");
        reveal_strlit("kalmyk bactrian");
        reveal_strlit("kalmyk");
        reveal_strlit("somali dromedary");
        reveal_strlit("somali");
        // Two listed names differ in their length or in one of their characters.
        let spelling = (
            name.len(), name[0], name[1], name[2], name[3], name[4], name[5], name[6], name[7],
            name[8], name[9], name[10], name[11], name[12], name[13], name[14], name[15],
        );
    }

    /// A name that is listed for a breed is found, and gives that breed.
    pub proof fn lemma_listed_name_is_found(name: Seq<char>, breed: CamelBreed)
        requires
            breed.has_name(name),
        ensures
            Self::listed_as(name) == Some(breed),
    {
        Self::lemma_name_decides_breed(name, breed, choose|other: CamelBreed| other.has_name(name));
    }

    /// Every breed is listed under a name, so that a lookup can give it.
    pub proof fn lemma_every_breed_is_listed(breed: CamelBreed)
        ensures
            exists|name: Seq<char>| Self::listed_as(name) == Some(breed),
    {
        let name = match breed {
            CamelBreed::AfarDromedary => "afar dromedary"@,
            CamelBreed::AlxaBactrian => "alxa bactrian"@,
            CamelBreed::ArvanaDromedary => "arvana dromedary"@,
            CamelBreed::KalmykBactrian => "kalmyk bactrian"@,
            CamelBreed::SomaliDromedary => "somali dromedary"@,
        };
        Self::lemma_listed_name_is_found(name, breed);
    }

    /// A text whose normal form is listed for a breed names that breed.
    pub proof fn lemma_listed_text_names_breed(text: Seq<char>, breed: CamelBreed)
        requires
            breed.has_name(Self::normal_form(text)),
        ensures
            Self::named_by(text) == Some(breed),
    {
        Self::lemma_listed_name_is_found(Self::normal_form(text), breed);
    }

    /// Two texts that are alike in lower case name the same breed, or both
    /// name none.
    pub proof fn lemma_case_is_ignored(s: Seq<char>, t: Seq<char>)
        requires
            lowercase_of(s) == lowercase_of(t),
        ensures
            Self::named_by(s) == Self::named_by(t),
    {
    }

    /// The shown name depends on the breed alone: asking twice gives the
    /// same text.
    pub proof fn lemma_shown_name_is_fixed(a: CamelBreed, b: CamelBreed)
        requires
            a == b,
        ensures
            a.canonical_name() == b.canonical_name(),
    {
    }
}

} // verus!
