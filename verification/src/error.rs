//! The failures that the library reports to its callers.

use vstd::prelude::*;

verus! {

/// The kinds of animal for which a breed table exists.
#[derive(Debug, Clone, Copy, PartialEq, Eq, Structural)]
pub enum Species {
    Camel,
    Cattle,
    Chicken,
    Donkey,
    Goat,
    Reindeer,
    Sheep,
    Swine,
}

impl Species {
    /// The word by which messages refer to the species.
    pub open spec fn spec_label(self) -> Seq<char> {
        match self {
            Species::Camel => "camel"@,
            Species::Cattle => "cattle"@,
            Species::Chicken => "chicken"@,
            Species::Donkey => "donkey"@,
            Species::Goat => "goat"@,
            Species::Reindeer => "reindeer"@,
            Species::Sheep => "sheep"@,
            Species::Swine => "swine"@,
        }
    }

    /// The word by which messages refer to the species.
    pub fn label(&self) -> (word: &'static str)
        ensures
            word@ == self.spec_label(),
    {
        match self {
            Species::Camel => "camel",
            Species::Cattle => "cattle",
            Species::Chicken => "chicken",
            Species::Donkey => "donkey",
            Species::Goat => "goat",
            Species::Reindeer => "reindeer",
            Species::Sheep => "sheep",
            Species::Swine => "swine",
        }
    }
}

/// A text that names no breed of the species it was looked up in.
#[derive(Debug, PartialEq, Eq)]
pub struct BreedNotFound {
    /// The species whose table was searched.
    pub species: Species,
    /// The text as the caller gave it.
    pub name: String,
}

impl BreedNotFound {
    /// The text of [`BreedNotFound::message`].
    pub open spec fn spec_message(self) -> Seq<char> {
        "could not find a "@ + self.species.spec_label() + " breed named "@ + self.name@
    }

    /// A sentence for the user: which species was searched, and for what.
    pub fn message(&self) -> (sentence: String)
        ensures
            sentence@ == self.spec_message(),
    {
        let sentence = String::from_str("could not find a ");
        let sentence = sentence.concat(self.species.label());
        let sentence = sentence.concat(" breed named ");
        sentence.concat(self.name.as_str())
    }
}

/// A figure that a calculator cannot work with.
#[derive(Debug, Clone, Copy, PartialEq, Eq, Structural)]
pub enum InvalidInput {
    /// The measurement period has no days.
    ZeroDays,
    /// The final weight does not exceed the initial weight.
    FinalWeightNotAboveInitial,
    /// One of the two weights is not above zero.
    WeightNotPositive,
    /// The feed intake is not above zero.
    FeedIntakeNotPositive,
    /// The weight gain is not above zero.
    WeightGainNotPositive,
    /// The feed conversion ratio is not above zero.
    FcrNotPositive,
    /// Neither the ratio alone nor feed intake and weight gain alone were
    /// given.
    FcrSourceUnclear,
}

impl InvalidInput {
    /// The text of [`InvalidInput::message`].
    pub open spec fn spec_message(self) -> Seq<char> {
        match self {
            InvalidInput::ZeroDays => "Number of days cannot be zero."@,
            InvalidInput::FinalWeightNotAboveInitial => {
                "Final weight must be greater than initial weight."@
            },
            InvalidInput::WeightNotPositive => "Weights must be greater than zero."@,
            InvalidInput::FeedIntakeNotPositive => "Feed intake must be greater than 0."@,
            InvalidInput::WeightGainNotPositive => "Weight gain must be greater than 0."@,
            InvalidInput::FcrNotPositive => {
                "Feed Conversion Ratio (FCR) must be greater than 0."@
            },
            InvalidInput::FcrSourceUnclear => {
                "Either feed intake and weight gain or FCR must be provided."@
            },
        }
    }

    /// A sentence for the user that says what is wrong with the figure.
    pub fn message(&self) -> (sentence: &'static str)
        ensures
            sentence@ == self.spec_message(),
    {
        match self {
            InvalidInput::ZeroDays => "Number of days cannot be zero.",
            InvalidInput::FinalWeightNotAboveInitial => {
                "Final weight must be greater than initial weight."
            },
            InvalidInput::WeightNotPositive => "Weights must be greater than zero.",
            InvalidInput::FeedIntakeNotPositive => "Feed intake must be greater than 0.",
            InvalidInput::WeightGainNotPositive => "Weight gain must be greater than 0.",
            InvalidInput::FcrNotPositive => "Feed Conversion Ratio (FCR) must be greater than 0.",
            InvalidInput::FcrSourceUnclear => {
                "Either feed intake and weight gain or FCR must be provided."
            },
        }
    }
}

} // verus!
