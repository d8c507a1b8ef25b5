//! Breeds of swine: the name under which each is shown, and the names by
//! which a breed is recognised in text.

use vstd::prelude::*;

use inflector::cases::titlecase::to_title_case;

use crate::error::{BreedNotFound, Species};
use crate::text::{lowercase_of, same_text, title_case_of};

verus! {

/// A breed of swine.
#[derive(Debug, Clone, Copy, PartialEq, Eq, Structural)]
pub enum SwineBreed {
    AmericanLandrace,
    AmericanYorkshire,
    AngelnSaddleback,
    ArapawaIsland,
    BaXuyen,
    Bantu,
    BeijingBlack,
    BelarusBlackPied,
    BelgianLandrace,
    Berkshire,
    BritishLandrace,
    BritishLop,
    BulgarianWhite,
    Cantonese,
    ChesterWhite,
    ChoctawHog,
    CzechImprovedWhite,
    DanishLandrace,
    Duroc,
    DutchLandrace,
    Fengjing,
    FinnishLandrace,
    FrenchLandrace,
    GermanLandrace,
    GloucestershireOldSpot,
    GuineaHog,
    Hampshire,
    Hereford,
    Hezuo,
    Iberian,
    ItalianLandrace,
    Jinhua,
    Kele,
    Krskopolje,
    Kunekune,
    Lacombe,
    LargeBlack,
    LargeBlackWhite,
    LargeWhite,
    Lithuanian,
    Mangalitza,
    Meishan,
    MiddleWhite,
    MongCai,
    Minzhu,
    MoraRomagnola,
    Mukota,
    Mulefoot,
    Neijiang,
    Ningxiang,
    NorwegianLandrace,
    OssabawIsland,
    OxfordSandyAndBlack,
    PhilippineNative,
    Pietrain,
    PolandChina,
    RedWattle,
    Saddleback,
    Spotted,
    SwedishLandrace,
    Tamworth,
    ThuocNhieu,
    Tibetan,
    Thuropolje,
    VietnamesePotbelly,
    Welsh,
    Wuzhishan,
    Yorkshire,
}

impl SwineBreed {
    /// The breed's identifier: the words of its name run together, each
    /// starting with a capital letter.
    pub open spec fn spec_identifier(self) -> Seq<char> {
        match self {
            SwineBreed::AmericanLandrace => "AmericanLandrace"@,
            SwineBreed::AmericanYorkshire => "AmericanYorkshire"@,
            SwineBreed::AngelnSaddleback => "AngelnSaddleback"@,
            SwineBreed::ArapawaIsland => "ArapawaIsland"@,
            SwineBreed::BaXuyen => "BaXuyen"@,
            SwineBreed::Bantu => "Bantu"@,
            SwineBreed::BeijingBlack => "BeijingBlack"@,
            SwineBreed::BelarusBlackPied => "BelarusBlackPied"@,
            SwineBreed::BelgianLandrace => "BelgianLandrace"@,
            SwineBreed::Berkshire => "Berkshire"@,
            SwineBreed::BritishLandrace => "BritishLandrace"@,
            SwineBreed::BritishLop => "BritishLop"@,
            SwineBreed::BulgarianWhite => "BulgarianWhite"@,
            SwineBreed::Cantonese => "Cantonese"@,
            SwineBreed::ChesterWhite => "ChesterWhite"@,
            SwineBreed::ChoctawHog => "ChoctawHog"@,
            SwineBreed::CzechImprovedWhite => "CzechImprovedWhite"@,
            SwineBreed::DanishLandrace => "DanishLandrace"@,
            SwineBreed::Duroc => "Duroc"@,
            SwineBreed::DutchLandrace => "DutchLandrace"@,
            SwineBreed::Fengjing => "Fengjing"@,
            SwineBreed::FinnishLandrace => "FinnishLandrace"@,
            SwineBreed::FrenchLandrace => "FrenchLandrace"@,
            SwineBreed::GermanLandrace => "GermanLandrace"@,
            SwineBreed::GloucestershireOldSpot => "GloucestershireOldSpot"@,
            SwineBreed::GuineaHog => "GuineaHog"@,
            SwineBreed::Hampshire => "Hampshire"@,
            SwineBreed::Hereford => "Hereford"@,
            SwineBreed::Hezuo => "Hezuo"@,
            SwineBreed::Iberian => "Iberian"@,
            SwineBreed::ItalianLandrace => "ItalianLandrace"@,
            SwineBreed::Jinhua => "Jinhua"@,
            SwineBreed::Kele => "Kele"@,
            SwineBreed::Krskopolje => "Krskopolje"@,
            SwineBreed::Kunekune => "Kunekune"@,
            SwineBreed::Lacombe => "Lacombe"@,
            SwineBreed::LargeBlack => "LargeBlack"@,
            SwineBreed::LargeBlackWhite => "LargeBlackWhite"@,
            SwineBreed::LargeWhite => "LargeWhite"@,
            SwineBreed::Lithuanian => "Lithuanian"@,
            SwineBreed::Mangalitza => "Mangalitza"@,
            SwineBreed::Meishan => "Meishan"@,
            SwineBreed::MiddleWhite => "MiddleWhite"@,
            SwineBreed::MongCai => "MongCai"@,
            SwineBreed::Minzhu => "Minzhu"@,
            SwineBreed::MoraRomagnola => "MoraRomagnola"@,
            SwineBreed::Mukota => "Mukota"@,
            SwineBreed::Mulefoot => "Mulefoot"@,
            SwineBreed::Neijiang => "Neijiang"@,
            SwineBreed::Ningxiang => "Ningxiang"@,
            SwineBreed::NorwegianLandrace => "NorwegianLandrace"@,
            SwineBreed::OssabawIsland => "OssabawIsland"@,
            SwineBreed::OxfordSandyAndBlack => "OxfordSandyAndBlack"@,
            SwineBreed::PhilippineNative => "PhilippineNative"@,
            SwineBreed::Pietrain => "Pietrain"@,
            SwineBreed::PolandChina => "PolandChina"@,
            SwineBreed::RedWattle => "RedWattle"@,
            SwineBreed::Saddleback => "Saddleback"@,
            SwineBreed::Spotted => "Spotted"@,
            SwineBreed::SwedishLandrace => "SwedishLandrace"@,
            SwineBreed::Tamworth => "Tamworth"@,
            SwineBreed::ThuocNhieu => "ThuocNhieu"@,
            SwineBreed::Tibetan => "Tibetan"@,
            SwineBreed::Thuropolje => "Thuropolje"@,
            SwineBreed::VietnamesePotbelly => "VietnamesePotbelly"@,
            SwineBreed::Welsh => "Welsh"@,
            SwineBreed::Wuzhishan => "Wuzhishan"@,
            SwineBreed::Yorkshire => "Yorkshire"@,
        }
    }

    /// The name under which the breed is shown.
    ///
    /// Names that carry marks or punctuation which an identifier cannot hold
    /// are given outright. Every other name is the title-case form of the
    /// identifier.
    pub open spec fn canonical_name(self) -> Seq<char> {
        match self {
            SwineBreed::LargeBlackWhite => "Large Black-White"@,
            _ => title_case_of(self.spec_identifier()),
        }
    }

    /// The form in which a text is compared with the listed names: lower
    /// case.
    pub open spec fn normal_form(text: Seq<char>) -> Seq<char> {
        lowercase_of(text)
    }

    /// Whether `name` is one of the names listed for the breed. The listed
    /// names are written in lower case.
    pub open spec fn has_name(self, name: Seq<char>) -> bool {
        match self {
            SwineBreed::AmericanLandrace => name == "american landrace"@,
            SwineBreed::AmericanYorkshire => name == "american yorkshire"@,
            SwineBreed::AngelnSaddleback => name == "angeln saddleback"@,
            SwineBreed::ArapawaIsland => {
                ||| name == "arapawa island"@
                ||| name == "arapawa"@
            },
            SwineBreed::BaXuyen => name == "ba xuyen"@,
            SwineBreed::Bantu => name == "bantu"@,
            SwineBreed::BeijingBlack => name == "beijing black"@,
            SwineBreed::BelarusBlackPied => name == "belarus black pied"@,
            SwineBreed::BelgianLandrace => name == "belgian landrace"@,
            SwineBreed::Berkshire => name == "berkshire"@,
            SwineBreed::BritishLandrace => name == "british landrace"@,
            SwineBreed::BritishLop => name == "british lop"@,
            SwineBreed::BulgarianWhite => name == "bulgarian white"@,
            SwineBreed::Cantonese => name == "cantonese"@,
            SwineBreed::ChesterWhite => name == "chester white"@,
            SwineBreed::ChoctawHog => name == "choctaw hog"@,
            SwineBreed::CzechImprovedWhite => name == "czech improved white"@,
            SwineBreed::DanishLandrace => name == "danish landrace"@,
            SwineBreed::Duroc => name == "duroc"@,
            SwineBreed::DutchLandrace => name == "dutch landrace"@,
            SwineBreed::Fengjing => name == "fengjing"@,
            SwineBreed::FinnishLandrace => name == "finnish landrace"@,
            SwineBreed::FrenchLandrace => name == "french landrace"@,
            SwineBreed::GermanLandrace => name == "german landrace"@,
            SwineBreed::GloucestershireOldSpot => name == "gloucestershire old spot"@,
            SwineBreed::GuineaHog => name == "guinea hog"@,
            SwineBreed::Hampshire => name == "hampshire"@,
            SwineBreed::Hereford => name == "hereford"@,
            SwineBreed::Hezuo => name == "hezuo"@,
            SwineBreed::Iberian => name == "iberian"@,
            SwineBreed::ItalianLandrace => name == "italian landrace"@,
            SwineBreed::Jinhua => name == "jinhua"@,
            SwineBreed::Kele => name == "kele"@,
            SwineBreed::Krskopolje => name == "krskopolje"@,
            SwineBreed::Kunekune => name == "kunekune"@,
            SwineBreed::Lacombe => name == "lacombe"@,
            SwineBreed::LargeBlack => name == "large black"@,
            SwineBreed::LargeBlackWhite => {
                ||| name == "large black-white"@
                ||| name == "large black white"@
            },
            SwineBreed::LargeWhite => name == "large white"@,
            SwineBreed::Lithuanian => name == "lithuanian"@,
            SwineBreed::Mangalitza => name == "mangalitza"@,
            SwineBreed::Meishan => name == "meishan"@,
            SwineBreed::MiddleWhite => name == "middle white"@,
            SwineBreed::MongCai => name == "mong cai"@,
            SwineBreed::Minzhu => name == "minzhu"@,
            SwineBreed::MoraRomagnola => name == "mora romagnola"@,
            SwineBreed::Mukota => name == "mukota"@,
            SwineBreed::Mulefoot => name == "mulefoot"@,
            SwineBreed::Neijiang => name == "neijiang"@,
            SwineBreed::Ningxiang => name == "ningxiang"@,
            SwineBreed::NorwegianLandrace => name == "norwegian landrace"@,
            SwineBreed::OssabawIsland => name == "ossabaw island"@,
            SwineBreed::OxfordSandyAndBlack => {
                ||| name == "oxford sandy and black"@
                ||| name == "oxford sandy & black"@
            },
            SwineBreed::PhilippineNative => name == "philippine native"@,
            SwineBreed::Pietrain => name == "pietrain"@,
            SwineBreed::PolandChina => name == "poland china"@,
            SwineBreed::RedWattle => name == "red wattle"@,
            SwineBreed::Saddleback => name == "saddleback"@,
            SwineBreed::Spotted => name == "spotted"@,
            SwineBreed::SwedishLandrace => name == "swedish landrace"@,
            SwineBreed::Tamworth => name == "tamworth"@,
            SwineBreed::ThuocNhieu => name == "thuoc nhieu"@,
            SwineBreed::Tibetan => name == "tibetan"@,
            SwineBreed::Thuropolje => name == "thuropolje"@,
            SwineBreed::VietnamesePotbelly => {
                ||| name == "vietnamese potbelly"@
                ||| name == "potbelly"@
                ||| name == "potbellied"@
                ||| name == "vietnamese potbellied"@
            },
            SwineBreed::Welsh => name == "welsh"@,
            SwineBreed::Wuzhishan => name == "wuzhishan"@,
            SwineBreed::Yorkshire => name == "yorkshire"@,
        }
    }

    /// The breed for which `name` is listed, if it is listed at all.
    pub open spec fn listed_as(name: Seq<char>) -> Option<SwineBreed> {
        if exists|breed: SwineBreed| breed.has_name(name) {
            Some(choose|breed: SwineBreed| breed.has_name(name))
        } else {
            None
        }
    }

    /// The breed that `text` names: the one for which the normal form of
    /// `text` is listed.
    pub open spec fn named_by(text: Seq<char>) -> Option<SwineBreed> {
        Self::listed_as(Self::normal_form(text))
    }

    /// The breed's identifier.
    pub fn identifier(&self) -> (word: &'static str)
        ensures
            word@ == self.spec_identifier(),
    {
        match self {
            SwineBreed::AmericanLandrace => "AmericanLandrace",
            SwineBreed::AmericanYorkshire => "AmericanYorkshire",
            SwineBreed::AngelnSaddleback => "AngelnSaddleback",
            SwineBreed::ArapawaIsland => "ArapawaIsland",
            SwineBreed::BaXuyen => "BaXuyen",
            SwineBreed::Bantu => "Bantu",
            SwineBreed::BeijingBlack => "BeijingBlack",
            SwineBreed::BelarusBlackPied => "BelarusBlackPied",
            SwineBreed::BelgianLandrace => "BelgianLandrace",
            SwineBreed::Berkshire => "Berkshire",
            SwineBreed::BritishLandrace => "BritishLandrace",
            SwineBreed::BritishLop => "BritishLop",
            SwineBreed::BulgarianWhite => "BulgarianWhite",
            SwineBreed::Cantonese => "Cantonese",
            SwineBreed::ChesterWhite => "ChesterWhite",
            SwineBreed::ChoctawHog => "ChoctawHog",
            SwineBreed::CzechImprovedWhite => "CzechImprovedWhite",
            SwineBreed::DanishLandrace => "DanishLandrace",
            SwineBreed::Duroc => "Duroc",
            SwineBreed::DutchLandrace => "DutchLandrace",
            SwineBreed::Fengjing => "Fengjing",
            SwineBreed::FinnishLandrace => "FinnishLandrace",
            SwineBreed::FrenchLandrace => "FrenchLandrace",
            SwineBreed::GermanLandrace => "GermanLandrace",
            SwineBreed::GloucestershireOldSpot => "GloucestershireOldSpot",
            SwineBreed::GuineaHog => "GuineaHog",
            SwineBreed::Hampshire => "Hampshire",
            SwineBreed::Hereford => "Hereford",
            SwineBreed::Hezuo => "Hezuo",
            SwineBreed::Iberian => "Iberian",
            SwineBreed::ItalianLandrace => "ItalianLandrace",
            SwineBreed::Jinhua => "Jinhua",
            SwineBreed::Kele => "Kele",
            SwineBreed::Krskopolje => "Krskopolje",
            SwineBreed::Kunekune => "Kunekune",
            SwineBreed::Lacombe => "Lacombe",
            SwineBreed::LargeBlack => "LargeBlack",
            SwineBreed::LargeBlackWhite => "LargeBlackWhite",
            SwineBreed::LargeWhite => "LargeWhite",
            SwineBreed::Lithuanian => "Lithuanian",
            SwineBreed::Mangalitza => "Mangalitza",
            SwineBreed::Meishan => "Meishan",
            SwineBreed::MiddleWhite => "MiddleWhite",
            SwineBreed::MongCai => "MongCai",
            SwineBreed::Minzhu => "Minzhu",
            SwineBreed::MoraRomagnola => "MoraRomagnola",
            SwineBreed::Mukota => "Mukota",
            SwineBreed::Mulefoot => "Mulefoot",
            SwineBreed::Neijiang => "Neijiang",
            SwineBreed::Ningxiang => "Ningxiang",
            SwineBreed::NorwegianLandrace => "NorwegianLandrace",
            SwineBreed::OssabawIsland => "OssabawIsland",
            SwineBreed::OxfordSandyAndBlack => "OxfordSandyAndBlack",
            SwineBreed::PhilippineNative => "PhilippineNative",
            SwineBreed::Pietrain => "Pietrain",
            SwineBreed::PolandChina => "PolandChina",
            SwineBreed::RedWattle => "RedWattle",
            SwineBreed::Saddleback => "Saddleback",
            SwineBreed::Spotted => "Spotted",
            SwineBreed::SwedishLandrace => "SwedishLandrace",
            SwineBreed::Tamworth => "Tamworth",
            SwineBreed::ThuocNhieu => "ThuocNhieu",
            SwineBreed::Tibetan => "Tibetan",
            SwineBreed::Thuropolje => "Thuropolje",
            SwineBreed::VietnamesePotbelly => "VietnamesePotbelly",
            SwineBreed::Welsh => "Welsh",
            SwineBreed::Wuzhishan => "Wuzhishan",
            SwineBreed::Yorkshire => "Yorkshire",
        }
    }

    /// The name under which the breed is shown.
    pub fn to_string(&self) -> (shown: String)
        ensures
            shown@ == self.canonical_name(),
    {
        match self {
            SwineBreed::LargeBlackWhite => "Large Black-White".to_string(),
            _ => to_title_case(self.identifier()),
        }
    }

    /// Looks `name` up among the listed names. The comparison is exact, so
    /// `name` is expected in normal form.
    pub fn from_normalized(name: &str) -> (found: Option<SwineBreed>)
        ensures
            found == Self::listed_as(name@),
    {
        let found = Self::search(name);
        proof {
            if let Some(breed) = found {
                Self::lemma_listed_name_is_found(name@, breed);
            }
        }
        found
    }

    /// Goes through the listed names in order and stops at the first that
    /// equals `name`.
    fn search(name: &str) -> (found: Option<SwineBreed>)
        ensures
            match found {
                Some(breed) => breed.has_name(name@),
                None => forall|breed: SwineBreed| !breed.has_name(name@),
            },
    {
        if same_text(name, "american landrace") {
            return Some(SwineBreed::AmericanLandrace);
        }
        if same_text(name, "american yorkshire") {
            return Some(SwineBreed::AmericanYorkshire);
        }
        if same_text(name, "angeln saddleback") {
            return Some(SwineBreed::AngelnSaddleback);
        }
        if same_text(name, "arapawa island") || same_text(name, "arapawa") {
            return Some(SwineBreed::ArapawaIsland);
        }
        if same_text(name, "ba xuyen") {
            return Some(SwineBreed::BaXuyen);
        }
        if same_text(name, "bantu") {
            return Some(SwineBreed::Bantu);
        }
        if same_text(name, "beijing black") {
            return Some(SwineBreed::BeijingBlack);
        }
        if same_text(name, "belarus black pied") {
            return Some(SwineBreed::BelarusBlackPied);
        }
        if same_text(name, "belgian landrace") {
            return Some(SwineBreed::BelgianLandrace);
        }
        if same_text(name, "berkshire") {
            return Some(SwineBreed::Berkshire);
        }
        if same_text(name, "british landrace") {
            return Some(SwineBreed::BritishLandrace);
        }
        if same_text(name, "british lop") {
            return Some(SwineBreed::BritishLop);
        }
        if same_text(name, "bulgarian white") {
            return Some(SwineBreed::BulgarianWhite);
        }
        if same_text(name, "cantonese") {
            return Some(SwineBreed::Cantonese);
        }
        if same_text(name, "chester white") {
            return Some(SwineBreed::ChesterWhite);
        }
        if same_text(name, "choctaw hog") {
            return Some(SwineBreed::ChoctawHog);
        }
        if same_text(name, "czech improved white") {
            return Some(SwineBreed::CzechImprovedWhite);
        }
        if same_text(name, "danish landrace") {
            return Some(SwineBreed::DanishLandrace);
        }
        if same_text(name, "duroc") {
            return Some(SwineBreed::Duroc);
        }
        if same_text(name, "dutch landrace") {
            return Some(SwineBreed::DutchLandrace);
        }
        if same_text(name, "fengjing") {
            return Some(SwineBreed::Fengjing);
        }
        if same_text(name, "finnish landrace") {
            return Some(SwineBreed::FinnishLandrace);
        }
        if same_text(name, "french landrace") {
            return Some(SwineBreed::FrenchLandrace);
        }
        if same_text(name, "german landrace") {
            return Some(SwineBreed::GermanLandrace);
        }
        if same_text(name, "gloucestershire old spot") {
            return Some(SwineBreed::GloucestershireOldSpot);
        }
        if same_text(name, "guinea hog") {
            return Some(SwineBreed::GuineaHog);
        }
        if same_text(name, "hampshire") {
            return Some(SwineBreed::Hampshire);
        }
        if same_text(name, "hereford") {
            return Some(SwineBreed::Hereford);
        }
        if same_text(name, "hezuo") {
            return Some(SwineBreed::Hezuo);
        }
        if same_text(name, "iberian") {
            return Some(SwineBreed::Iberian);
        }
        if same_text(name, "italian landrace") {
            return Some(SwineBreed::ItalianLandrace);
        }
        if same_text(name, "jinhua") {
            return Some(SwineBreed::Jinhua);
        }
        if same_text(name, "kele") {
            return Some(SwineBreed::Kele);
        }
        if same_text(name, "krskopolje") {
            return Some(SwineBreed::Krskopolje);
        }
        if same_text(name, "kunekune") {
            return Some(SwineBreed::Kunekune);
        }
        if same_text(name, "lacombe") {
            return Some(SwineBreed::Lacombe);
        }
        if same_text(name, "large black") {
            return Some(SwineBreed::LargeBlack);
        }
        if same_text(name, "large black-white") || same_text(name, "large black white") {
            return Some(SwineBreed::LargeBlackWhite);
        }
        if same_text(name, "large white") {
            return Some(SwineBreed::LargeWhite);
        }
        if same_text(name, "lithuanian") {
            return Some(SwineBreed::Lithuanian);
        }
        if same_text(name, "mangalitza") {
            return Some(SwineBreed::Mangalitza);
        }
        if same_text(name, "meishan") {
            return Some(SwineBreed::Meishan);
        }
        if same_text(name, "middle white") {
            return Some(SwineBreed::MiddleWhite);
        }
        if same_text(name, "mong cai") {
            return Some(SwineBreed::MongCai);
        }
        if same_text(name, "minzhu") {
            return Some(SwineBreed::Minzhu);
        }
        if same_text(name, "mora romagnola") {
            return Some(SwineBreed::MoraRomagnola);
        }
        if same_text(name, "mukota") {
            return Some(SwineBreed::Mukota);
        }
        if same_text(name, "mulefoot") {
            return Some(SwineBreed::Mulefoot);
        }
        if same_text(name, "neijiang") {
            return Some(SwineBreed::Neijiang);
        }
        if same_text(name, "ningxiang") {
            return Some(SwineBreed::Ningxiang);
        }
        if same_text(name, "norwegian landrace") {
            return Some(SwineBreed::NorwegianLandrace);
        }
        if same_text(name, "ossabaw island") {
            return Some(SwineBreed::OssabawIsland);
        }
        if same_text(name, "oxford sandy and black") || same_text(name, "oxford sandy & black") {
            return Some(SwineBreed::OxfordSandyAndBlack);
        }
        if same_text(name, "philippine native") {
            return Some(SwineBreed::PhilippineNative);
        }
        if same_text(name, "pietrain") {
            return Some(SwineBreed::Pietrain);
        }
        if same_text(name, "poland china") {
            return Some(SwineBreed::PolandChina);
        }
        if same_text(name, "red wattle") {
            return Some(SwineBreed::RedWattle);
        }
        if same_text(name, "saddleback") {
            return Some(SwineBreed::Saddleback);
        }
        if same_text(name, "spotted") {
            return Some(SwineBreed::Spotted);
        }
        if same_text(name, "swedish landrace") {
            return Some(SwineBreed::SwedishLandrace);
        }
        if same_text(name, "tamworth") {
            return Some(SwineBreed::Tamworth);
        }
        if same_text(name, "thuoc nhieu") {
            return Some(SwineBreed::ThuocNhieu);
        }
        if same_text(name, "tibetan") {
            return Some(SwineBreed::Tibetan);
        }
        if same_text(name, "thuropolje") {
            return Some(SwineBreed::Thuropolje);
        }
        if same_text(name, "vietnamese potbelly")
            || same_text(name, "potbelly")
            || same_text(name, "potbellied")
            || same_text(name, "vietnamese potbellied")
        {
            return Some(SwineBreed::VietnamesePotbelly);
        }
        if same_text(name, "welsh") {
            return Some(SwineBreed::Welsh);
        }
        if same_text(name, "wuzhishan") {
            return Some(SwineBreed::Wuzhishan);
        }
        if same_text(name, "yorkshire") {
            return Some(SwineBreed::Yorkshire);
        }
        None
    }

    /// Reads a breed from text. Case is ignored.
    ///
    /// Returns the breed that `s` names. Where `s` names none, the error
    /// carries `s` as it was given.
    pub fn from_str(s: &str) -> (parsed: Result<SwineBreed, BreedNotFound>)
        ensures
            match parsed {
                Ok(breed) => Self::named_by(s@) == Some(breed),
                Err(e) => {
                    &&& Self::named_by(s@) is None
                    &&& e.species == Species::Swine
                    &&& e.name@ == s@
                },
            },
    {
        let lowered = s.to_lowercase();
        let found = Self::from_normalized(lowered.as_str());
        match found {
            Some(breed) => Ok(breed),
            None => Err(BreedNotFound { species: Species::Swine, name: s.to_string() }),
        }
    }

    /// No name is listed for two breeds: a name decides the breed.
    pub proof fn lemma_name_decides_breed(name: Seq<char>, a: SwineBreed, b: SwineBreed)
        requires
            a.has_name(name),
            b.has_name(name),
        ensures
            a == b,
    {
        reveal_strlit("american landrace");
        reveal_strlit("american yorkshire");
        reveal_strlit("angeln saddleback");
        reveal_strlit("arapawa island");
        reveal_strlit("arapawa");
        reveal_strlit("ba xuyen");
        reveal_strlit("bantu");
        reveal_strlit("beijing black");
        reveal_strlit("belarus black pied");
        reveal_strlit("belgian landrace");
        reveal_strlit("berkshire");
        reveal_strlit("british landrace");
        reveal_strlit("british lop");
        reveal_strlit("bulgarian white");
        reveal_strlit("cantonese");
        reveal_strlit("chester white");
        reveal_strlit("choctaw hog");
        reveal_strlit("czech improved white");
        reveal_strlit("danish landrace");
        reveal_strlit("duroc");
        reveal_strlit("dutch landrace");
        reveal_strlit("fengjing");
        reveal_strlit("finnish landrace");
        reveal_strlit("french landrace");
        reveal_strlit("german landrace");
        reveal_strlit("gloucestershire old spot");
        reveal_strlit("guinea hog");
        reveal_strlit("hampshire");
        reveal_strlit("hereford");
        reveal_strlit("hezuo");
        reveal_strlit("iberian");
        reveal_strlit("italian landrace");
        reveal_strlit("jinhua");
        reveal_strlit("kele");
        reveal_strlit("krskopolje");
        reveal_strlit("kunekune");
        reveal_strlit("lacombe");
        reveal_strlit("large black");
        reveal_strlit("large black-white");
        reveal_strlit("large black white");
        reveal_strlit("large white");
        reveal_strlit("lithuanian");
        reveal_strlit("mangalitza");
        reveal_strlit("meishan");
        reveal_strlit("middle white");
        reveal_strlit("mong cai");
        reveal_strlit("minzhu");
        reveal_strlit("mora romagnola");
        reveal_strlit("mukota");
        reveal_strlit("mulefoot");
        reveal_strlit("neijiang");
        reveal_strlit("ningxiang");
        reveal_strlit("norwegian landrace");
        reveal_strlit("ossabaw island");
        reveal_strlit("oxford sandy and black");
        reveal_strlit("oxford sandy & black");
        reveal_strlit("philippine native");
        reveal_strlit("pietrain");
        reveal_strlit("poland china");
        reveal_strlit("red wattle");
        reveal_strlit("saddleback");
        reveal_strlit("spotted");
        reveal_strlit("swedish landrace");
        reveal_strlit("tamworth");
        reveal_strlit("thuoc nhieu");
        reveal_strlit("tibetan");
        reveal_strlit("thuropolje");
        reveal_strlit("vietnamese potbelly");
        reveal_strlit("potbelly");
        reveal_strlit("potbellied");
        reveal_strlit("vietnamese potbellied");
        reveal_strlit("welsh");
        reveal_strlit("wuzhishan");
        reveal_strlit("yorkshire");
        // Two listed names differ in their length or in one of their characters.
        let spelling = (
            name.len(), name[0], name[1], name[2], name[3], name[4], name[5], name[6], name[7],
            name[8], name[9], name[10], name[11], name[12], name[13], name[14], name[15],
            name[16], name[17], name[18], name[19], name[20], name[21], name[22], name[23],
        );
    }

    /// A name that is listed for a breed is found, and gives that breed.
    pub proof fn lemma_listed_name_is_found(name: Seq<char>, breed: SwineBreed)
        requires
            breed.has_name(name),
        ensures
            Self::listed_as(name) == Some(breed),
    {
        Self::lemma_name_decides_breed(name, breed, choose|other: SwineBreed| other.has_name(name));
    }

    /// Every breed is listed under a name, so that a lookup can give it.
    pub proof fn lemma_every_breed_is_listed(breed: SwineBreed)
        ensures
            exists|name: Seq<char>| Self::listed_as(name) == Some(breed),
    {
        let name = match breed {
            SwineBreed::AmericanLandrace => "american landrace"@,
            SwineBreed::AmericanYorkshire => "american yorkshire"@,
            SwineBreed::AngelnSaddleback => "angeln saddleback"@,
            SwineBreed::ArapawaIsland => "arapawa island"@,
            SwineBreed::BaXuyen => "ba xuyen"@,
            SwineBreed::Bantu => "bantu"@,
            SwineBreed::BeijingBlack => "beijing black"@,
            SwineBreed::BelarusBlackPied => "belarus black pied"@,
            SwineBreed::BelgianLandrace => "belgian landrace"@,
            SwineBreed::Berkshire => "berkshire"@,
            SwineBreed::BritishLandrace => "british landrace"@,
            SwineBreed::BritishLop => "british lop"@,
            SwineBreed::BulgarianWhite => "bulgarian white"@,
            SwineBreed::Cantonese => "cantonese"@,
            SwineBreed::ChesterWhite => "chester white"@,
            SwineBreed::ChoctawHog => "choctaw hog"@,
            SwineBreed::CzechImprovedWhite => "czech improved white"@,
            SwineBreed::DanishLandrace => "danish landrace"@,
            SwineBreed::Duroc => "duroc"@,
            SwineBreed::DutchLandrace => "dutch landrace"@,
            SwineBreed::Fengjing => "fengjing"@,
            SwineBreed::FinnishLandrace => "finnish landrace"@,
            SwineBreed::FrenchLandrace => "french landrace"@,
            SwineBreed::GermanLandrace => "german landrace"@,
            SwineBreed::GloucestershireOldSpot => "gloucestershire old spot"@,
            SwineBreed::GuineaHog => "guinea hog"@,
            SwineBreed::Hampshire => "hampshire"@,
            SwineBreed::Hereford => "hereford"@,
            SwineBreed::Hezuo => "hezuo"@,
            SwineBreed::Iberian => "iberian"@,
            SwineBreed::ItalianLandrace => "italian landrace"@,
            SwineBreed::Jinhua => "jinhua"@,
            SwineBreed::Kele => "kele"@,
            SwineBreed::Krskopolje => "krskopolje"@,
            SwineBreed::Kunekune => "kunekune"@,
            SwineBreed::Lacombe => "lacombe"@,
            SwineBreed::LargeBlack => "large black"@,
            SwineBreed::LargeBlackWhite => "large black-white"@,
            SwineBreed::LargeWhite => "large white"@,
            SwineBreed::Lithuanian => "lithuanian"@,
            SwineBreed::Mangalitza => "mangalitza"@,
            SwineBreed::Meishan => "meishan"@,
            SwineBreed::MiddleWhite => "middle white"@,
            SwineBreed::MongCai => "mong cai"@,
            SwineBreed::Minzhu => "minzhu"@,
            SwineBreed::MoraRomagnola => "mora romagnola"@,
            SwineBreed::Mukota => "mukota"@,
            SwineBreed::Mulefoot => "mulefoot"@,
            SwineBreed::Neijiang => "neijiang"@,
            SwineBreed::Ningxiang => "ningxiang"@,
            SwineBreed::NorwegianLandrace => "norwegian landrace"@,
            SwineBreed::OssabawIsland => "ossabaw island"@,
            SwineBreed::OxfordSandyAndBlack => "oxford sandy and black"@,
            SwineBreed::PhilippineNative => "philippine native"@,
            SwineBreed::Pietrain => "pietrain"@,
            SwineBreed::PolandChina => "poland china"@,
            SwineBreed::RedWattle => "red wattle"@,
            SwineBreed::Saddleback => "saddleback"@,
            SwineBreed::Spotted => "spotted"@,
            SwineBreed::SwedishLandrace => "swedish landrace"@,
            SwineBreed::Tamworth => "tamworth"@,
            SwineBreed::ThuocNhieu => "thuoc nhieu"@,
            SwineBreed::Tibetan => "tibetan"@,
            SwineBreed::Thuropolje => "thuropolje"@,
            SwineBreed::VietnamesePotbelly => "vietnamese potbelly"@,
            SwineBreed::Welsh => "welsh"@,
            SwineBreed::Wuzhishan => "wuzhishan"@,
            SwineBreed::Yorkshire => "yorkshire"@,
        };
        Self::lemma_listed_name_is_found(name, breed);
    }

    /// A text whose normal form is listed for a breed names that breed.
    pub proof fn lemma_listed_text_names_breed(text: Seq<char>, breed: SwineBreed)
        requires
            breed.has_name(Self::normal_form(text)),
        ensures
            Self::named_by(text) == Some(breed),
    {
        Self::lemma_listed_name_is_found(Self::normal_form(text), breed);
    }

    /// Two texts that are alike in lower case name the same breed, or both
    /// name none.
    pub proof fn lemma_case_is_ignored(s: Seq<char>, t: Seq<char>)
        requires
            lowercase_of(s) == lowercase_of(t),
        ensures
            Self::named_by(s) == Self::named_by(t),
    {
    }

    /// The shown name depends on the breed alone: asking twice gives the
    /// same text.
    pub proof fn lemma_shown_name_is_fixed(a: SwineBreed, b: SwineBreed)
        requires
            a == b,
        ensures
            a.canonical_name() == b.canonical_name(),
    {
    }
}

} // verus!
