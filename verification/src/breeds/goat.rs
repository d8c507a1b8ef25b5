//! Breeds of goats: the name under which each is shown, and the names by
//! which a breed is recognised in text.

use vstd::prelude::*;

use inflector::cases::titlecase::to_title_case;

use crate::error::{BreedNotFound, Species};
use crate::text::{lowercase_of, same_text, title_case_of};

verus! {

/// A breed of goat.
#[derive(Debug, Clone, Copy, PartialEq, Eq, Structural)]
pub enum GoatBreed {
    Alpine,
    AltaiMountain,
    AngloNubian,
    Angora,
    Appenzell,
    ArapawaIsland,
    Australian,
    Bagot,
    Barbari,
    Beetal,
    BelgianFawn,
    Benadir,
    Bhuj,
    Boer,
    Booted,
    BritishAlpine,
    BrownShorthair,
    CanaryIsland,
    Caninde,
    Cashmere,
    Chapar,
    Corsican,
    DaeraDinPanah,
    Damani,
    DanishLandrace,
    Don,
    DutchLandrace,
    Erzgebirge,
    FinnishLandrace,
    GoldenGuernsey,
    GrisonsStriped,
    Hailun,
    Haimen,
    Hasi,
    Hejazi,
    HexiCashmere,
    Hongtong,
    Huaipi,
    Huaitoutala,
    HungarianImproved,
    Irish,
    JiningGrey,
    Kaghani,
    KalahariRed,
    Kamori,
    Kiko,
    Kinder,
    LaMancha,
    Laoshan,
    Moxoto,
    MurciaGranada,
    /// Also called the Wooden Leg.
    Myotonic,
    Nachi,
    NigerianDwarf,
    Norwegian,
    Oberhasli,
    Peacock,
    Philippine,
    Poitou,
    Pygmy,
    Pyrenean,
    Qinshan,
    Repartida,
    RussianWhiteAndGorki,
    Saanen,
    Sahelian,
    Savanna,
    SanClemente,
    Somali,
    Spanish,
    SRD,
    SwedishLandrace,
    Thuringian,
    Toggenburg,
    UzbekBlack,
    ValaisBlackneck,
    Verata,
    WestAfricanDwarf,
    WhiteShorthair,
    Xinjiang,
    Xuhai,
    YemenMountain,
    Zhongwei,
}

impl GoatBreed {
    /// The breed's identifier: the words of its name run together, each
    /// starting with a capital letter.
    pub open spec fn spec_identifier(self) -> Seq<char> {
        match self {
            GoatBreed::Alpine => "Alpine"@,
            GoatBreed::AltaiMountain => "AltaiMountain"@,
            GoatBreed::AngloNubian => "AngloNubian"@,
            GoatBreed::Angora => "Angora"@,
            GoatBreed::Appenzell => "Appenzell"@,
            GoatBreed::ArapawaIsland => "ArapawaIsland"@,
            GoatBreed::Australian => "Australian"@,
            GoatBreed::Bagot => "Bagot"@,
            GoatBreed::Barbari => "Barbari"@,
            GoatBreed::Beetal => "Beetal"@,
            GoatBreed::BelgianFawn => "BelgianFawn"@,
            GoatBreed::Benadir => "Benadir"@,
            GoatBreed::Bhuj => "Bhuj"@,
            GoatBreed::Boer => "Boer"@,
            GoatBreed::Booted => "Booted"@,
            GoatBreed::BritishAlpine => "BritishAlpine"@,
            GoatBreed::BrownShorthair => "BrownShorthair"@,
            GoatBreed::CanaryIsland => "CanaryIsland"@,
            GoatBreed::Caninde => "Caninde"@,
            GoatBreed::Cashmere => "Cashmere"@,
            GoatBreed::Chapar => "Chapar"@,
            GoatBreed::Corsican => "Corsican"@,
            GoatBreed::DaeraDinPanah => "DaeraDinPanah"@,
            GoatBreed::Damani => "Damani"@,
            GoatBreed::DanishLandrace => "DanishLandrace"@,
            GoatBreed::Don => "Don"@,
            GoatBreed::DutchLandrace => "DutchLandrace"@,
            GoatBreed::Erzgebirge => "Erzgebirge"@,
            GoatBreed::FinnishLandrace => "FinnishLandrace"@,
            GoatBreed::GoldenGuernsey => "GoldenGuernsey"@,
            GoatBreed::GrisonsStriped => "GrisonsStriped"@,
            GoatBreed::Hailun => "Hailun"@,
            GoatBreed::Haimen => "Haimen"@,
            GoatBreed::Hasi => "Hasi"@,
            GoatBreed::Hejazi => "Hejazi"@,
            GoatBreed::HexiCashmere => "HexiCashmere"@,
            GoatBreed::Hongtong => "Hongtong"@,
            GoatBreed::Huaipi => "Huaipi"@,
            GoatBreed::Huaitoutala => "Huaitoutala"@,
            GoatBreed::HungarianImproved => "HungarianImproved"@,
            GoatBreed::Irish => "Irish"@,
            GoatBreed::JiningGrey => "JiningGrey"@,
            GoatBreed::Kaghani => "Kaghani"@,
            GoatBreed::KalahariRed => "KalahariRed"@,
            GoatBreed::Kamori => "Kamori"@,
            GoatBreed::Kiko => "Kiko"@,
            GoatBreed::Kinder => "Kinder"@,
            GoatBreed::LaMancha => "LaMancha"@,
            GoatBreed::Laoshan => "Laoshan"@,
            GoatBreed::Moxoto => "Moxoto"@,
            GoatBreed::MurciaGranada => "MurciaGranada"@,
            GoatBreed::Myotonic => "Myotonic"@,
            GoatBreed::Nachi => "Nachi"@,
            GoatBreed::NigerianDwarf => "NigerianDwarf"@,
            GoatBreed::Norwegian => "Norwegian"@,
            GoatBreed::Oberhasli => "Oberhasli"@,
            GoatBreed::Peacock => "Peacock"@,
            GoatBreed::Philippine => "Philippine"@,
            GoatBreed::Poitou => "Poitou"@,
            GoatBreed::Pygmy => "Pygmy"@,
            GoatBreed::Pyrenean => "Pyrenean"@,
            GoatBreed::Qinshan => "Qinshan"@,
            GoatBreed::Repartida => "Repartida"@,
            GoatBreed::RussianWhiteAndGorki => "RussianWhiteAndGorki"@,
            GoatBreed::Saanen => "Saanen"@,
            GoatBreed::Sahelian => "Sahelian"@,
            GoatBreed::Savanna => "Savanna"@,
            GoatBreed::SanClemente => "SanClemente"@,
            GoatBreed::Somali => "Somali"@,
            GoatBreed::Spanish => "Spanish"@,
            GoatBreed::SRD => "SRD"@,
            GoatBreed::SwedishLandrace => "SwedishLandrace"@,
            GoatBreed::Thuringian => "Thuringian"@,
            GoatBreed::Toggenburg => "Toggenburg"@,
            GoatBreed::UzbekBlack => "UzbekBlack"@,
            GoatBreed::ValaisBlackneck => "ValaisBlackneck"@,
            GoatBreed::Verata => "Verata"@,
            GoatBreed::WestAfricanDwarf => "WestAfricanDwarf"@,
            GoatBreed::WhiteShorthair => "WhiteShorthair"@,
            GoatBreed::Xinjiang => "Xinjiang"@,
            GoatBreed::Xuhai => "Xuhai"@,
            GoatBreed::YemenMountain => "YemenMountain"@,
            GoatBreed::Zhongwei => "Zhongwei"@,
        }
    }

    /// The name under which the breed is shown.
    ///
    /// Names that carry marks or punctuation which an identifier cannot hold
    /// are given outright. Every other name is the title-case form of the
    /// identifier.
    pub open spec fn canonical_name(self) -> Seq<char> {
        match self {
            GoatBreed::AngloNubian => "Anglo-Nubian"@,
            GoatBreed::Caninde => "Canindé"@,
            GoatBreed::MurciaGranada => "Murcia-Granada"@,
            GoatBreed::Myotonic => "Myotonic (Wooden Leg)"@,
            _ => title_case_of(self.spec_identifier()),
        }
    }

    /// The form in which a text is compared with the listed names: lower
    /// case.
    pub open spec fn normal_form(text: Seq<char>) -> Seq<char> {
        lowercase_of(text)
    }

    /// Whether `name` is one of the names listed for the breed. The listed
    /// names are written in lower case.
    pub open spec fn has_name(self, name: Seq<char>) -> bool {
        match self {
            GoatBreed::Alpine => name == "alpine"@,
            GoatBreed::AltaiMountain => name == "altai mountain"@,
            GoatBreed::AngloNubian => {
                ||| name == "anglo-nubian"@
                ||| name == "anglo nubian"@
            },
            GoatBreed::Angora => name == "angora"@,
            GoatBreed::Appenzell => name == "appenzell"@,
            GoatBreed::ArapawaIsland => name == "arapawa island"@,
            GoatBreed::Australian => name == "australian"@,
            GoatBreed::Bagot => name == "bagot"@,
            GoatBreed::Barbari => name == "barbari"@,
            GoatBreed::Beetal => name == "beetal"@,
            GoatBreed::BelgianFawn => name == "belgian fawn"@,
            GoatBreed::Benadir => name == "benadir"@,
            GoatBreed::Bhuj => name == "bhuj"@,
            GoatBreed::Boer => name == "boer"@,
            GoatBreed::Booted => name == "booted"@,
            GoatBreed::BritishAlpine => name == "british alpine"@,
            GoatBreed::BrownShorthair => name == "brown shorthair"@,
            GoatBreed::CanaryIsland => name == "canary island"@,
            GoatBreed::Caninde => {
                ||| name == "canindé"@
                ||| name == "caninde"@
            },
            GoatBreed::Cashmere => name == "cashmere"@,
            GoatBreed::Chapar => name == "chapar"@,
            GoatBreed::Corsican => name == "corsican"@,
            GoatBreed::DaeraDinPanah => name == "daera din panah"@,
            GoatBreed::Damani => name == "damani"@,
            GoatBreed::DanishLandrace => name == "danish landrace"@,
            GoatBreed::Don => name == "don"@,
            GoatBreed::DutchLandrace => name == "dutch landrace"@,
            GoatBreed::Erzgebirge => name == "erzgebirge"@,
            GoatBreed::FinnishLandrace => name == "finnish landrace"@,
            GoatBreed::GoldenGuernsey => name == "golden guernsey"@,
            GoatBreed::GrisonsStriped => name == "grisons striped"@,
            GoatBreed::Hailun => name == "hailun"@,
            GoatBreed::Haimen => name == "haimen"@,
            GoatBreed::Hasi => name == "hasi"@,
            GoatBreed::Hejazi => name == "hejazi"@,
            GoatBreed::HexiCashmere => name == "hexi cashmere"@,
            GoatBreed::Hongtong => name == "hongtong"@,
            GoatBreed::Huaipi => name == "huaipi"@,
            GoatBreed::Huaitoutala => name == "huaitoutala"@,
            GoatBreed::HungarianImproved => name == "hungarian improved"@,
            GoatBreed::Irish => name == "irish"@,
            GoatBreed::JiningGrey => name == "jining grey"@,
            GoatBreed::Kaghani => name == "kaghani"@,
            GoatBreed::KalahariRed => name == "kalahari red"@,
            GoatBreed::Kamori => name == "kamori"@,
            GoatBreed::Kiko => name == "kiko"@,
            GoatBreed::Kinder => name == "kinder"@,
            GoatBreed::LaMancha => name == "la mancha"@,
            GoatBreed::Laoshan => name == "laoshan"@,
            GoatBreed::Moxoto => name == "moxoto"@,
            GoatBreed::MurciaGranada => {
                ||| name == "murcia granada"@
                ||| name == "murcia-granada"@
            },
            GoatBreed::Myotonic => {
                ||| name == "myotonic"@
                ||| name == "wooden leg"@
                ||| name == "myotonic wooden leg"@
                ||| name == "myotonic (wooden leg)"@
            },
            GoatBreed::Nachi => name == "nachi"@,
            GoatBreed::NigerianDwarf => name == "nigerian dwarf"@,
            GoatBreed::Norwegian => name == "norwegian"@,
            GoatBreed::Oberhasli => name == "oberhasli"@,
            GoatBreed::Peacock => name == "peacock"@,
            GoatBreed::Philippine => name == "philippine"@,
            GoatBreed::Poitou => name == "poitou"@,
            GoatBreed::Pygmy => name == "pygmy"@,
            GoatBreed::Pyrenean => name == "pyrenean"@,
            GoatBreed::Qinshan => name == "qinshan"@,
            GoatBreed::Repartida => name == "repartida"@,
            GoatBreed::RussianWhiteAndGorki => {
                ||| name == "russian white and gorki"@
                ||| name == "russian white & gorki"@
            },
            GoatBreed::Saanen => name == "saanen"@,
            GoatBreed::Sahelian => name == "sahelian"@,
            GoatBreed::Savanna => name == "savanna"@,
            GoatBreed::SanClemente => name == "san clemente"@,
            GoatBreed::Somali => name == "somali"@,
            GoatBreed::Spanish => name == "spanish"@,
            GoatBreed::SRD => name == "srd"@,
            GoatBreed::SwedishLandrace => name == "swedish landrace"@,
            GoatBreed::Thuringian => name == "thuringian"@,
            GoatBreed::Toggenburg => name == "toggenburg"@,
            GoatBreed::UzbekBlack => name == "uzbek black"@,
            GoatBreed::ValaisBlackneck => name == "valais blackneck"@,
            GoatBreed::Verata => name == "verata"@,
            GoatBreed::WestAfricanDwarf => name == "west african dwarf"@,
            GoatBreed::WhiteShorthair => name == "white shorthair"@,
            GoatBreed::Xinjiang => name == "xinjiang"@,
            GoatBreed::Xuhai => name == "xuhai"@,
            GoatBreed::YemenMountain => name == "yemen mountain"@,
            GoatBreed::Zhongwei => name == "zhongwei"@,
        }
    }

    /// The breed for which `name` is listed, if it is listed at all.
    pub open spec fn listed_as(name: Seq<char>) -> Option<GoatBreed> {
        if exists|breed: GoatBreed| breed.has_name(name) {
            Some(choose|breed: GoatBreed| breed.has_name(name))
        } else {
            None
        }
    }

    /// The breed that `text` names: the one for which the normal form of
    /// `text` is listed.
    pub open spec fn named_by(text: Seq<char>) -> Option<GoatBreed> {
        Self::listed_as(Self::normal_form(text))
    }

    /// The breed's identifier.
    pub fn identifier(&self) -> (word: &'static str)
        ensures
            word@ == self.spec_identifier(),
    {
        match self {
            GoatBreed::Alpine => "Alpine",
            GoatBreed::AltaiMountain => "AltaiMountain",
            GoatBreed::AngloNubian => "AngloNubian",
            GoatBreed::Angora => "Angora",
            GoatBreed::Appenzell => "Appenzell",
            GoatBreed::ArapawaIsland => "ArapawaIsland",
            GoatBreed::Australian => "Australian",
            GoatBreed::Bagot => "Bagot",
            GoatBreed::Barbari => "Barbari",
            GoatBreed::Beetal => "Beetal",
            GoatBreed::BelgianFawn => "BelgianFawn",
            GoatBreed::Benadir => "Benadir",
            GoatBreed::Bhuj => "Bhuj",
            GoatBreed::Boer => "Boer",
            GoatBreed::Booted => "Booted",
            GoatBreed::BritishAlpine => "BritishAlpine",
            GoatBreed::BrownShorthair => "BrownShorthair",
            GoatBreed::CanaryIsland => "CanaryIsland",
            GoatBreed::Caninde => "Caninde",
            GoatBreed::Cashmere => "Cashmere",
            GoatBreed::Chapar => "Chapar",
            GoatBreed::Corsican => "Corsican",
            GoatBreed::DaeraDinPanah => "DaeraDinPanah",
            GoatBreed::Damani => "Damani",
            GoatBreed::DanishLandrace => "DanishLandrace",
            GoatBreed::Don => "Don",
            GoatBreed::DutchLandrace => "DutchLandrace",
            GoatBreed::Erzgebirge => "Erzgebirge",
            GoatBreed::FinnishLandrace => "FinnishLandrace",
            GoatBreed::GoldenGuernsey => "GoldenGuernsey",
            GoatBreed::GrisonsStriped => "GrisonsStriped",
            GoatBreed::Hailun => "Hailun",
            GoatBreed::Haimen => "Haimen",
            GoatBreed::Hasi => "Hasi",
            GoatBreed::Hejazi => "Hejazi",
            GoatBreed::HexiCashmere => "HexiCashmere",
            GoatBreed::Hongtong => "Hongtong",
            GoatBreed::Huaipi => "Huaipi",
            GoatBreed::Huaitoutala => "Huaitoutala",
            GoatBreed::HungarianImproved => "HungarianImproved",
            GoatBreed::Irish => "Irish",
            GoatBreed::JiningGrey => "JiningGrey",
            GoatBreed::Kaghani => "Kaghani",
            GoatBreed::KalahariRed => "KalahariRed",
            GoatBreed::Kamori => "Kamori",
            GoatBreed::Kiko => "Kiko",
            GoatBreed::Kinder => "Kinder",
            GoatBreed::LaMancha => "LaMancha",
            GoatBreed::Laoshan => "Laoshan",
            GoatBreed::Moxoto => "Moxoto",
            GoatBreed::MurciaGranada => "MurciaGranada",
            GoatBreed::Myotonic => "Myotonic",
            GoatBreed::Nachi => "Nachi",
            GoatBreed::NigerianDwarf => "NigerianDwarf",
            GoatBreed::Norwegian => "Norwegian",
            GoatBreed::Oberhasli => "Oberhasli",
            GoatBreed::Peacock => "Peacock",
            GoatBreed::Philippine => "Philippine",
            GoatBreed::Poitou => "Poitou",
            GoatBreed::Pygmy => "Pygmy",
            GoatBreed::Pyrenean => "Pyrenean",
            GoatBreed::Qinshan => "Qinshan",
            GoatBreed::Repartida => "Repartida",
            GoatBreed::RussianWhiteAndGorki => "RussianWhiteAndGorki",
            GoatBreed::Saanen => "Saanen",
            GoatBreed::Sahelian => "Sahelian",
            GoatBreed::Savanna => "Savanna",
            GoatBreed::SanClemente => "SanClemente",
            GoatBreed::Somali => "Somali",
            GoatBreed::Spanish => "Spanish",
            GoatBreed::SRD => "SRD",
            GoatBreed::SwedishLandrace => "SwedishLandrace",
            GoatBreed::Thuringian => "Thuringian",
            GoatBreed::Toggenburg => "Toggenburg",
            GoatBreed::UzbekBlack => "UzbekBlack",
            GoatBreed::ValaisBlackneck => "ValaisBlackneck",
            GoatBreed::Verata => "Verata",
            GoatBreed::WestAfricanDwarf => "WestAfricanDwarf",
            GoatBreed::WhiteShorthair => "WhiteShorthair",
            GoatBreed::Xinjiang => "Xinjiang",
            GoatBreed::Xuhai => "Xuhai",
            GoatBreed::YemenMountain => "YemenMountain",
            GoatBreed::Zhongwei => "Zhongwei",
        }
    }

    /// The name under which the breed is shown.
    pub fn to_string(&self) -> (shown: String)
        ensures
            shown@ == self.canonical_name(),
    {
        match self {
            GoatBreed::AngloNubian => "Anglo-Nubian".to_string(),
            GoatBreed::Caninde => "Canindé".to_string(),
            GoatBreed::MurciaGranada => "Murcia-Granada".to_string(),
            GoatBreed::Myotonic => "Myotonic (Wooden Leg)".to_string(),
            _ => to_title_case(self.identifier()),
        }
    }

    /// Looks `name` up among the listed names. The comparison is exact, so
    /// `name` is expected in normal form.
    pub fn from_normalized(name: &str) -> (found: Option<GoatBreed>)
        ensures
            found == Self::listed_as(name@),
    {
        let found = Self::search(name);
        proof {
            if let Some(breed) = found {
                Self::lemma_listed_name_is_found(name@, breed);
            }
        }
        found
    }

    /// Goes through the listed names in order and stops at the first that
    /// equals `name`.
    fn search(name: &str) -> (found: Option<GoatBreed>)
        ensures
            match found {
                Some(breed) => breed.has_name(name@),
                None => forall|breed: GoatBreed| !breed.has_name(name@),
            },
    {
        if same_text(name, "alpine") {
            return Some(GoatBreed::Alpine);
        }
        if same_text(name, "altai mountain") {
            return Some(GoatBreed::AltaiMountain);
        }
        if same_text(name, "anglo-nubian") || same_text(name, "anglo nubian") {
            return Some(GoatBreed::AngloNubian);
        }
        if same_text(name, "angora") {
            return Some(GoatBreed::Angora);
        }
        if same_text(name, "appenzell") {
            return Some(GoatBreed::Appenzell);
        }
        if same_text(name, "arapawa island") {
            return Some(GoatBreed::ArapawaIsland);
        }
        if same_text(name, "australian") {
            return Some(GoatBreed::Australian);
        }
        if same_text(name, "bagot") {
            return Some(GoatBreed::Bagot);
        }
        if same_text(name, "barbari") {
            return Some(GoatBreed::Barbari);
        }
        if same_text(name, "beetal") {
            return Some(GoatBreed::Beetal);
        }
        if same_text(name, "belgian fawn") {
            return Some(GoatBreed::BelgianFawn);
        }
        if same_text(name, "benadir") {
            return Some(GoatBreed::Benadir);
        }
        if same_text(name, "bhuj") {
            return Some(GoatBreed::Bhuj);
        }
        if same_text(name, "boer") {
            return Some(GoatBreed::Boer);
        }
        if same_text(name, "booted") {
            return Some(GoatBreed::Booted);
        }
        if same_text(name, "british alpine") {
            return Some(GoatBreed::BritishAlpine);
        }
        if same_text(name, "brown shorthair") {
            return Some(GoatBreed::BrownShorthair);
        }
        if same_text(name, "canary island") {
            return Some(GoatBreed::CanaryIsland);
        }
        if same_text(name, "canindé") || same_text(name, "caninde") {
            return Some(GoatBreed::Caninde);
        }
        if same_text(name, "cashmere") {
            return Some(GoatBreed::Cashmere);
        }
        if same_text(name, "chapar") {
            return Some(GoatBreed::Chapar);
        }
        if same_text(name, "corsican") {
            return Some(GoatBreed::Corsican);
        }
        if same_text(name, "daera din panah") {
            return Some(GoatBreed::DaeraDinPanah);
        }
        if same_text(name, "damani") {
            return Some(GoatBreed::Damani);
        }
        if same_text(name, "danish landrace") {
            return Some(GoatBreed::DanishLandrace);
        }
        if same_text(name, "don") {
            return Some(GoatBreed::Don);
        }
        if same_text(name, "dutch landrace") {
            return Some(GoatBreed::DutchLandrace);
        }
        if same_text(name, "erzgebirge") {
            return Some(GoatBreed::Erzgebirge);
        }
        if same_text(name, "finnish landrace") {
            return Some(GoatBreed::FinnishLandrace);
        }
        if same_text(name, "golden guernsey") {
            return Some(GoatBreed::GoldenGuernsey);
        }
        if same_text(name, "grisons striped") {
            return Some(GoatBreed::GrisonsStriped);
        }
        if same_text(name, "hailun") {
            return Some(GoatBreed::Hailun);
        }
        if same_text(name, "haimen") {
            return Some(GoatBreed::Haimen);
        }
        if same_text(name, "hasi") {
            return Some(GoatBreed::Hasi);
        }
        if same_text(name, "hejazi") {
            return Some(GoatBreed::Hejazi);
        }
        if same_text(name, "hexi cashmere") {
            return Some(GoatBreed::HexiCashmere);
        }
        if same_text(name, "hongtong") {
            return Some(GoatBreed::Hongtong);
        }
        if same_text(name, "huaipi") {
            return Some(GoatBreed::Huaipi);
        }
        if same_text(name, "huaitoutala") {
            return Some(GoatBreed::Huaitoutala);
        }
        if same_text(name, "hungarian improved") {
            return Some(GoatBreed::HungarianImproved);
        }
        if same_text(name, "irish") {
            return Some(GoatBreed::Irish);
        }
        if same_text(name, "jining grey") {
            return Some(GoatBreed::JiningGrey);
        }
        if same_text(name, "kaghani") {
            return Some(GoatBreed::Kaghani);
        }
        if same_text(name, "kalahari red") {
            return Some(GoatBreed::KalahariRed);
        }
        if same_text(name, "kamori") {
            return Some(GoatBreed::Kamori);
        }
        if same_text(name, "kiko") {
            return Some(GoatBreed::Kiko);
        }
        if same_text(name, "kinder") {
            return Some(GoatBreed::Kinder);
        }
        if same_text(name, "la mancha") {
            return Some(GoatBreed::LaMancha);
        }
        if same_text(name, "laoshan") {
            return Some(GoatBreed::Laoshan);
        }
        if same_text(name, "moxoto") {
            return Some(GoatBreed::Moxoto);
        }
        if same_text(name, "murcia granada") || same_text(name, "murcia-granada") {
            return Some(GoatBreed::MurciaGranada);
        }
        if same_text(name, "myotonic")
            || same_text(name, "wooden leg")
            || same_text(name, "myotonic wooden leg")
            || same_text(name, "myotonic (wooden leg)")
        {
            return Some(GoatBreed::Myotonic);
        }
        if same_text(name, "nachi") {
            return Some(GoatBreed::Nachi);
        }
        if same_text(name, "nigerian dwarf") {
            return Some(GoatBreed::NigerianDwarf);
        }
        if same_text(name, "norwegian") {
            return Some(GoatBreed::Norwegian);
        }
        if same_text(name, "oberhasli") {
            return Some(GoatBreed::Oberhasli);
        }
        if same_text(name, "peacock") {
            return Some(GoatBreed::Peacock);
        }
        if same_text(name, "philippine") {
            return Some(GoatBreed::Philippine);
        }
        if same_text(name, "poitou") {
            return Some(GoatBreed::Poitou);
        }
        if same_text(name, "pygmy") {
            return Some(GoatBreed::Pygmy);
        }
        if same_text(name, "pyrenean") {
            return Some(GoatBreed::Pyrenean);
        }
        if same_text(name, "qinshan") {
            return Some(GoatBreed::Qinshan);
        }
        if same_text(name, "repartida") {
            return Some(GoatBreed::Repartida);
        }
        if same_text(name, "russian white and gorki") || same_text(name, "russian white & gorki") {
            return Some(GoatBreed::RussianWhiteAndGorki);
        }
        if same_text(name, "saanen") {
            return Some(GoatBreed::Saanen);
        }
        if same_text(name, "sahelian") {
            return Some(GoatBreed::Sahelian);
        }
        if same_text(name, "savanna") {
            return Some(GoatBreed::Savanna);
        }
        if same_text(name, "san clemente") {
            return Some(GoatBreed::SanClemente);
        }
        if same_text(name, "somali") {
            return Some(GoatBreed::Somali);
        }
        if same_text(name, "spanish") {
            return Some(GoatBreed::Spanish);
        }
        if same_text(name, "srd") {
            return Some(GoatBreed::SRD);
        }
        if same_text(name, "swedish landrace") {
            return Some(GoatBreed::SwedishLandrace);
        }
        if same_text(name, "thuringian") {
            return Some(GoatBreed::Thuringian);
        }
        if same_text(name, "toggenburg") {
            return Some(GoatBreed::Toggenburg);
        }
        if same_text(name, "uzbek black") {
            return Some(GoatBreed::UzbekBlack);
        }
        if same_text(name, "valais blackneck") {
            return Some(GoatBreed::ValaisBlackneck);
        }
        if same_text(name, "verata") {
            return Some(GoatBreed::Verata);
        }
        if same_text(name, "west african dwarf") {
            return Some(GoatBreed::WestAfricanDwarf);
        }
        if same_text(name, "white shorthair") {
            return Some(GoatBreed::WhiteShorthair);
        }
        if same_text(name, "xinjiang") {
            return Some(GoatBreed::Xinjiang);
        }
        if same_text(name, "xuhai") {
            return Some(GoatBreed::Xuhai);
        }
        if same_text(name, "yemen mountain") {
            return Some(GoatBreed::YemenMountain);
        }
        if same_text(name, "zhongwei") {
            return Some(GoatBreed::Zhongwei);
        }
        None
    }

    /// Reads a breed from text. Case is ignored.
    ///
    /// Returns the breed that `s` names. Where `s` names none, the error
    /// carries `s` as it was given.
    pub fn from_str(s: &str) -> (parsed: Result<GoatBreed, BreedNotFound>)
        ensures
            match parsed {
                Ok(breed) => Self::named_by(s@) == Some(breed),
                Err(e) => {
                    &&& Self::named_by(s@) is None
                    &&& e.species == Species::Goat
                    &&& e.name@ == s@
                },
            },
    {
        let lowered = s.to_lowercase();
        let found = Self::from_normalized(lowered.as_str());
        match found {
            Some(breed) => Ok(breed),
            None => Err(BreedNotFound { species: Species::Goat, name: s.to_string() }),
        }
    }

    /// No name is listed for two breeds: a name decides the breed.
    pub proof fn lemma_name_decides_breed(name: Seq<char>, a: GoatBreed, b: GoatBreed)
        requires
            a.has_name(name),
            b.has_name(name),
        ensures
            a == b,
    {
        reveal_strlit("alpine");
        reveal_strlit("altai mountain");
        reveal_strlit("anglo-nubian");
        reveal_strlit("anglo nubian");
        reveal_strlit("angora");
        reveal_strlit("appenzell");
        reveal_strlit("arapawa island");
        reveal_strlit("australian");
        reveal_strlit("bagot");
        reveal_strlit("barbari");
        reveal_strlit("beetal");
        reveal_strlit("belgian fawn");
        reveal_strlit("benadir");
        reveal_strlit("bhuj");
        reveal_strlit("boer");
        reveal_strlit("booted");
        reveal_strlit("british alpine");
        reveal_strlit("brown shorthair");
        reveal_strlit("canary island");
        reveal_strlit("canindé");
        reveal_strlit("caninde");
        reveal_strlit("cashmere");
        reveal_strlit("chapar");
        reveal_strlit("corsican");
        reveal_strlit("daera din panah");
        reveal_strlit("damani");
        reveal_strlit("danish landrace");
        reveal_strlit("don");
        reveal_strlit("dutch landrace");
        reveal_strlit("erzgebirge");
        reveal_strlit("finnish landrace");
        reveal_strlit("golden guernsey");
        reveal_strlit("grisons striped");
        reveal_strlit("hailun");
        reveal_strlit("haimen");
        reveal_strlit("hasi");
        reveal_strlit("hejazi");
        reveal_strlit("hexi cashmere");
        reveal_strlit("hongtong");
        reveal_strlit("huaipi");
        reveal_strlit("huaitoutala");
        reveal_strlit("hungarian improved");
        reveal_strlit("irish");
        reveal_strlit("jining grey");
        reveal_strlit("kaghani");
        reveal_strlit("kalahari red");
        reveal_strlit("kamori");
        reveal_strlit("kiko");
        reveal_strlit("kinder");
        reveal_strlit("la mancha");
        reveal_strlit("laoshan");
        reveal_strlit("moxoto");
        reveal_strlit("murcia granada");
        reveal_strlit("murcia-granada");
        reveal_strlit("myotonic");
        reveal_strlit("wooden leg");
        reveal_strlit("myotonic wooden leg");
        reveal_strlit("myotonic (wooden leg)");
        reveal_strlit("nachi");
        reveal_strlit("nigerian dwarf");
        reveal_strlit("norwegian");
        reveal_strlit("oberhasli");
        reveal_strlit("peacock");
        reveal_strlit("philippine");
        reveal_strlit("poitou");
        reveal_strlit("pygmy");
        reveal_strlit("pyrenean");
        reveal_strlit("qinshan");
        reveal_strlit("repartida");
        reveal_strlit("russian white and gorki");
        reveal_strlit("russian white & gorki");
        reveal_strlit("saanen");
        reveal_strlit("sahelian");
        reveal_strlit("savanna");
        reveal_strlit("san clemente");
        reveal_strlit("somali");
        reveal_strlit("spanish");
        reveal_strlit("srd");
        reveal_strlit("swedish landrace");
        reveal_strlit("thuringian");
        reveal_strlit("toggenburg");
        reveal_strlit("uzbek black");
        reveal_strlit("valais blackneck");
        reveal_strlit("verata");
        reveal_strlit("west african dwarf");
        reveal_strlit("white shorthair");
        reveal_strlit("xinjiang");
        reveal_strlit("xuhai");
        reveal_strlit("yemen mountain");
        reveal_strlit("zhongwei");
        // Two listed names differ in their length or in one of their characters.
        let spelling = (
            name.len(), name[0], name[1], name[2], name[3], name[4], name[5], name[6], name[7],
            name[8], name[9], name[10], name[11], name[12], name[13], name[14], name[15],
            name[16], name[17], name[18], name[19], name[20], name[21], name[22],
        );
    }

    /// A name that is listed for a breed is found, and gives that breed.
    pub proof fn lemma_listed_name_is_found(name: Seq<char>, breed: GoatBreed)
        requires
            breed.has_name(name),
        ensures
            Self::listed_as(name) == Some(breed),
    {
        Self::lemma_name_decides_breed(name, breed, choose|other: GoatBreed| other.has_name(name));
    }

    /// Every breed is listed under a name, so that a lookup can give it.
    pub proof fn lemma_every_breed_is_listed(breed: GoatBreed)
        ensures
            exists|name: Seq<char>| Self::listed_as(name) == Some(breed),
    {
        let name = match breed {
            GoatBreed::Alpine => "alpine"@,
            GoatBreed::AltaiMountain => "altai mountain"@,
            GoatBreed::AngloNubian => "anglo-nubian"@,
            GoatBreed::Angora => "angora"@,
            GoatBreed::Appenzell => "appenzell"@,
            GoatBreed::ArapawaIsland => "arapawa island"@,
            GoatBreed::Australian => "australian"@,
            GoatBreed::Bagot => "bagot"@,
            GoatBreed::Barbari => "barbari"@,
            GoatBreed::Beetal => "beetal"@,
            GoatBreed::BelgianFawn => "belgian fawn"@,
            GoatBreed::Benadir => "benadir"@,
            GoatBreed::Bhuj => "bhuj"@,
            GoatBreed::Boer => "boer"@,
            GoatBreed::Booted => "booted"@,
            GoatBreed::BritishAlpine => "british alpine"@,
            GoatBreed::BrownShorthair => "brown shorthair"@,
            GoatBreed::CanaryIsland => "canary island"@,
            GoatBreed::Caninde => "canindé"@,
            GoatBreed::Cashmere => "cashmere"@,
            GoatBreed::Chapar => "chapar"@,
            GoatBreed::Corsican => "corsican"@,
            GoatBreed::DaeraDinPanah => "daera din panah"@,
            GoatBreed::Damani => "damani"@,
            GoatBreed::DanishLandrace => "danish landrace"@,
            GoatBreed::Don => "don"@,
            GoatBreed::DutchLandrace => "dutch landrace"@,
            GoatBreed::Erzgebirge => "erzgebirge"@,
            GoatBreed::FinnishLandrace => "finnish landrace"@,
            GoatBreed::GoldenGuernsey => "golden guernsey"@,
            GoatBreed::GrisonsStriped => "grisons striped"@,
            GoatBreed::Hailun => "hailun"@,
            GoatBreed::Haimen => "haimen"@,
            GoatBreed::Hasi => "hasi"@,
            GoatBreed::Hejazi => "hejazi"@,
            GoatBreed::HexiCashmere => "hexi cashmere"@,
            GoatBreed::Hongtong => "hongtong"@,
            GoatBreed::Huaipi => "huaipi"@,
            GoatBreed::Huaitoutala => "huaitoutala"@,
            GoatBreed::HungarianImproved => "hungarian improved"@,
            GoatBreed::Irish => "irish"@,
            GoatBreed::JiningGrey => "jining grey"@,
            GoatBreed::Kaghani => "kaghani"@,
            GoatBreed::KalahariRed => "kalahari red"@,
            GoatBreed::Kamori => "kamori"@,
            GoatBreed::Kiko => "kiko"@,
            GoatBreed::Kinder => "kinder"@,
            GoatBreed::LaMancha => "la mancha"@,
            GoatBreed::Laoshan => "laoshan"@,
            GoatBreed::Moxoto => "moxoto"@,
            GoatBreed::MurciaGranada => "murcia granada"@,
            GoatBreed::Myotonic => "myotonic"@,
            GoatBreed::Nachi => "nachi"@,
            GoatBreed::NigerianDwarf => "nigerian dwarf"@,
            GoatBreed::Norwegian => "norwegian"@,
            GoatBreed::Oberhasli => "oberhasli"@,
            GoatBreed::Peacock => "peacock"@,
            GoatBreed::Philippine => "philippine"@,
            GoatBreed::Poitou => "poitou"@,
            GoatBreed::Pygmy => "pygmy"@,
            GoatBreed::Pyrenean => "pyrenean"@,
            GoatBreed::Qinshan => "qinshan"@,
            GoatBreed::Repartida => "repartida"@,
            GoatBreed::RussianWhiteAndGorki => "russian white and gorki"@,
            GoatBreed::Saanen => "saanen"@,
            GoatBreed::Sahelian => "sahelian"@,
            GoatBreed::Savanna => "savanna"@,
            GoatBreed::SanClemente => "san clemente"@,
            GoatBreed::Somali => "somali"@,
            GoatBreed::Spanish => "spanish"@,
            GoatBreed::SRD => "srd"@,
            GoatBreed::SwedishLandrace => "swedish landrace"@,
            GoatBreed::Thuringian => "thuringian"@,
            GoatBreed::Toggenburg => "toggenburg"@,
            GoatBreed::UzbekBlack => "uzbek black"@,
            GoatBreed::ValaisBlackneck => "valais blackneck"@,
            GoatBreed::Verata => "verata"@,
            GoatBreed::WestAfricanDwarf => "west african dwarf"@,
            GoatBreed::WhiteShorthair => "white shorthair"@,
            GoatBreed::Xinjiang => "xinjiang"@,
            GoatBreed::Xuhai => "xuhai"@,
            GoatBreed::YemenMountain => "yemen mountain"@,
            GoatBreed::Zhongwei => "zhongwei"@,
        };
        Self::lemma_listed_name_is_found(name, breed);
    }

    /// A text whose normal form is listed for a breed names that breed.
    pub proof fn lemma_listed_text_names_breed(text: Seq<char>, breed: GoatBreed)
        requires
            breed.has_name(Self::normal_form(text)),
        ensures
            Self::named_by(text) == Some(breed),
    {
        Self::lemma_listed_name_is_found(Self::normal_form(text), breed);
    }

    /// Two texts that are alike in lower case name the same breed, or both
    /// name none.
    pub proof fn lemma_case_is_ignored(s: Seq<char>, t: Seq<char>)
        requires
            lowercase_of(s) == lowercase_of(t),
        ensures
            Self::named_by(s) == Self::named_by(t),
    {
    }

    /// The shown name depends on the breed alone: asking twice gives the
    /// same text.
    pub proof fn lemma_shown_name_is_fixed(a: GoatBreed, b: GoatBreed)
        requires
            a == b,
        ensures
            a.canonical_name() == b.canonical_name(),
    {
    }
}

} // verus!
