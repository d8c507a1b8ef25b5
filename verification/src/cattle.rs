//! Breeds of cattle: the name under which each is shown, and the names by
//! which a breed is recognised in text.

use vstd::prelude::*;

use inflector::cases::titlecase::to_title_case;

use crate::error::{BreedNotFound, Species};
use crate::text::{lowercase_of, same_text, title_case_of};

verus! {

/// A breed of cattle.
#[derive(Debug, Clone, Copy, PartialEq, Eq, Structural)]
pub enum CattleBreed {
    Africander,
    Akaushi,
    Alberes,
    Alentejana,
    Allmogekor,
    AmericanBreed,
    AmericanBraford,
    AmericanWhitePark,
    Amerifax,
    AmritMahal,
    AnatolianBlack,
    AndalusianBlack,
    AndalusianGrey,
    Angeln,
    Angus,
    Ankole,
    AnkoleWatusi,
    ArgentineCriollo,
    AsturianMountain,
    AsturianValley,
    Aubrac,
    AulieAta,
    AustralianBraford,
    AustralianFriesianSahiwal,
    AustralianLowline,
    AustralianMilkingZebu,
    Ayrshire,
    Azaouak,
    Bachaur,
    Baladi,
    BaltataRomaneasca,
    Barka,
    Barzona,
    Bazadais,
    Bearnais,
    Beefalo,
    Beefmaker,
    Beefmaster,
    BelarusRed,
    BelgianBlue,
    BelgianRed,
    BelmontAdaptaur,
    BelmontRed,
    BeltedGalloway,
    Bengali,
    Berrendas,
    Bhagnari,
    BlackHereford,
    BlacksidedTrondheimAndNorland,
    BlancaCacerena,
    BlancoOrejinegro,
    BlondeDAquitaine,
    Bonsmara,
    Boran,
    Bordelais,
    Brahman,
    Brahmousin,
    Brangus,
    Braunvieh,
    BritishWhite,
    BrownSwiss,
    Busa,
    Cachena,
    CanadianHighland,
    Canadienne,
    CanaryIsland,
    Canchim,
    CarinthianBlond,
    Caucasian,
    Channi,
    Charbray,
    Charolais,
    Chianina,
    Chinampo,
    ChineseBlackAndWhite,
    ChineseMongolian,
    ChineseXinjiangBrown,
    Cholistani,
    Corriente,
    CostenoConCuernos,
    Dajal,
    Damascus,
    Damietta,
    Dangi,
    DanishJersey,
    DanishRed,
    Deoni,
    Devon,
    Dexter,
    Dhanni,
    Djali,
    Dolafe,
    Droughtmaster,
    Dulong,
    DutchBelted,
    DutchFriesian,
    EastAnatolianRed,
    EnderbyIsland,
    EnglishLonghorn,
    EstonianRed,
    Evolene,
    Fighting,
    Finnish,
    Fjall,
    FloridaCracker,
    GalicianBlond,
    Galloway,
    Gaolao,
    Gascon,
    Gelbray,
    Gelbvieh,
    GermanAngusMoiled,
    GermanRedPied,
    Gir,
    Glan,
    Gloucester,
    Gobra,
    GreekShorthorn,
    GreekSteppe,
    Groningen,
    Guernsey,
    Guzerat,
    Hallikar,
    Hariana,
    Harton,
    HaysConverter,
    Hereford,
    Herens,
    Highland,
    Hinterwald,
    HolandoArgentino,
    Holstein,
    Horro,
    HungarianGrey,
    Icelandic,
    Illawarra,
    IndoBrazilian,
    IrishMoiled,
    IsraeliHolstein,
    IsraeliRed,
    Istoben,
    JamaicaBlack,
    JamaicaHope,
    JamaicaRed,
    Jaulan,
    Jersey,
    Kangayam,
    Kankrej,
    KaranFries,
    KaranSwiss,
    Kazakh,
    Kenwariya,
    Kerry,
    Kherigarh,
    Khillari,
    Kholmogory,
    Kilis,
    KrishnaValley,
    KurdiBlack,
    Kuri,
    LatvianBrown,
    Limousin,
    Limpurger,
    LincolnRed,
    LithuanianRed,
    Lohani,
    Lourdais,
    Luing,
    MadagascarZebu,
    MaineAnjou,
    Malvi,
    Mandalong,
    Marchigiana,
    Maremmana,
    Masai,
    Mashona,
    Maure,
    Mazandarani,
    MeuseRhineYssel,
    Mewati,
    MilkingDevon,
    MilkingShorthorn,
    MiniatureZebu,
    Mirandesa,
    Modicana,
    Montbeliard,
    Morucha,
    Murboden,
    MurrayGrey,
    Muturu,
    Ndama,
    Nagori,
    Nanyang,
    Nelore,
    Nguni,
    Nimari,
    Normande,
    NorwegianRed,
    Ongole,
    OrmaBoran,
    Oropa,
    Ovambo,
    Parthenais,
    PhilippineNative,
    Piedmontese,
    Pinzgauer,
    PolishRed,
    PolledHereford,
    Ponwar,
    Qinchuan,
    Rath,
    Rathi,
    RatienGray,
    RedAngus,
    RedBrangus,
    RedFulani,
    RedPiedFriesian,
    RedPoll,
    RedPolledOstland,
    RedSindhi,
    RedSteppe,
    Reggiana,
    Retinta,
    Rojhan,
    Romagnola,
    Romosinuano,
    RussianBlackPied,
    RX3,
    Sahiwal,
    Salers,
    Salorn,
    SanMartinero,
    Sanhe,
    SantaCruz,
    SantaGertrudis,
    Sarabi,
    Senepol,
    Shetland,
    Shorthorn,
    Siboney,
    Simbrah,
    Simmental,
    Siri,
    SlovenianCika,
    SouthDevon,
    SudaneseFulani,
    Sussex,
    SwedishFriesian,
    SwedishRedPolled,
    SwedishRedAndWhite,
    Tarentaise,
    Telemark,
    TexasLonghorn,
    Texon,
    Tharparkar,
    Tswana,
    Tuli,
    TurkishGreySteppe,
    UkrainianBeef,
    UkrainianGrey,
    UkrainianWhitehead,
    Umblachery,
    UralBlackPied,
    VestlandFjord,
    VestlandRedPolled,
    Vosges,
    Wagyu,
    WelshBlack,
    WhitePark,
    Yanbian,
}

impl CattleBreed {
    /// The breed's identifier: the words of its name run together, each
    /// starting with a capital letter.
    pub open spec fn spec_identifier(self) -> Seq<char> {
        match self {
            CattleBreed::Africander => "Africander"@,
            CattleBreed::Akaushi => "Akaushi"@,
            CattleBreed::Alberes => "Alberes"@,
            CattleBreed::Alentejana => "Alentejana"@,
            CattleBreed::Allmogekor => "Allmogekor"@,
            CattleBreed::AmericanBreed => "AmericanBreed"@,
            CattleBreed::AmericanBraford => "AmericanBraford"@,
            CattleBreed::AmericanWhitePark => "AmericanWhitePark"@,
            CattleBreed::Amerifax => "Amerifax"@,
            CattleBreed::AmritMahal => "AmritMahal"@,
            CattleBreed::AnatolianBlack => "AnatolianBlack"@,
            CattleBreed::AndalusianBlack => "AndalusianBlack"@,
            CattleBreed::AndalusianGrey => "AndalusianGrey"@,
            CattleBreed::Angeln => "Angeln"@,
            CattleBreed::Angus => "Angus"@,
            CattleBreed::Ankole => "Ankole"@,
            CattleBreed::AnkoleWatusi => "AnkoleWatusi"@,
            CattleBreed::ArgentineCriollo => "ArgentineCriollo"@,
            CattleBreed::AsturianMountain => "AsturianMountain"@,
            CattleBreed::AsturianValley => "AsturianValley"@,
            CattleBreed::Aubrac => "Aubrac"@,
            CattleBreed::AulieAta => "AulieAta"@,
            CattleBreed::AustralianBraford => "AustralianBraford"@,
            CattleBreed::AustralianFriesianSahiwal => "AustralianFriesianSahiwal"@,
            CattleBreed::AustralianLowline => "AustralianLowline"@,
            CattleBreed::AustralianMilkingZebu => "AustralianMilkingZebu"@,
            CattleBreed::Ayrshire => "Ayrshire"@,
            CattleBreed::Azaouak => "Azaouak"@,
            CattleBreed::Bachaur => "Bachaur"@,
            CattleBreed::Baladi => "Baladi"@,
            CattleBreed::BaltataRomaneasca => "BaltataRomaneasca"@,
            CattleBreed::Barka => "Barka"@,
            CattleBreed::Barzona => "Barzona"@,
            CattleBreed::Bazadais => "Bazadais"@,
            CattleBreed::Bearnais => "Bearnais"@,
            CattleBreed::Beefalo => "Beefalo"@,
            CattleBreed::Beefmaker => "Beefmaker"@,
            CattleBreed::Beefmaster => "Beefmaster"@,
            CattleBreed::BelarusRed => "BelarusRed"@,
            CattleBreed::BelgianBlue => "BelgianBlue"@,
            CattleBreed::BelgianRed => "BelgianRed"@,
            CattleBreed::BelmontAdaptaur => "BelmontAdaptaur"@,
            CattleBreed::BelmontRed => "BelmontRed"@,
            CattleBreed::BeltedGalloway => "BeltedGalloway"@,
            CattleBreed::Bengali => "Bengali"@,
            CattleBreed::Berrendas => "Berrendas"@,
            CattleBreed::Bhagnari => "Bhagnari"@,
            CattleBreed::BlackHereford => "BlackHereford"@,
            CattleBreed::BlacksidedTrondheimAndNorland => "BlacksidedTrondheimAndNorland"@,
            CattleBreed::BlancaCacerena => "BlancaCacerena"@,
            CattleBreed::BlancoOrejinegro => "BlancoOrejinegro"@,
            CattleBreed::BlondeDAquitaine => "BlondeDAquitaine"@,
            CattleBreed::Bonsmara => "Bonsmara"@,
            CattleBreed::Boran => "Boran"@,
            CattleBreed::Bordelais => "Bordelais"@,
            CattleBreed::Brahman => "Brahman"@,
            CattleBreed::Brahmousin => "Brahmousin"@,
            CattleBreed::Brangus => "Brangus"@,
            CattleBreed::Braunvieh => "Braunvieh"@,
            CattleBreed::BritishWhite => "BritishWhite"@,
            CattleBreed::BrownSwiss => "BrownSwiss"@,
            CattleBreed::Busa => "Busa"@,
            CattleBreed::Cachena => "Cachena"@,
            CattleBreed::CanadianHighland => "CanadianHighland"@,
            CattleBreed::Canadienne => "Canadienne"@,
            CattleBreed::CanaryIsland => "CanaryIsland"@,
            CattleBreed::Canchim => "Canchim"@,
            CattleBreed::CarinthianBlond => "CarinthianBlond"@,
            CattleBreed::Caucasian => "Caucasian"@,
            CattleBreed::Channi => "Channi"@,
            CattleBreed::Charbray => "Charbray"@,
            CattleBreed::Charolais => "Charolais"@,
            CattleBreed::Chianina => "Chianina"@,
            CattleBreed::Chinampo => "Chinampo"@,
            CattleBreed::ChineseBlackAndWhite => "ChineseBlackAndWhite"@,
            CattleBreed::ChineseMongolian => "ChineseMongolian"@,
            CattleBreed::ChineseXinjiangBrown => "ChineseXinjiangBrown"@,
            CattleBreed::Cholistani => "Cholistani"@,
            CattleBreed::Corriente => "Corriente"@,
            CattleBreed::CostenoConCuernos => "CostenoConCuernos"@,
            CattleBreed::Dajal => "Dajal"@,
            CattleBreed::Damascus => "Damascus"@,
            CattleBreed::Damietta => "Damietta"@,
            CattleBreed::Dangi => "Dangi"@,
            CattleBreed::DanishJersey => "DanishJersey"@,
            CattleBreed::DanishRed => "DanishRed"@,
            CattleBreed::Deoni => "Deoni"@,
            CattleBreed::Devon => "Devon"@,
            CattleBreed::Dexter => "Dexter"@,
            CattleBreed::Dhanni => "Dhanni"@,
            CattleBreed::Djali => "Djali"@,
            CattleBreed::Dolafe => "Dolafe"@,
            CattleBreed::Droughtmaster => "Droughtmaster"@,
            CattleBreed::Dulong => "Dulong"@,
            CattleBreed::DutchBelted => "DutchBelted"@,
            CattleBreed::DutchFriesian => "DutchFriesian"@,
            CattleBreed::EastAnatolianRed => "EastAnatolianRed"@,
            CattleBreed::EnderbyIsland => "EnderbyIsland"@,
            CattleBreed::EnglishLonghorn => "EnglishLonghorn"@,
            CattleBreed::EstonianRed => "EstonianRed"@,
            CattleBreed::Evolene => "Evolene"@,
            CattleBreed::Fighting => "Fighting"@,
            CattleBreed::Finnish => "Finnish"@,
            CattleBreed::Fjall => "Fjall"@,
            CattleBreed::FloridaCracker => "FloridaCracker"@,
            CattleBreed::GalicianBlond => "GalicianBlond"@,
            CattleBreed::Galloway => "Galloway"@,
            CattleBreed::Gaolao => "Gaolao"@,
            CattleBreed::Gascon => "Gascon"@,
            CattleBreed::Gelbray => "Gelbray"@,
            CattleBreed::Gelbvieh => "Gelbvieh"@,
            CattleBreed::GermanAngusMoiled => "GermanAngusMoiled"@,
            CattleBreed::GermanRedPied => "GermanRedPied"@,
            CattleBreed::Gir => "Gir"@,
            CattleBreed::Glan => "Glan"@,
            CattleBreed::Gloucester => "Gloucester"@,
            CattleBreed::Gobra => "Gobra"@,
            CattleBreed::GreekShorthorn => "GreekShorthorn"@,
            CattleBreed::GreekSteppe => "GreekSteppe"@,
            CattleBreed::Groningen => "Groningen"@,
            CattleBreed::Guernsey => "Guernsey"@,
            CattleBreed::Guzerat => "Guzerat"@,
            CattleBreed::Hallikar => "Hallikar"@,
            CattleBreed::Hariana => "Hariana"@,
            CattleBreed::Harton => "Harton"@,
            CattleBreed::HaysConverter => "HaysConverter"@,
            CattleBreed::Hereford => "Hereford"@,
            CattleBreed::Herens => "Herens"@,
            CattleBreed::Highland => "Highland"@,
            CattleBreed::Hinterwald => "Hinterwald"@,
            CattleBreed::HolandoArgentino => "HolandoArgentino"@,
            CattleBreed::Holstein => "Holstein"@,
            CattleBreed::Horro => "Horro"@,
            CattleBreed::HungarianGrey => "HungarianGrey"@,
            CattleBreed::Icelandic => "Icelandic"@,
            CattleBreed::Illawarra => "Illawarra"@,
            CattleBreed::IndoBrazilian => "IndoBrazilian"@,
            CattleBreed::IrishMoiled => "IrishMoiled"@,
            CattleBreed::IsraeliHolstein => "IsraeliHolstein"@,
            CattleBreed::IsraeliRed => "IsraeliRed"@,
            CattleBreed::Istoben => "Istoben"@,
            CattleBreed::JamaicaBlack => "JamaicaBlack"@,
            CattleBreed::JamaicaHope => "JamaicaHope"@,
            CattleBreed::JamaicaRed => "JamaicaRed"@,
            CattleBreed::Jaulan => "Jaulan"@,
            CattleBreed::Jersey => "Jersey"@,
            CattleBreed::Kangayam => "Kangayam"@,
            CattleBreed::Kankrej => "Kankrej"@,
            CattleBreed::KaranFries => "KaranFries"@,
            CattleBreed::KaranSwiss => "KaranSwiss"@,
            CattleBreed::Kazakh => "Kazakh"@,
            CattleBreed::Kenwariya => "Kenwariya"@,
            CattleBreed::Kerry => "Kerry"@,
            CattleBreed::Kherigarh => "Kherigarh"@,
            CattleBreed::Khillari => "Khillari"@,
            CattleBreed::Kholmogory => "Kholmogory"@,
            CattleBreed::Kilis => "Kilis"@,
            CattleBreed::KrishnaValley => "KrishnaValley"@,
            CattleBreed::KurdiBlack => "KurdiBlack"@,
            CattleBreed::Kuri => "Kuri"@,
            CattleBreed::LatvianBrown => "LatvianBrown"@,
            CattleBreed::Limousin => "Limousin"@,
            CattleBreed::Limpurger => "Limpurger"@,
            CattleBreed::LincolnRed => "LincolnRed"@,
            CattleBreed::LithuanianRed => "LithuanianRed"@,
            CattleBreed::Lohani => "Lohani"@,
            CattleBreed::Lourdais => "Lourdais"@,
            CattleBreed::Luing => "Luing"@,
            CattleBreed::MadagascarZebu => "MadagascarZebu"@,
            CattleBreed::MaineAnjou => "MaineAnjou"@,
            CattleBreed::Malvi => "Malvi"@,
            CattleBreed::Mandalong => "Mandalong"@,
            CattleBreed::Marchigiana => "Marchigiana"@,
            CattleBreed::Maremmana => "Maremmana"@,
            CattleBreed::Masai => "Masai"@,
            CattleBreed::Mashona => "Mashona"@,
            CattleBreed::Maure => "Maure"@,
            CattleBreed::Mazandarani => "Mazandarani"@,
            CattleBreed::MeuseRhineYssel => "MeuseRhineYssel"@,
            CattleBreed::Mewati => "Mewati"@,
            CattleBreed::MilkingDevon => "MilkingDevon"@,
            CattleBreed::MilkingShorthorn => "MilkingShorthorn"@,
            CattleBreed::MiniatureZebu => "MiniatureZebu"@,
            CattleBreed::Mirandesa => "Mirandesa"@,
            CattleBreed::Modicana => "Modicana"@,
            CattleBreed::Montbeliard => "Montbeliard"@,
            CattleBreed::Morucha => "Morucha"@,
            CattleBreed::Murboden => "Murboden"@,
            CattleBreed::MurrayGrey => "MurrayGrey"@,
            CattleBreed::Muturu => "Muturu"@,
            CattleBreed::Ndama => "Ndama"@,
            CattleBreed::Nagori => "Nagori"@,
            CattleBreed::Nanyang => "Nanyang"@,
            CattleBreed::Nelore => "Nelore"@,
            CattleBreed::Nguni => "Nguni"@,
            CattleBreed::Nimari => "Nimari"@,
            CattleBreed::Normande => "Normande"@,
            CattleBreed::NorwegianRed => "NorwegianRed"@,
            CattleBreed::Ongole => "Ongole"@,
            CattleBreed::OrmaBoran => "OrmaBoran"@,
            CattleBreed::Oropa => "Oropa"@,
            CattleBreed::Ovambo => "Ovambo"@,
            CattleBreed::Parthenais => "Parthenais"@,
            CattleBreed::PhilippineNative => "PhilippineNative"@,
            CattleBreed::Piedmontese => "Piedmontese"@,
            CattleBreed::Pinzgauer => "Pinzgauer"@,
            CattleBreed::PolishRed => "PolishRed"@,
            CattleBreed::PolledHereford => "PolledHereford"@,
            CattleBreed::Ponwar => "Ponwar"@,
            CattleBreed::Qinchuan => "Qinchuan"@,
            CattleBreed::Rath => "Rath"@,
            CattleBreed::Rathi => "Rathi"@,
            CattleBreed::RatienGray => "RatienGray"@,
            CattleBreed::RedAngus => "RedAngus"@,
            CattleBreed::RedBrangus => "RedBrangus"@,
            CattleBreed::RedFulani => "RedFulani"@,
            CattleBreed::RedPiedFriesian => "RedPiedFriesian"@,
            CattleBreed::RedPoll => "RedPoll"@,
            CattleBreed::RedPolledOstland => "RedPolledOstland"@,
            CattleBreed::RedSindhi => "RedSindhi"@,
            CattleBreed::RedSteppe => "RedSteppe"@,
            CattleBreed::Reggiana => "Reggiana"@,
            CattleBreed::Retinta => "Retinta"@,
            CattleBreed::Rojhan => "Rojhan"@,
            CattleBreed::Romagnola => "Romagnola"@,
            CattleBreed::Romosinuano => "Romosinuano"@,
            CattleBreed::RussianBlackPied => "RussianBlackPied"@,
            CattleBreed::RX3 => "RX3"@,
            CattleBreed::Sahiwal => "Sahiwal"@,
            CattleBreed::Salers => "Salers"@,
            CattleBreed::Salorn => "Salorn"@,
            CattleBreed::SanMartinero => "SanMartinero"@,
            CattleBreed::Sanhe => "Sanhe"@,
            CattleBreed::SantaCruz => "SantaCruz"@,
            CattleBreed::SantaGertrudis => "SantaGertrudis"@,
            CattleBreed::Sarabi => "Sarabi"@,
            CattleBreed::Senepol => "Senepol"@,
            CattleBreed::Shetland => "Shetland"@,
            CattleBreed::Shorthorn => "Shorthorn"@,
            CattleBreed::Siboney => "Siboney"@,
            CattleBreed::Simbrah => "Simbrah"@,
            CattleBreed::Simmental => "Simmental"@,
            CattleBreed::Siri => "Siri"@,
            CattleBreed::SlovenianCika => "SlovenianCika"@,
            CattleBreed::SouthDevon => "SouthDevon"@,
            CattleBreed::SudaneseFulani => "SudaneseFulani"@,
            CattleBreed::Sussex => "Sussex"@,
            CattleBreed::SwedishFriesian => "SwedishFriesian"@,
            CattleBreed::SwedishRedPolled => "SwedishRedPolled"@,
            CattleBreed::SwedishRedAndWhite => "SwedishRedAndWhite"@,
            CattleBreed::Tarentaise => "Tarentaise"@,
            CattleBreed::Telemark => "Telemark"@,
            CattleBreed::TexasLonghorn => "TexasLonghorn"@,
            CattleBreed::Texon => "Texon"@,
            CattleBreed::Tharparkar => "Tharparkar"@,
            CattleBreed::Tswana => "Tswana"@,
            CattleBreed::Tuli => "Tuli"@,
            CattleBreed::TurkishGreySteppe => "TurkishGreySteppe"@,
            CattleBreed::UkrainianBeef => "UkrainianBeef"@,
            CattleBreed::UkrainianGrey => "UkrainianGrey"@,
            CattleBreed::UkrainianWhitehead => "UkrainianWhitehead"@,
            CattleBreed::Umblachery => "Umblachery"@,
            CattleBreed::UralBlackPied => "UralBlackPied"@,
            CattleBreed::VestlandFjord => "VestlandFjord"@,
            CattleBreed::VestlandRedPolled => "VestlandRedPolled"@,
            CattleBreed::Vosges => "Vosges"@,
            CattleBreed::Wagyu => "Wagyu"@,
            CattleBreed::WelshBlack => "WelshBlack"@,
            CattleBreed::WhitePark => "WhitePark"@,
            CattleBreed::Yanbian => "Yanbian"@,
        }
    }

    /// The name under which the breed is shown.
    ///
    /// Names that carry marks or punctuation which an identifier cannot hold
    /// are given outright. Every other name is the title-case form of the
    /// identifier.
    pub open spec fn canonical_name(self) -> Seq<char> {
        match self {
            CattleBreed::AnkoleWatusi => "Anokole-Watusi"@,
            CattleBreed::AulieAta => "Aulie-Ata"@,
            CattleBreed::Bearnais => "Béarnais"@,
            CattleBreed::BlancaCacerena => "Blanca Cacereña/White Cáceres"@,
            CattleBreed::BlondeDAquitaine => "Blonde d'Aquitaine"@,
            CattleBreed::ChineseBlackAndWhite => "Chinese Black-and-White"@,
            CattleBreed::CostenoConCuernos => "Costeño con Cuernos"@,
            CattleBreed::DutchBelted => "Dutch Belted (Lakenvelder)"@,
            _ => title_case_of(self.spec_identifier()),
        }
    }

    /// The form in which a text is compared with the listed names: lower
    /// case.
    pub open spec fn normal_form(text: Seq<char>) -> Seq<char> {
        lowercase_of(text)
    }

    /// Whether `name` is one of the names listed for the breed. The listed
    /// names are written in lower case.
    pub open spec fn has_name(self, name: Seq<char>) -> bool {
        match self {
            CattleBreed::Africander => name == "africander"@,
            CattleBreed::Akaushi => name == "akaushi"@,
            CattleBreed::Alberes => name == "alberes"@,
            CattleBreed::Alentejana => name == "alentejana"@,
            CattleBreed::Allmogekor => name == "allmogekor"@,
            CattleBreed::AmericanBreed => name == "american breed"@,
            CattleBreed::AmericanBraford => name == "american braford"@,
            CattleBreed::AmericanWhitePark => name == "american white park"@,
            CattleBreed::Amerifax => name == "amerifax"@,
            CattleBreed::AmritMahal => name == "amrit mahal"@,
            CattleBreed::AnatolianBlack => name == "anatolian black"@,
            CattleBreed::AndalusianBlack => name == "andalusian black"@,
            CattleBreed::AndalusianGrey => name == "andalusian grey"@,
            CattleBreed::Angeln => name == "angeln"@,
            CattleBreed::Angus => name == "angus"@,
            CattleBreed::Ankole => name == "ankole"@,
            CattleBreed::AnkoleWatusi => name == "anokole-watusi"@,
            CattleBreed::ArgentineCriollo => name == "argentine criollo"@,
            CattleBreed::AsturianMountain => name == "asturian mountain"@,
            CattleBreed::AsturianValley => name == "asturian valley"@,
            CattleBreed::Aubrac => name == "aubrac"@,
            CattleBreed::AulieAta => name == "aulie-ata"@,
            CattleBreed::AustralianBraford => name == "australian braford"@,
            CattleBreed::AustralianFriesianSahiwal => name == "australian friesian sahiwal"@,
            CattleBreed::AustralianLowline => name == "australian lowline"@,
            CattleBreed::AustralianMilkingZebu => name == "australian milking zebu"@,
            CattleBreed::Ayrshire => name == "ayrshire"@,
            CattleBreed::Azaouak => name == "azaouak"@,
            CattleBreed::Bachaur => name == "bachaur"@,
            CattleBreed::Baladi => name == "baladi"@,
            CattleBreed::BaltataRomaneasca => name == "baltata romaneasca"@,
            CattleBreed::Barka => name == "barka"@,
            CattleBreed::Barzona => name == "barzona"@,
            CattleBreed::Bazadais => name == "bazadais"@,
            CattleBreed::Bearnais => name == "béarnais"@,
            CattleBreed::Beefalo => name == "beefalo"@,
            CattleBreed::Beefmaker => name == "beefmaker"@,
            CattleBreed::Beefmaster => name == "beefmaster"@,
            CattleBreed::BelarusRed => name == "belarus red"@,
            CattleBreed::BelgianBlue => name == "belgian blue"@,
            CattleBreed::BelgianRed => name == "belgian red"@,
            CattleBreed::BelmontAdaptaur => name == "belmont adaptaur"@,
            CattleBreed::BelmontRed => name == "belmont red"@,
            CattleBreed::BeltedGalloway => name == "belted galloway"@,
            CattleBreed::Bengali => name == "bengali"@,
            CattleBreed::Berrendas => name == "berrendas"@,
            CattleBreed::Bhagnari => name == "bhagnari"@,
            CattleBreed::BlackHereford => name == "black hereford"@,
            CattleBreed::BlacksidedTrondheimAndNorland => name == "blacksided trondheim and norland"@,
            CattleBreed::BlancaCacerena => name == "blanca cacereña/white cáceres"@,
            CattleBreed::BlancoOrejinegro => name == "blanco orejinegro"@,
            CattleBreed::BlondeDAquitaine => name == "blonde d'aquitaine"@,
            CattleBreed::Bonsmara => name == "bonsmara"@,
            CattleBreed::Boran => name == "boran"@,
            CattleBreed::Bordelais => name == "bordelais"@,
            CattleBreed::Brahman => name == "brahman"@,
            CattleBreed::Brahmousin => name == "brahmousin"@,
            CattleBreed::Brangus => name == "brangus"@,
            CattleBreed::Braunvieh => name == "braunvieh"@,
            CattleBreed::BritishWhite => name == "british white"@,
            CattleBreed::BrownSwiss => name == "brown swiss"@,
            CattleBreed::Busa => name == "busa"@,
            CattleBreed::Cachena => name == "cachena"@,
            CattleBreed::CanadianHighland => name == "canadian highland"@,
            CattleBreed::Canadienne => name == "canadienne"@,
            CattleBreed::CanaryIsland => name == "canary island"@,
            CattleBreed::Canchim => name == "canchim"@,
            CattleBreed::CarinthianBlond => name == "carinthian blond"@,
            CattleBreed::Caucasian => name == "caucasian"@,
            CattleBreed::Channi => name == "channi"@,
            CattleBreed::Charbray => name == "charbray"@,
            CattleBreed::Charolais => name == "charolais"@,
            CattleBreed::Chianina => name == "chianina"@,
            CattleBreed::Chinampo => name == "chinampo"@,
            CattleBreed::ChineseBlackAndWhite => name == "chinese black-and-white"@,
            CattleBreed::ChineseMongolian => name == "chinese mongolian"@,
            CattleBreed::ChineseXinjiangBrown => name == "chinese xinjiang brown"@,
            CattleBreed::Cholistani => name == "cholistani"@,
            CattleBreed::Corriente => name == "corriente"@,
            CattleBreed::CostenoConCuernos => name == "costeño con cuernos"@,
            CattleBreed::Dajal => name == "dajal"@,
            CattleBreed::Damascus => name == "damascus"@,
            CattleBreed::Damietta => name == "damietta"@,
            CattleBreed::Dangi => name == "dangi"@,
            CattleBreed::DanishJersey => name == "danish jersey"@,
            CattleBreed::DanishRed => name == "danish red"@,
            CattleBreed::Deoni => name == "deoni"@,
            CattleBreed::Devon => name == "devon"@,
            CattleBreed::Dexter => name == "dexter"@,
            CattleBreed::Dhanni => name == "dhanni"@,
            CattleBreed::Djali => name == "djali"@,
            CattleBreed::Dolafe => name == "dolafe"@,
            CattleBreed::Droughtmaster => name == "droughtmaster"@,
            CattleBreed::Dulong => name == "dulong"@,
            CattleBreed::DutchBelted => name == "dutch belted (lakenvelder)"@,
            CattleBreed::DutchFriesian => name == "dutch friesian"@,
            CattleBreed::EastAnatolianRed => name == "east anatolian red"@,
            CattleBreed::EnderbyIsland => name == "enderby island"@,
            CattleBreed::EnglishLonghorn => name == "english longhorn"@,
            CattleBreed::EstonianRed => name == "estonian red"@,
            CattleBreed::Evolene => name == "evolene"@,
            CattleBreed::Fighting => name == "fighting"@,
            CattleBreed::Finnish => name == "finnish"@,
            CattleBreed::Fjall => name == "fjall"@,
            CattleBreed::FloridaCracker => name == "florida cracker"@,
            CattleBreed::GalicianBlond => name == "galician blond"@,
            CattleBreed::Galloway => name == "galloway"@,
            CattleBreed::Gaolao => name == "gaolao"@,
            CattleBreed::Gascon => name == "gascon"@,
            CattleBreed::Gelbray => name == "gelbray"@,
            CattleBreed::Gelbvieh => name == "gelbvieh"@,
            CattleBreed::GermanAngusMoiled => name == "german angus moiled"@,
            CattleBreed::GermanRedPied => name == "german red pied"@,
            CattleBreed::Gir => name == "gir"@,
            CattleBreed::Glan => name == "glan"@,
            CattleBreed::Gloucester => name == "gloucester"@,
            CattleBreed::Gobra => name == "gobra"@,
            CattleBreed::GreekShorthorn => name == "greek shorthorn"@,
            CattleBreed::GreekSteppe => name == "greek steppe"@,
            CattleBreed::Groningen => name == "groningen"@,
            CattleBreed::Guernsey => name == "guernsey"@,
            CattleBreed::Guzerat => name == "guzerat"@,
            CattleBreed::Hallikar => name == "hallikar"@,
            CattleBreed::Hariana => name == "hariana"@,
            CattleBreed::Harton => name == "harton"@,
            CattleBreed::HaysConverter => name == "hays converter"@,
            CattleBreed::Hereford => name == "hereford"@,
            CattleBreed::Herens => name == "herens"@,
            CattleBreed::Highland => name == "highland"@,
            CattleBreed::Hinterwald => name == "hinterwald"@,
            CattleBreed::HolandoArgentino => name == "holando argentino"@,
            CattleBreed::Holstein => name == "holstein"@,
            CattleBreed::Horro => name == "horro"@,
            CattleBreed::HungarianGrey => name == "hungarian grey"@,
            CattleBreed::Icelandic => name == "icelandic"@,
            CattleBreed::Illawarra => name == "illawarra"@,
            CattleBreed::IndoBrazilian => name == "indo brazilian"@,
            CattleBreed::IrishMoiled => name == "irish moiled"@,
            CattleBreed::IsraeliHolstein => name == "israeli holstein"@,
            CattleBreed::IsraeliRed => name == "israeli red"@,
            CattleBreed::Istoben => name == "istoben"@,
            CattleBreed::JamaicaBlack => name == "jamaica black"@,
            CattleBreed::JamaicaHope => name == "jamaica hope"@,
            CattleBreed::JamaicaRed => name == "jamaica red"@,
            CattleBreed::Jaulan => name == "jaulan"@,
            CattleBreed::Jersey => name == "jersey"@,
            CattleBreed::Kangayam => name == "kangayam"@,
            CattleBreed::Kankrej => name == "kankrej"@,
            CattleBreed::KaranFries => name == "karan fries"@,
            CattleBreed::KaranSwiss => name == "karan swiss"@,
            CattleBreed::Kazakh => name == "kazakh"@,
            CattleBreed::Kenwariya => name == "kenwariya"@,
            CattleBreed::Kerry => name == "kerry"@,
            CattleBreed::Kherigarh => name == "kherigarh"@,
            CattleBreed::Khillari => name == "khillari"@,
            CattleBreed::Kholmogory => name == "kholmogory"@,
            CattleBreed::Kilis => name == "kilis"@,
            CattleBreed::KrishnaValley => name == "krishna valley"@,
            CattleBreed::KurdiBlack => name == "kurdi black"@,
            CattleBreed::Kuri => name == "kuri"@,
            CattleBreed::LatvianBrown => name == "latvian brown"@,
            CattleBreed::Limousin => name == "limousin"@,
            CattleBreed::Limpurger => name == "limpurger"@,
            CattleBreed::LincolnRed => name == "lincoln red"@,
            CattleBreed::LithuanianRed => name == "lithuanian red"@,
            CattleBreed::Lohani => name == "lohani"@,
            CattleBreed::Lourdais => name == "lourdais"@,
            CattleBreed::Luing => name == "luing"@,
            CattleBreed::MadagascarZebu => name == "madagascar zebu"@,
            CattleBreed::MaineAnjou => name == "maine anjou"@,
            CattleBreed::Malvi => name == "malvi"@,
            CattleBreed::Mandalong => name == "mandalong"@,
            CattleBreed::Marchigiana => name == "marchigiana"@,
            CattleBreed::Maremmana => name == "maremmana"@,
            CattleBreed::Masai => name == "masai"@,
            CattleBreed::Mashona => name == "mashona"@,
            CattleBreed::Maure => name == "maure"@,
            CattleBreed::Mazandarani => name == "mazandarani"@,
            CattleBreed::MeuseRhineYssel => name == "meuse rhine yssel"@,
            CattleBreed::Mewati => name == "mewati"@,
            CattleBreed::MilkingDevon => name == "milking devon"@,
            CattleBreed::MilkingShorthorn => name == "milking shorthorn"@,
            CattleBreed::MiniatureZebu => name == "miniature zebu"@,
            CattleBreed::Mirandesa => name == "mirandesa"@,
            CattleBreed::Modicana => name == "modicana"@,
            CattleBreed::Montbeliard => name == "montbeliard"@,
            CattleBreed::Morucha => name == "morucha"@,
            CattleBreed::Murboden => name == "murboden"@,
            CattleBreed::MurrayGrey => name == "murray grey"@,
            CattleBreed::Muturu => name == "muturu"@,
            CattleBreed::Ndama => name == "ndama"@,
            CattleBreed::Nagori => name == "nagori"@,
            CattleBreed::Nanyang => name == "nanyang"@,
            CattleBreed::Nelore => name == "nelore"@,
            CattleBreed::Nguni => name == "nguni"@,
            CattleBreed::Nimari => name == "nimari"@,
            CattleBreed::Normande => name == "normande"@,
            CattleBreed::NorwegianRed => name == "norwegian red"@,
            CattleBreed::Ongole => name == "ongole"@,
            CattleBreed::OrmaBoran => name == "orma boran"@,
            CattleBreed::Oropa => name == "oropa"@,
            CattleBreed::Ovambo => name == "ovambo"@,
            CattleBreed::Parthenais => name == "parthenais"@,
            CattleBreed::PhilippineNative => name == "philippine native"@,
            CattleBreed::Piedmontese => name == "piedmontese"@,
            CattleBreed::Pinzgauer => name == "pinzgauer"@,
            CattleBreed::PolishRed => name == "polish red"@,
            CattleBreed::PolledHereford => name == "polled hereford"@,
            CattleBreed::Ponwar => name == "ponwar"@,
            CattleBreed::Qinchuan => name == "qinchuan"@,
            CattleBreed::Rath => name == "rath"@,
            CattleBreed::Rathi => name == "rathi"@,
            CattleBreed::RatienGray => name == "ratien gray"@,
            CattleBreed::RedAngus => name == "red angus"@,
            CattleBreed::RedBrangus => name == "red brangus"@,
            CattleBreed::RedFulani => name == "red fulani"@,
            CattleBreed::RedPiedFriesian => name == "red pied friesian"@,
            CattleBreed::RedPoll => name == "red poll"@,
            CattleBreed::RedPolledOstland => name == "red polled ostland"@,
            CattleBreed::RedSindhi => name == "red sindhi"@,
            CattleBreed::RedSteppe => name == "red steppe"@,
            CattleBreed::Reggiana => name == "reggiana"@,
            CattleBreed::Retinta => name == "retinta"@,
            CattleBreed::Rojhan => name == "rojhan"@,
            CattleBreed::Romagnola => name == "romagnola"@,
            CattleBreed::Romosinuano => name == "romosinuano"@,
            CattleBreed::RussianBlackPied => name == "russian black pied"@,
            CattleBreed::RX3 => name == "rx3"@,
            CattleBreed::Sahiwal => name == "sahiwal"@,
            CattleBreed::Salers => name == "salers"@,
            CattleBreed::Salorn => name == "salorn"@,
            CattleBreed::SanMartinero => name == "san martinero"@,
            CattleBreed::Sanhe => name == "sanhe"@,
            CattleBreed::SantaCruz => name == "santa cruz"@,
            CattleBreed::SantaGertrudis => name == "santa gertrudis"@,
            CattleBreed::Sarabi => name == "sarabi"@,
            CattleBreed::Senepol => name == "senepol"@,
            CattleBreed::Shetland => name == "shetland"@,
            CattleBreed::Shorthorn => name == "shorthorn"@,
            CattleBreed::Siboney => name == "siboney"@,
            CattleBreed::Simbrah => name == "simbrah"@,
            CattleBreed::Simmental => name == "simmental"@,
            CattleBreed::Siri => name == "siri"@,
            CattleBreed::SlovenianCika => name == "slovenian cika"@,
            CattleBreed::SouthDevon => name == "south devon"@,
            CattleBreed::SudaneseFulani => name == "sudanese fulani"@,
            CattleBreed::Sussex => name == "sussex"@,
            CattleBreed::SwedishFriesian => name == "swedish friesian"@,
            CattleBreed::SwedishRedPolled => name == "swedish red polled"@,
            CattleBreed::SwedishRedAndWhite => name == "swedish red and white"@,
            CattleBreed::Tarentaise => name == "tarentaise"@,
            CattleBreed::Telemark => name == "telemark"@,
            CattleBreed::TexasLonghorn => name == "texas longhorn"@,
            CattleBreed::Texon => name == "texon"@,
            CattleBreed::Tharparkar => name == "tharparkar"@,
            CattleBreed::Tswana => name == "tswana"@,
            CattleBreed::Tuli => name == "tuli"@,
            CattleBreed::TurkishGreySteppe => name == "turkish grey steppe"@,
            CattleBreed::UkrainianBeef => name == "ukrainian beef"@,
            CattleBreed::UkrainianGrey => name == "ukrainian grey"@,
            CattleBreed::UkrainianWhitehead => name == "ukrainian whitehead"@,
            CattleBreed::Umblachery => name == "umblachery"@,
            CattleBreed::UralBlackPied => name == "ural black pied"@,
            CattleBreed::VestlandFjord => name == "vestland fjord"@,
            CattleBreed::VestlandRedPolled => name == "vestland red polled"@,
            CattleBreed::Vosges => name == "vosges"@,
            CattleBreed::Wagyu => name == "wagyu"@,
            CattleBreed::WelshBlack => name == "welsh black"@,
            CattleBreed::WhitePark => name == "white park"@,
            CattleBreed::Yanbian => name == "yanbian"@,
        }
    }

    /// The breed for which `name` is listed, if it is listed at all.
    pub open spec fn listed_as(name: Seq<char>) -> Option<CattleBreed> {
        if exists|breed: CattleBreed| breed.has_name(name) {
            Some(choose|breed: CattleBreed| breed.has_name(name))
        } else {
            None
        }
    }

    /// The breed that `text` names: the one for which the normal form of
    /// `text` is listed.
    pub open spec fn named_by(text: Seq<char>) -> Option<CattleBreed> {
        Self::listed_as(Self::normal_form(text))
    }

    /// The breed's identifier.
    pub fn identifier(&self) -> (word: &'static str)
        ensures
            word@ == self.spec_identifier(),
    {
        match self {
            CattleBreed::Africander => "Africander",
            CattleBreed::Akaushi => "Akaushi",
            CattleBreed::Alberes => "Alberes",
            CattleBreed::Alentejana => "Alentejana",
            CattleBreed::Allmogekor => "Allmogekor",
            CattleBreed::AmericanBreed => "AmericanBreed",
            CattleBreed::AmericanBraford => "AmericanBraford",
            CattleBreed::AmericanWhitePark => "AmericanWhitePark",
            CattleBreed::Amerifax => "Amerifax",
            CattleBreed::AmritMahal => "AmritMahal",
            CattleBreed::AnatolianBlack => "AnatolianBlack",
            CattleBreed::AndalusianBlack => "AndalusianBlack",
            CattleBreed::AndalusianGrey => "AndalusianGrey",
            CattleBreed::Angeln => "Angeln",
            CattleBreed::Angus => "Angus",
            CattleBreed::Ankole => "Ankole",
            CattleBreed::AnkoleWatusi => "AnkoleWatusi",
            CattleBreed::ArgentineCriollo => "ArgentineCriollo",
            CattleBreed::AsturianMountain => "AsturianMountain",
            CattleBreed::AsturianValley => "AsturianValley",
            CattleBreed::Aubrac => "Aubrac",
            CattleBreed::AulieAta => "AulieAta",
            CattleBreed::AustralianBraford => "AustralianBraford",
            CattleBreed::AustralianFriesianSahiwal => "AustralianFriesianSahiwal",
            CattleBreed::AustralianLowline => "AustralianLowline",
            CattleBreed::AustralianMilkingZebu => "AustralianMilkingZebu",
            CattleBreed::Ayrshire => "Ayrshire",
            CattleBreed::Azaouak => "Azaouak",
            CattleBreed::Bachaur => "Bachaur",
            CattleBreed::Baladi => "Baladi",
            CattleBreed::BaltataRomaneasca => "BaltataRomaneasca",
            CattleBreed::Barka => "Barka",
            CattleBreed::Barzona => "Barzona",
            CattleBreed::Bazadais => "Bazadais",
            CattleBreed::Bearnais => "Bearnais",
            CattleBreed::Beefalo => "Beefalo",
            CattleBreed::Beefmaker => "Beefmaker",
            CattleBreed::Beefmaster => "Beefmaster",
            CattleBreed::BelarusRed => "BelarusRed",
            CattleBreed::BelgianBlue => "BelgianBlue",
            CattleBreed::BelgianRed => "BelgianRed",
            CattleBreed::BelmontAdaptaur => "BelmontAdaptaur",
            CattleBreed::BelmontRed => "BelmontRed",
            CattleBreed::BeltedGalloway => "BeltedGalloway",
            CattleBreed::Bengali => "Bengali",
            CattleBreed::Berrendas => "Berrendas",
            CattleBreed::Bhagnari => "Bhagnari",
            CattleBreed::BlackHereford => "BlackHereford",
            CattleBreed::BlacksidedTrondheimAndNorland => "BlacksidedTrondheimAndNorland",
            CattleBreed::BlancaCacerena => "BlancaCacerena",
            CattleBreed::BlancoOrejinegro => "BlancoOrejinegro",
            CattleBreed::BlondeDAquitaine => "BlondeDAquitaine",
            CattleBreed::Bonsmara => "Bonsmara",
            CattleBreed::Boran => "Boran",
            CattleBreed::Bordelais => "Bordelais",
            CattleBreed::Brahman => "Brahman",
            CattleBreed::Brahmousin => "Brahmousin",
            CattleBreed::Brangus => "Brangus",
            CattleBreed::Braunvieh => "Braunvieh",
            CattleBreed::BritishWhite => "BritishWhite",
            CattleBreed::BrownSwiss => "BrownSwiss",
            CattleBreed::Busa => "Busa",
            CattleBreed::Cachena => "Cachena",
            CattleBreed::CanadianHighland => "CanadianHighland",
            CattleBreed::Canadienne => "Canadienne",
            CattleBreed::CanaryIsland => "CanaryIsland",
            CattleBreed::Canchim => "Canchim",
            CattleBreed::CarinthianBlond => "CarinthianBlond",
            CattleBreed::Caucasian => "Caucasian",
            CattleBreed::Channi => "Channi",
            CattleBreed::Charbray => "Charbray",
            CattleBreed::Charolais => "Charolais",
            CattleBreed::Chianina => "Chianina",
            CattleBreed::Chinampo => "Chinampo",
            CattleBreed::ChineseBlackAndWhite => "ChineseBlackAndWhite",
            CattleBreed::ChineseMongolian => "ChineseMongolian",
            CattleBreed::ChineseXinjiangBrown => "ChineseXinjiangBrown",
            CattleBreed::Cholistani => "Cholistani",
            CattleBreed::Corriente => "Corriente",
            CattleBreed::CostenoConCuernos => "CostenoConCuernos",
            CattleBreed::Dajal => "Dajal",
            CattleBreed::Damascus => "Damascus",
            CattleBreed::Damietta => "Damietta",
            CattleBreed::Dangi => "Dangi",
            CattleBreed::DanishJersey => "DanishJersey",
            CattleBreed::DanishRed => "DanishRed",
            CattleBreed::Deoni => "Deoni",
            CattleBreed::Devon => "Devon",
            CattleBreed::Dexter => "Dexter",
            CattleBreed::Dhanni => "Dhanni",
            CattleBreed::Djali => "Djali",
            CattleBreed::Dolafe => "Dolafe",
            CattleBreed::Droughtmaster => "Droughtmaster",
            CattleBreed::Dulong => "Dulong",
            CattleBreed::DutchBelted => "DutchBelted",
            CattleBreed::DutchFriesian => "DutchFriesian",
            CattleBreed::EastAnatolianRed => "EastAnatolianRed",
            CattleBreed::EnderbyIsland => "EnderbyIsland",
            CattleBreed::EnglishLonghorn => "EnglishLonghorn",
            CattleBreed::EstonianRed => "EstonianRed",
            CattleBreed::Evolene => "Evolene",
            CattleBreed::Fighting => "Fighting",
            CattleBreed::Finnish => "Finnish",
            CattleBreed::Fjall => "Fjall",
            CattleBreed::FloridaCracker => "FloridaCracker",
            CattleBreed::GalicianBlond => "GalicianBlond",
            CattleBreed::Galloway => "Galloway",
            CattleBreed::Gaolao => "Gaolao",
            CattleBreed::Gascon => "Gascon",
            CattleBreed::Gelbray => "Gelbray",
            CattleBreed::Gelbvieh => "Gelbvieh",
            CattleBreed::GermanAngusMoiled => "GermanAngusMoiled",
            CattleBreed::GermanRedPied => "GermanRedPied",
            CattleBreed::Gir => "Gir",
            CattleBreed::Glan => "Glan",
            CattleBreed::Gloucester => "Gloucester",
            CattleBreed::Gobra => "Gobra",
            CattleBreed::GreekShorthorn => "GreekShorthorn",
            CattleBreed::GreekSteppe => "GreekSteppe",
            CattleBreed::Groningen => "Groningen",
            CattleBreed::Guernsey => "Guernsey",
            CattleBreed::Guzerat => "Guzerat",
            CattleBreed::Hallikar => "Hallikar",
            CattleBreed::Hariana => "Hariana",
            CattleBreed::Harton => "Harton",
            CattleBreed::HaysConverter => "HaysConverter",
            CattleBreed::Hereford => "Hereford",
            CattleBreed::Herens => "Herens",
            CattleBreed::Highland => "Highland",
            CattleBreed::Hinterwald => "Hinterwald",
            CattleBreed::HolandoArgentino => "HolandoArgentino",
            CattleBreed::Holstein => "Holstein",
            CattleBreed::Horro => "Horro",
            CattleBreed::HungarianGrey => "HungarianGrey",
            CattleBreed::Icelandic => "Icelandic",
            CattleBreed::Illawarra => "Illawarra",
            CattleBreed::IndoBrazilian => "IndoBrazilian",
            CattleBreed::IrishMoiled => "IrishMoiled",
            CattleBreed::IsraeliHolstein => "IsraeliHolstein",
            CattleBreed::IsraeliRed => "IsraeliRed",
            CattleBreed::Istoben => "Istoben",
            CattleBreed::JamaicaBlack => "JamaicaBlack",
            CattleBreed::JamaicaHope => "JamaicaHope",
            CattleBreed::JamaicaRed => "JamaicaRed",
            CattleBreed::Jaulan => "Jaulan",
            CattleBreed::Jersey => "Jersey",
            CattleBreed::Kangayam => "Kangayam",
            CattleBreed::Kankrej => "Kankrej",
            CattleBreed::KaranFries => "KaranFries",
            CattleBreed::KaranSwiss => "KaranSwiss",
            CattleBreed::Kazakh => "Kazakh",
            CattleBreed::Kenwariya => "Kenwariya",
            CattleBreed::Kerry => "Kerry",
            CattleBreed::Kherigarh => "Kherigarh",
            CattleBreed::Khillari => "Khillari",
            CattleBreed::Kholmogory => "Kholmogory",
            CattleBreed::Kilis => "Kilis",
            CattleBreed::KrishnaValley => "KrishnaValley",
            CattleBreed::KurdiBlack => "KurdiBlack",
            CattleBreed::Kuri => "Kuri",
            CattleBreed::LatvianBrown => "LatvianBrown",
            CattleBreed::Limousin => "Limousin",
            CattleBreed::Limpurger => "Limpurger",
            CattleBreed::LincolnRed => "LincolnRed",
            CattleBreed::LithuanianRed => "LithuanianRed",
            CattleBreed::Lohani => "Lohani",
            CattleBreed::Lourdais => "Lourdais",
            CattleBreed::Luing => "Luing",
            CattleBreed::MadagascarZebu => "MadagascarZebu",
            CattleBreed::MaineAnjou => "MaineAnjou",
            CattleBreed::Malvi => "Malvi",
            CattleBreed::Mandalong => "Mandalong",
            CattleBreed::Marchigiana => "Marchigiana",
            CattleBreed::Maremmana => "Maremmana",
            CattleBreed::Masai => "Masai",
            CattleBreed::Mashona => "Mashona",
            CattleBreed::Maure => "Maure",
            CattleBreed::Mazandarani => "Mazandarani",
            CattleBreed::MeuseRhineYssel => "MeuseRhineYssel",
            CattleBreed::Mewati => "Mewati",
            CattleBreed::MilkingDevon => "MilkingDevon",
            CattleBreed::MilkingShorthorn => "MilkingShorthorn",
            CattleBreed::MiniatureZebu => "MiniatureZebu",
            CattleBreed::Mirandesa => "Mirandesa",
            CattleBreed::Modicana => "Modicana",
            CattleBreed::Montbeliard => "Montbeliard",
            CattleBreed::Morucha => "Morucha",
            CattleBreed::Murboden => "Murboden",
            CattleBreed::MurrayGrey => "MurrayGrey",
            CattleBreed::Muturu => "Muturu",
            CattleBreed::Ndama => "Ndama",
            CattleBreed::Nagori => "Nagori",
            CattleBreed::Nanyang => "Nanyang",
            CattleBreed::Nelore => "Nelore",
            CattleBreed::Nguni => "Nguni",
            CattleBreed::Nimari => "Nimari",
            CattleBreed::Normande => "Normande",
            CattleBreed::NorwegianRed => "NorwegianRed",
            CattleBreed::Ongole => "Ongole",
            CattleBreed::OrmaBoran => "OrmaBoran",
            CattleBreed::Oropa => "Oropa",
            CattleBreed::Ovambo => "Ovambo",
            CattleBreed::Parthenais => "Parthenais",
            CattleBreed::PhilippineNative => "PhilippineNative",
            CattleBreed::Piedmontese => "Piedmontese",
            CattleBreed::Pinzgauer => "Pinzgauer",
            CattleBreed::PolishRed => "PolishRed",
            CattleBreed::PolledHereford => "PolledHereford",
            CattleBreed::Ponwar => "Ponwar",
            CattleBreed::Qinchuan => "Qinchuan",
            CattleBreed::Rath => "Rath",
            CattleBreed::Rathi => "Rathi",
            CattleBreed::RatienGray => "RatienGray",
            CattleBreed::RedAngus => "RedAngus",
            CattleBreed::RedBrangus => "RedBrangus",
            CattleBreed::RedFulani => "RedFulani",
            CattleBreed::RedPiedFriesian => "RedPiedFriesian",
            CattleBreed::RedPoll => "RedPoll",
            CattleBreed::RedPolledOstland => "RedPolledOstland",
            CattleBreed::RedSindhi => "RedSindhi",
            CattleBreed::RedSteppe => "RedSteppe",
            CattleBreed::Reggiana => "Reggiana",
            CattleBreed::Retinta => "Retinta",
            CattleBreed::Rojhan => "Rojhan",
            CattleBreed::Romagnola => "Romagnola",
            CattleBreed::Romosinuano => "Romosinuano",
            CattleBreed::RussianBlackPied => "RussianBlackPied",
            CattleBreed::RX3 => "RX3",
            CattleBreed::Sahiwal => "Sahiwal",
            CattleBreed::Salers => "Salers",
            CattleBreed::Salorn => "Salorn",
            CattleBreed::SanMartinero => "SanMartinero",
            CattleBreed::Sanhe => "Sanhe",
            CattleBreed::SantaCruz => "SantaCruz",
            CattleBreed::SantaGertrudis => "SantaGertrudis",
            CattleBreed::Sarabi => "Sarabi",
            CattleBreed::Senepol => "Senepol",
            CattleBreed::Shetland => "Shetland",
            CattleBreed::Shorthorn => "Shorthorn",
            CattleBreed::Siboney => "Siboney",
            CattleBreed::Simbrah => "Simbrah",
            CattleBreed::Simmental => "Simmental",
            CattleBreed::Siri => "Siri",
            CattleBreed::SlovenianCika => "SlovenianCika",
            CattleBreed::SouthDevon => "SouthDevon",
            CattleBreed::SudaneseFulani => "SudaneseFulani",
            CattleBreed::Sussex => "Sussex",
            CattleBreed::SwedishFriesian => "SwedishFriesian",
            CattleBreed::SwedishRedPolled => "SwedishRedPolled",
            CattleBreed::SwedishRedAndWhite => "SwedishRedAndWhite",
            CattleBreed::Tarentaise => "Tarentaise",
            CattleBreed::Telemark => "Telemark",
            CattleBreed::TexasLonghorn => "TexasLonghorn",
            CattleBreed::Texon => "Texon",
            CattleBreed::Tharparkar => "Tharparkar",
            CattleBreed::Tswana => "Tswana",
            CattleBreed::Tuli => "Tuli",
            CattleBreed::TurkishGreySteppe => "TurkishGreySteppe",
            CattleBreed::UkrainianBeef => "UkrainianBeef",
            CattleBreed::UkrainianGrey => "UkrainianGrey",
            CattleBreed::UkrainianWhitehead => "UkrainianWhitehead",
            CattleBreed::Umblachery => "Umblachery",
            CattleBreed::UralBlackPied => "UralBlackPied",
            CattleBreed::VestlandFjord => "VestlandFjord",
            CattleBreed::VestlandRedPolled => "VestlandRedPolled",
            CattleBreed::Vosges => "Vosges",
            CattleBreed::Wagyu => "Wagyu",
            CattleBreed::WelshBlack => "WelshBlack",
            CattleBreed::WhitePark => "WhitePark",
            CattleBreed::Yanbian => "Yanbian",
        }
    }

    /// The name under which the breed is shown.
    pub fn to_string(&self) -> (shown: String)
        ensures
            shown@ == self.canonical_name(),
    {
        match self {
            CattleBreed::AnkoleWatusi => "Anokole-Watusi".to_string(),
            CattleBreed::AulieAta => "Aulie-Ata".to_string(),
            CattleBreed::Bearnais => "Béarnais".to_string(),
            CattleBreed::BlancaCacerena => "Blanca Cacereña/White Cáceres".to_string(),
            CattleBreed::BlondeDAquitaine => "Blonde d'Aquitaine".to_string(),
            CattleBreed::ChineseBlackAndWhite => "Chinese Black-and-White".to_string(),
            CattleBreed::CostenoConCuernos => "Costeño con Cuernos".to_string(),
            CattleBreed::DutchBelted => "Dutch Belted (Lakenvelder)".to_string(),
            _ => to_title_case(self.identifier()),
        }
    }

    /// Looks `name` up among the listed names. The comparison is exact, so
    /// `name` is expected in normal form.
    pub fn from_normalized(name: &str) -> (found: Option<CattleBreed>)
        ensures
            found == Self::listed_as(name@),
    {
        let found = Self::search(name);
        proof {
            if let Some(breed) = found {
                Self::lemma_listed_name_is_found(name@, breed);
            }
        }
        found
    }

    /// Goes through the listed names in order and stops at the first that
    /// equals `name`.
    #[verifier::rlimit(30)]
    fn search(name: &str) -> (found: Option<CattleBreed>)
        ensures
            match found {
                Some(breed) => breed.has_name(name@),
                None => forall|breed: CattleBreed| !breed.has_name(name@),
            },
    {
        if same_text(name, "africander") {
            return Some(CattleBreed::Africander);
        }
        if same_text(name, "akaushi") {
            return Some(CattleBreed::Akaushi);
        }
        if same_text(name, "alberes") {
            return Some(CattleBreed::Alberes);
        }
        if same_text(name, "alentejana") {
            return Some(CattleBreed::Alentejana);
        }
        if same_text(name, "allmogekor") {
            return Some(CattleBreed::Allmogekor);
        }
        if same_text(name, "american breed") {
            return Some(CattleBreed::AmericanBreed);
        }
        if same_text(name, "american braford") {
            return Some(CattleBreed::AmericanBraford);
        }
        if same_text(name, "american white park") {
            return Some(CattleBreed::AmericanWhitePark);
        }
        if same_text(name, "amerifax") {
            return Some(CattleBreed::Amerifax);
        }
        if same_text(name, "amrit mahal") {
            return Some(CattleBreed::AmritMahal);
        }
        if same_text(name, "anatolian black") {
            return Some(CattleBreed::AnatolianBlack);
        }
        if same_text(name, "andalusian black") {
            return Some(CattleBreed::AndalusianBlack);
        }
        if same_text(name, "andalusian grey") {
            return Some(CattleBreed::AndalusianGrey);
        }
        if same_text(name, "angeln") {
            return Some(CattleBreed::Angeln);
        }
        if same_text(name, "angus") {
            return Some(CattleBreed::Angus);
        }
        if same_text(name, "ankole") {
            return Some(CattleBreed::Ankole);
        }
        if same_text(name, "anokole-watusi") {
            return Some(CattleBreed::AnkoleWatusi);
        }
        if same_text(name, "argentine criollo") {
            return Some(CattleBreed::ArgentineCriollo);
        }
        if same_text(name, "asturian mountain") {
            return Some(CattleBreed::AsturianMountain);
        }
        if same_text(name, "asturian valley") {
            return Some(CattleBreed::AsturianValley);
        }
        if same_text(name, "aubrac") {
            return Some(CattleBreed::Aubrac);
        }
        if same_text(name, "aulie-ata") {
            return Some(CattleBreed::AulieAta);
        }
        if same_text(name, "australian braford") {
            return Some(CattleBreed::AustralianBraford);
        }
        if same_text(name, "australian friesian sahiwal") {
            return Some(CattleBreed::AustralianFriesianSahiwal);
        }
        if same_text(name, "australian lowline") {
            return Some(CattleBreed::AustralianLowline);
        }
        if same_text(name, "australian milking zebu") {
            return Some(CattleBreed::AustralianMilkingZebu);
        }
        if same_text(name, "ayrshire") {
            return Some(CattleBreed::Ayrshire);
        }
        if same_text(name, "azaouak") {
            return Some(CattleBreed::Azaouak);
        }
        if same_text(name, "bachaur") {
            return Some(CattleBreed::Bachaur);
        }
        if same_text(name, "baladi") {
            return Some(CattleBreed::Baladi);
        }
        if same_text(name, "baltata romaneasca") {
            return Some(CattleBreed::BaltataRomaneasca);
        }
        if same_text(name, "barka") {
            return Some(CattleBreed::Barka);
        }
        if same_text(name, "barzona") {
            return Some(CattleBreed::Barzona);
        }
        if same_text(name, "bazadais") {
            return Some(CattleBreed::Bazadais);
        }
        if same_text(name, "béarnais") {
            return Some(CattleBreed::Bearnais);
        }
        if same_text(name, "beefalo") {
            return Some(CattleBreed::Beefalo);
        }
        if same_text(name, "beefmaker") {
            return Some(CattleBreed::Beefmaker);
        }
        if same_text(name, "beefmaster") {
            return Some(CattleBreed::Beefmaster);
        }
        if same_text(name, "belarus red") {
            return Some(CattleBreed::BelarusRed);
        }
        if same_text(name, "belgian blue") {
            return Some(CattleBreed::BelgianBlue);
        }
        if same_text(name, "belgian red") {
            return Some(CattleBreed::BelgianRed);
        }
        if same_text(name, "belmont adaptaur") {
            return Some(CattleBreed::BelmontAdaptaur);
        }
        if same_text(name, "belmont red") {
            return Some(CattleBreed::BelmontRed);
        }
        if same_text(name, "belted galloway") {
            return Some(CattleBreed::BeltedGalloway);
        }
        if same_text(name, "bengali") {
            return Some(CattleBreed::Bengali);
        }
        if same_text(name, "berrendas") {
            return Some(CattleBreed::Berrendas);
        }
        if same_text(name, "bhagnari") {
            return Some(CattleBreed::Bhagnari);
        }
        if same_text(name, "black hereford") {
            return Some(CattleBreed::BlackHereford);
        }
        if same_text(name, "blacksided trondheim and norland") {
            return Some(CattleBreed::BlacksidedTrondheimAndNorland);
        }
        if same_text(name, "blanca cacereña/white cáceres") {
            return Some(CattleBreed::BlancaCacerena);
        }
        if same_text(name, "blanco orejinegro") {
            return Some(CattleBreed::BlancoOrejinegro);
        }
        if same_text(name, "blonde d'aquitaine") {
            return Some(CattleBreed::BlondeDAquitaine);
        }
        if same_text(name, "bonsmara") {
            return Some(CattleBreed::Bonsmara);
        }
        if same_text(name, "boran") {
            return Some(CattleBreed::Boran);
        }
        if same_text(name, "bordelais") {
            return Some(CattleBreed::Bordelais);
        }
        if same_text(name, "brahman") {
            return Some(CattleBreed::Brahman);
        }
        if same_text(name, "brahmousin") {
            return Some(CattleBreed::Brahmousin);
        }
        if same_text(name, "brangus") {
            return Some(CattleBreed::Brangus);
        }
        if same_text(name, "braunvieh") {
            return Some(CattleBreed::Braunvieh);
        }
        if same_text(name, "british white") {
            return Some(CattleBreed::BritishWhite);
        }
        if same_text(name, "brown swiss") {
            return Some(CattleBreed::BrownSwiss);
        }
        if same_text(name, "busa") {
            return Some(CattleBreed::Busa);
        }
        if same_text(name, "cachena") {
            return Some(CattleBreed::Cachena);
        }
        if same_text(name, "canadian highland") {
            return Some(CattleBreed::CanadianHighland);
        }
        if same_text(name, "canadienne") {
            return Some(CattleBreed::Canadienne);
        }
        if same_text(name, "canary island") {
            return Some(CattleBreed::CanaryIsland);
        }
        if same_text(name, "canchim") {
            return Some(CattleBreed::Canchim);
        }
        if same_text(name, "carinthian blond") {
            return Some(CattleBreed::CarinthianBlond);
        }
        if same_text(name, "caucasian") {
            return Some(CattleBreed::Caucasian);
        }
        if same_text(name, "channi") {
            return Some(CattleBreed::Channi);
        }
        if same_text(name, "charbray") {
            return Some(CattleBreed::Charbray);
        }
        if same_text(name, "charolais") {
            return Some(CattleBreed::Charolais);
        }
        if same_text(name, "chianina") {
            return Some(CattleBreed::Chianina);
        }
        if same_text(name, "chinampo") {
            return Some(CattleBreed::Chinampo);
        }
        if same_text(name, "chinese black-and-white") {
            return Some(CattleBreed::ChineseBlackAndWhite);
        }
        if same_text(name, "chinese mongolian") {
            return Some(CattleBreed::ChineseMongolian);
        }
        if same_text(name, "chinese xinjiang brown") {
            return Some(CattleBreed::ChineseXinjiangBrown);
        }
        if same_text(name, "cholistani") {
            return Some(CattleBreed::Cholistani);
        }
        if same_text(name, "corriente") {
            return Some(CattleBreed::Corriente);
        }
        if same_text(name, "costeño con cuernos") {
            return Some(CattleBreed::CostenoConCuernos);
        }
        if same_text(name, "dajal") {
            return Some(CattleBreed::Dajal);
        }
        if same_text(name, "damascus") {
            return Some(CattleBreed::Damascus);
        }
        if same_text(name, "damietta") {
            return Some(CattleBreed::Damietta);
        }
        if same_text(name, "dangi") {
            return Some(CattleBreed::Dangi);
        }
        if same_text(name, "danish jersey") {
            return Some(CattleBreed::DanishJersey);
        }
        if same_text(name, "danish red") {
            return Some(CattleBreed::DanishRed);
        }
        if same_text(name, "deoni") {
            return Some(CattleBreed::Deoni);
        }
        if same_text(name, "devon") {
            return Some(CattleBreed::Devon);
        }
        if same_text(name, "dexter") {
            return Some(CattleBreed::Dexter);
        }
        if same_text(name, "dhanni") {
            return Some(CattleBreed::Dhanni);
        }
        if same_text(name, "djali") {
            return Some(CattleBreed::Djali);
        }
        if same_text(name, "dolafe") {
            return Some(CattleBreed::Dolafe);
        }
        if same_text(name, "droughtmaster") {
            return Some(CattleBreed::Droughtmaster);
        }
        if same_text(name, "dulong") {
            return Some(CattleBreed::Dulong);
        }
        if same_text(name, "dutch belted (lakenvelder)") {
            return Some(CattleBreed::DutchBelted);
        }
        if same_text(name, "dutch friesian") {
            return Some(CattleBreed::DutchFriesian);
        }
        if same_text(name, "east anatolian red") {
            return Some(CattleBreed::EastAnatolianRed);
        }
        if same_text(name, "enderby island") {
            return Some(CattleBreed::EnderbyIsland);
        }
        if same_text(name, "english longhorn") {
            return Some(CattleBreed::EnglishLonghorn);
        }
        if same_text(name, "estonian red") {
            return Some(CattleBreed::EstonianRed);
        }
        if same_text(name, "evolene") {
            return Some(CattleBreed::Evolene);
        }
        if same_text(name, "fighting") {
            return Some(CattleBreed::Fighting);
        }
        if same_text(name, "finnish") {
            return Some(CattleBreed::Finnish);
        }
        if same_text(name, "fjall") {
            return Some(CattleBreed::Fjall);
        }
        if same_text(name, "florida cracker") {
            return Some(CattleBreed::FloridaCracker);
        }
        if same_text(name, "galician blond") {
            return Some(CattleBreed::GalicianBlond);
        }
        if same_text(name, "galloway") {
            return Some(CattleBreed::Galloway);
        }
        if same_text(name, "gaolao") {
            return Some(CattleBreed::Gaolao);
        }
        if same_text(name, "gascon") {
            return Some(CattleBreed::Gascon);
        }
        if same_text(name, "gelbray") {
            return Some(CattleBreed::Gelbray);
        }
        if same_text(name, "gelbvieh") {
            return Some(CattleBreed::Gelbvieh);
        }
        if same_text(name, "german angus moiled") {
            return Some(CattleBreed::GermanAngusMoiled);
        }
        if same_text(name, "german red pied") {
            return Some(CattleBreed::GermanRedPied);
        }
        if same_text(name, "gir") {
            return Some(CattleBreed::Gir);
        }
        if same_text(name, "glan") {
            return Some(CattleBreed::Glan);
        }
        if same_text(name, "gloucester") {
            return Some(CattleBreed::Gloucester);
        }
        if same_text(name, "gobra") {
            return Some(CattleBreed::Gobra);
        }
        if same_text(name, "greek shorthorn") {
            return Some(CattleBreed::GreekShorthorn);
        }
        if same_text(name, "greek steppe") {
            return Some(CattleBreed::GreekSteppe);
        }
        if same_text(name, "groningen") {
            return Some(CattleBreed::Groningen);
        }
        if same_text(name, "guernsey") {
            return Some(CattleBreed::Guernsey);
        }
        if same_text(name, "guzerat") {
            return Some(CattleBreed::Guzerat);
        }
        if same_text(name, "hallikar") {
            return Some(CattleBreed::Hallikar);
        }
        if same_text(name, "hariana") {
            return Some(CattleBreed::Hariana);
        }
        if same_text(name, "harton") {
            return Some(CattleBreed::Harton);
        }
        if same_text(name, "hays converter") {
            return Some(CattleBreed::HaysConverter);
        }
        if same_text(name, "hereford") {
            return Some(CattleBreed::Hereford);
        }
        if same_text(name, "herens") {
            return Some(CattleBreed::Herens);
        }
        if same_text(name, "highland") {
            return Some(CattleBreed::Highland);
        }
        if same_text(name, "hinterwald") {
            return Some(CattleBreed::Hinterwald);
        }
        if same_text(name, "holando argentino") {
            return Some(CattleBreed::HolandoArgentino);
        }
        if same_text(name, "holstein") {
            return Some(CattleBreed::Holstein);
        }
        if same_text(name, "horro") {
            return Some(CattleBreed::Horro);
        }
        if same_text(name, "hungarian grey") {
            return Some(CattleBreed::HungarianGrey);
        }
        if same_text(name, "icelandic") {
            return Some(CattleBreed::Icelandic);
        }
        if same_text(name, "illawarra") {
            return Some(CattleBreed::Illawarra);
        }
        if same_text(name, "indo brazilian") {
            return Some(CattleBreed::IndoBrazilian);
        }
        if same_text(name, "irish moiled") {
            return Some(CattleBreed::IrishMoiled);
        }
        if same_text(name, "israeli holstein") {
            return Some(CattleBreed::IsraeliHolstein);
        }
        if same_text(name, "israeli red") {
            return Some(CattleBreed::IsraeliRed);
        }
        if same_text(name, "istoben") {
            return Some(CattleBreed::Istoben);
        }
        if same_text(name, "jamaica black") {
            return Some(CattleBreed::JamaicaBlack);
        }
        if same_text(name, "jamaica hope") {
            return Some(CattleBreed::JamaicaHope);
        }
        if same_text(name, "jamaica red") {
            return Some(CattleBreed::JamaicaRed);
        }
        if same_text(name, "jaulan") {
            return Some(CattleBreed::Jaulan);
        }
        if same_text(name, "jersey") {
            return Some(CattleBreed::Jersey);
        }
        if same_text(name, "kangayam") {
            return Some(CattleBreed::Kangayam);
        }
        if same_text(name, "kankrej") {
            return Some(CattleBreed::Kankrej);
        }
        if same_text(name, "karan fries") {
            return Some(CattleBreed::KaranFries);
        }
        if same_text(name, "karan swiss") {
            return Some(CattleBreed::KaranSwiss);
        }
        if same_text(name, "kazakh") {
            return Some(CattleBreed::Kazakh);
        }
        if same_text(name, "kenwariya") {
            return Some(CattleBreed::Kenwariya);
        }
        if same_text(name, "kerry") {
            return Some(CattleBreed::Kerry);
        }
        if same_text(name, "kherigarh") {
            return Some(CattleBreed::Kherigarh);
        }
        if same_text(name, "khillari") {
            return Some(CattleBreed::Khillari);
        }
        if same_text(name, "kholmogory") {
            return Some(CattleBreed::Kholmogory);
        }
        if same_text(name, "kilis") {
            return Some(CattleBreed::Kilis);
        }
        if same_text(name, "krishna valley") {
            return Some(CattleBreed::KrishnaValley);
        }
        if same_text(name, "kurdi black") {
            return Some(CattleBreed::KurdiBlack);
        }
        if same_text(name, "kuri") {
            return Some(CattleBreed::Kuri);
        }
        if same_text(name, "latvian brown") {
            return Some(CattleBreed::LatvianBrown);
        }
        if same_text(name, "limousin") {
            return Some(CattleBreed::Limousin);
        }
        if same_text(name, "limpurger") {
            return Some(CattleBreed::Limpurger);
        }
        if same_text(name, "lincoln red") {
            return Some(CattleBreed::LincolnRed);
        }
        if same_text(name, "lithuanian red") {
            return Some(CattleBreed::LithuanianRed);
        }
        if same_text(name, "lohani") {
            return Some(CattleBreed::Lohani);
        }
        if same_text(name, "lourdais") {
            return Some(CattleBreed::Lourdais);
        }
        if same_text(name, "luing") {
            return Some(CattleBreed::Luing);
        }
        if same_text(name, "madagascar zebu") {
            return Some(CattleBreed::MadagascarZebu);
        }
        if same_text(name, "maine anjou") {
            return Some(CattleBreed::MaineAnjou);
        }
        if same_text(name, "malvi") {
            return Some(CattleBreed::Malvi);
        }
        if same_text(name, "mandalong") {
            return Some(CattleBreed::Mandalong);
        }
        if same_text(name, "marchigiana") {
            return Some(CattleBreed::Marchigiana);
        }
        if same_text(name, "maremmana") {
            return Some(CattleBreed::Maremmana);
        }
        if same_text(name, "masai") {
            return Some(CattleBreed::Masai);
        }
        if same_text(name, "mashona") {
            return Some(CattleBreed::Mashona);
        }
        if same_text(name, "maure") {
            return Some(CattleBreed::Maure);
        }
        if same_text(name, "mazandarani") {
            return Some(CattleBreed::Mazandarani);
        }
        if same_text(name, "meuse rhine yssel") {
            return Some(CattleBreed::MeuseRhineYssel);
        }
        if same_text(name, "mewati") {
            return Some(CattleBreed::Mewati);
        }
        if same_text(name, "milking devon") {
            return Some(CattleBreed::MilkingDevon);
        }
        if same_text(name, "milking shorthorn") {
            return Some(CattleBreed::MilkingShorthorn);
        }
        if same_text(name, "miniature zebu") {
            return Some(CattleBreed::MiniatureZebu);
        }
        if same_text(name, "mirandesa") {
            return Some(CattleBreed::Mirandesa);
        }
        if same_text(name, "modicana") {
            return Some(CattleBreed::Modicana);
        }
        if same_text(name, "montbeliard") {
            return Some(CattleBreed::Montbeliard);
        }
        if same_text(name, "morucha") {
            return Some(CattleBreed::Morucha);
        }
        if same_text(name, "murboden") {
            return Some(CattleBreed::Murboden);
        }
        if same_text(name, "murray grey") {
            return Some(CattleBreed::MurrayGrey);
        }
        if same_text(name, "muturu") {
            return Some(CattleBreed::Muturu);
        }
        if same_text(name, "ndama") {
            return Some(CattleBreed::Ndama);
        }
        if same_text(name, "nagori") {
            return Some(CattleBreed::Nagori);
        }
        if same_text(name, "nanyang") {
            return Some(CattleBreed::Nanyang);
        }
        if same_text(name, "nelore") {
            return Some(CattleBreed::Nelore);
        }
        if same_text(name, "nguni") {
            return Some(CattleBreed::Nguni);
        }
        if same_text(name, "nimari") {
            return Some(CattleBreed::Nimari);
        }
        if same_text(name, "normande") {
            return Some(CattleBreed::Normande);
        }
        if same_text(name, "norwegian red") {
            return Some(CattleBreed::NorwegianRed);
        }
        if same_text(name, "ongole") {
            return Some(CattleBreed::Ongole);
        }
        if same_text(name, "orma boran") {
            return Some(CattleBreed::OrmaBoran);
        }
        if same_text(name, "oropa") {
            return Some(CattleBreed::Oropa);
        }
        if same_text(name, "ovambo") {
            return Some(CattleBreed::Ovambo);
        }
        if same_text(name, "parthenais") {
            return Some(CattleBreed::Parthenais);
        }
        if same_text(name, "philippine native") {
            return Some(CattleBreed::PhilippineNative);
        }
        if same_text(name, "piedmontese") {
            return Some(CattleBreed::Piedmontese);
        }
        if same_text(name, "pinzgauer") {
            return Some(CattleBreed::Pinzgauer);
        }
        if same_text(name, "polish red") {
            return Some(CattleBreed::PolishRed);
        }
        if same_text(name, "polled hereford") {
            return Some(CattleBreed::PolledHereford);
        }
        if same_text(name, "ponwar") {
            return Some(CattleBreed::Ponwar);
        }
        if same_text(name, "qinchuan") {
            return Some(CattleBreed::Qinchuan);
        }
        if same_text(name, "rath") {
            return Some(CattleBreed::Rath);
        }
        if same_text(name, "rathi") {
            return Some(CattleBreed::Rathi);
        }
        if same_text(name, "ratien gray") {
            return Some(CattleBreed::RatienGray);
        }
        if same_text(name, "red angus") {
            return Some(CattleBreed::RedAngus);
        }
        if same_text(name, "red brangus") {
            return Some(CattleBreed::RedBrangus);
        }
        if same_text(name, "red fulani") {
            return Some(CattleBreed::RedFulani);
        }
        if same_text(name, "red pied friesian") {
            return Some(CattleBreed::RedPiedFriesian);
        }
        if same_text(name, "red poll") {
            return Some(CattleBreed::RedPoll);
        }
        if same_text(name, "red polled ostland") {
            return Some(CattleBreed::RedPolledOstland);
        }
        if same_text(name, "red sindhi") {
            return Some(CattleBreed::RedSindhi);
        }
        if same_text(name, "red steppe") {
            return Some(CattleBreed::RedSteppe);
        }
        if same_text(name, "reggiana") {
            return Some(CattleBreed::Reggiana);
        }
        if same_text(name, "retinta") {
            return Some(CattleBreed::Retinta);
        }
        if same_text(name, "rojhan") {
            return Some(CattleBreed::Rojhan);
        }
        if same_text(name, "romagnola") {
            return Some(CattleBreed::Romagnola);
        }
        if same_text(name, "romosinuano") {
            return Some(CattleBreed::Romosinuano);
        }
        if same_text(name, "russian black pied") {
            return Some(CattleBreed::RussianBlackPied);
        }
        if same_text(name, "rx3") {
            return Some(CattleBreed::RX3);
        }
        if same_text(name, "sahiwal") {
            return Some(CattleBreed::Sahiwal);
        }
        if same_text(name, "salers") {
            return Some(CattleBreed::Salers);
        }
        if same_text(name, "salorn") {
            return Some(CattleBreed::Salorn);
        }
        if same_text(name, "san martinero") {
            return Some(CattleBreed::SanMartinero);
        }
        if same_text(name, "sanhe") {
            return Some(CattleBreed::Sanhe);
        }
        if same_text(name, "santa cruz") {
            return Some(CattleBreed::SantaCruz);
        }
        if same_text(name, "santa gertrudis") {
            return Some(CattleBreed::SantaGertrudis);
        }
        if same_text(name, "sarabi") {
            return Some(CattleBreed::Sarabi);
        }
        if same_text(name, "senepol") {
            return Some(CattleBreed::Senepol);
        }
        if same_text(name, "shetland") {
            return Some(CattleBreed::Shetland);
        }
        if same_text(name, "shorthorn") {
            return Some(CattleBreed::Shorthorn);
        }
        if same_text(name, "siboney") {
            return Some(CattleBreed::Siboney);
        }
        if same_text(name, "simbrah") {
            return Some(CattleBreed::Simbrah);
        }
        if same_text(name, "simmental") {
            return Some(CattleBreed::Simmental);
        }
        if same_text(name, "siri") {
            return Some(CattleBreed::Siri);
        }
        if same_text(name, "slovenian cika") {
            return Some(CattleBreed::SlovenianCika);
        }
        if same_text(name, "south devon") {
            return Some(CattleBreed::SouthDevon);
        }
        if same_text(name, "sudanese fulani") {
            return Some(CattleBreed::SudaneseFulani);
        }
        if same_text(name, "sussex") {
            return Some(CattleBreed::Sussex);
        }
        if same_text(name, "swedish friesian") {
            return Some(CattleBreed::SwedishFriesian);
        }
        if same_text(name, "swedish red polled") {
            return Some(CattleBreed::SwedishRedPolled);
        }
        if same_text(name, "swedish red and white") {
            return Some(CattleBreed::SwedishRedAndWhite);
        }
        if same_text(name, "tarentaise") {
            return Some(CattleBreed::Tarentaise);
        }
        if same_text(name, "telemark") {
            return Some(CattleBreed::Telemark);
        }
        if same_text(name, "texas longhorn") {
            return Some(CattleBreed::TexasLonghorn);
        }
        if same_text(name, "texon") {
            return Some(CattleBreed::Texon);
        }
        if same_text(name, "tharparkar") {
            return Some(CattleBreed::Tharparkar);
        }
        if same_text(name, "tswana") {
            return Some(CattleBreed::Tswana);
        }
        if same_text(name, "tuli") {
            return Some(CattleBreed::Tuli);
        }
        if same_text(name, "turkish grey steppe") {
            return Some(CattleBreed::TurkishGreySteppe);
        }
        if same_text(name, "ukrainian beef") {
            return Some(CattleBreed::UkrainianBeef);
        }
        if same_text(name, "ukrainian grey") {
            return Some(CattleBreed::UkrainianGrey);
        }
        if same_text(name, "ukrainian whitehead") {
            return Some(CattleBreed::UkrainianWhitehead);
        }
        if same_text(name, "umblachery") {
            return Some(CattleBreed::Umblachery);
        }
        if same_text(name, "ural black pied") {
            return Some(CattleBreed::UralBlackPied);
        }
        if same_text(name, "vestland fjord") {
            return Some(CattleBreed::VestlandFjord);
        }
        if same_text(name, "vestland red polled") {
            return Some(CattleBreed::VestlandRedPolled);
        }
        if same_text(name, "vosges") {
            return Some(CattleBreed::Vosges);
        }
        if same_text(name, "wagyu") {
            return Some(CattleBreed::Wagyu);
        }
        if same_text(name, "welsh black") {
            return Some(CattleBreed::WelshBlack);
        }
        if same_text(name, "white park") {
            return Some(CattleBreed::WhitePark);
        }
        if same_text(name, "yanbian") {
            return Some(CattleBreed::Yanbian);
        }
        None
    }

    /// Reads a breed from text. Case is ignored.
    ///
    /// Returns the breed that `s` names. Where `s` names none, the error
    /// carries `s` as it was given.
    pub fn from_str(s: &str) -> (parsed: Result<CattleBreed, BreedNotFound>)
        ensures
            match parsed {
                Ok(breed) => Self::named_by(s@) == Some(breed),
                Err(e) => {
                    &&& Self::named_by(s@) is None
                    &&& e.species == Species::Cattle
                    &&& e.name@ == s@
                },
            },
    {
        let lowered = s.to_lowercase();
        let found = Self::from_normalized(lowered.as_str());
        match found {
            Some(breed) => Ok(breed),
            None => Err(BreedNotFound { species: Species::Cattle, name: s.to_string() }),
        }
    }

    /// No name is listed for two breeds: a name decides the breed.
    pub proof fn lemma_name_decides_breed(name: Seq<char>, a: CattleBreed, b: CattleBreed)
        requires
            a.has_name(name),
            b.has_name(name),
        ensures
            a == b,
    {
        reveal_strlit("africander");
        reveal_strlit("akaushi");
        reveal_strlit("alberes");
        reveal_strlit("alentejana");
        reveal_strlit("allmogekor");
        reveal_strlit("american breed");
        reveal_strlit("american braford");
        reveal_strlit("american white park");
        reveal_strlit("amerifax");
        reveal_strlit("amrit mahal");
        reveal_strlit("anatolian black");
        reveal_strlit("andalusian black");
        reveal_strlit("andalusian grey");
        reveal_strlit("angeln");
        reveal_strlit("angus");
        reveal_strlit("ankole");
        reveal_strlit("anokole-watusi");
        reveal_strlit("argentine criollo");
        reveal_strlit("asturian mountain");
        reveal_strlit("asturian valley");
        reveal_strlit("aubrac");
        reveal_strlit("aulie-ata");
        reveal_strlit("australian braford");
        reveal_strlit("australian friesian sahiwal");
        reveal_strlit("australian lowline");
        reveal_strlit("australian milking zebu");
        reveal_strlit("ayrshire");
        reveal_strlit("azaouak");
        reveal_strlit("bachaur");
        reveal_strlit("baladi");
        reveal_strlit("baltata romaneasca");
        reveal_strlit("barka");
        reveal_strlit("barzona");
        reveal_strlit("bazadais");
        reveal_strlit("béarnais");
        reveal_strlit("beefalo");
        reveal_strlit("beefmaker");
        reveal_strlit("beefmaster");
        reveal_strlit("belarus red");
        reveal_strlit("belgian blue");
        reveal_strlit("belgian red");
        reveal_strlit("belmont adaptaur");
        reveal_strlit("belmont red");
        reveal_strlit("belted galloway");
        reveal_strlit("bengali");
        reveal_strlit("berrendas");
        reveal_strlit("bhagnari");
        reveal_strlit("black hereford");
        reveal_strlit("blacksided trondheim and norland");
        reveal_strlit("blanca cacereña/white cáceres");
        reveal_strlit("blanco orejinegro");
        reveal_strlit("blonde d'aquitaine");
        reveal_strlit("bonsmara");
        reveal_strlit("boran");
        reveal_strlit("bordelais");
        reveal_strlit("brahman");
        reveal_strlit("brahmousin");
        reveal_strlit("brangus");
        reveal_strlit("braunvieh");
        reveal_strlit("british white");
        reveal_strlit("brown swiss");
        reveal_strlit("busa");
        reveal_strlit("cachena");
        reveal_strlit("canadian highland");
        reveal_strlit("canadienne");
        reveal_strlit("canary island");
        reveal_strlit("canchim");
        reveal_strlit("carinthian blond");
        reveal_strlit("caucasian");
        reveal_strlit("channi");
        reveal_strlit("charbray");
        reveal_strlit("charolais");
        reveal_strlit("chianina");
        reveal_strlit("chinampo");
        reveal_strlit("chinese black-and-white");
        reveal_strlit("chinese mongolian");
        reveal_strlit("chinese xinjiang brown");
        reveal_strlit("cholistani");
        reveal_strlit("corriente");
        reveal_strlit("costeño con cuernos");
        reveal_strlit("dajal");
        reveal_strlit("damascus");
        reveal_strlit("damietta");
        reveal_strlit("dangi");
        reveal_strlit("danish jersey");
        reveal_strlit("danish red");
        reveal_strlit("deoni");
        reveal_strlit("devon");
        reveal_strlit("dexter");
        reveal_strlit("dhanni");
        reveal_strlit("djali");
        reveal_strlit("dolafe");
        reveal_strlit("droughtmaster");
        reveal_strlit("dulong");
        reveal_strlit("dutch belted (lakenvelder)");
        reveal_strlit("dutch friesian");
        reveal_strlit("east anatolian red");
        reveal_strlit("enderby island");
        reveal_strlit("english longhorn");
        reveal_strlit("estonian red");
        reveal_strlit("evolene");
        reveal_strlit("fighting");
        reveal_strlit("finnish");
        reveal_strlit("fjall");
        reveal_strlit("florida cracker");
        reveal_strlit("galician blond");
        reveal_strlit("galloway");
        reveal_strlit("gaolao");
        reveal_strlit("gascon");
        reveal_strlit("gelbray");
        reveal_strlit("gelbvieh");
        reveal_strlit("german angus moiled");
        reveal_strlit("german red pied");
        reveal_strlit("gir");
        reveal_strlit("glan");
        reveal_strlit("gloucester");
        reveal_strlit("gobra");
        reveal_strlit("greek shorthorn");
        reveal_strlit("greek steppe");
        reveal_strlit("groningen");
        reveal_strlit("guernsey");
        reveal_strlit("guzerat");
        reveal_strlit("hallikar");
        reveal_strlit("hariana");
        reveal_strlit("harton");
        reveal_strlit("hays converter");
        reveal_strlit("hereford");
        reveal_strlit("herens");
        reveal_strlit("highland");
        reveal_strlit("hinterwald");
        reveal_strlit("holando argentino");
        reveal_strlit("holstein");
        reveal_strlit("horro");
        reveal_strlit("hungarian grey");
        reveal_strlit("icelandic");
        reveal_strlit("illawarra");
        reveal_strlit("indo brazilian");
        reveal_strlit("irish moiled");
        reveal_strlit("israeli holstein");
        reveal_strlit("israeli red");
        reveal_strlit("istoben");
        reveal_strlit("jamaica black");
        reveal_strlit("jamaica hope");
        reveal_strlit("jamaica red");
        reveal_strlit("jaulan");
        reveal_strlit("jersey");
        reveal_strlit("kangayam");
        reveal_strlit("kankrej");
        reveal_strlit("karan fries");
        reveal_strlit("karan swiss");
        reveal_strlit("kazakh");
        reveal_strlit("kenwariya");
        reveal_strlit("kerry");
        reveal_strlit("kherigarh");
        reveal_strlit("khillari");
        reveal_strlit("kholmogory");
        reveal_strlit("kilis");
        reveal_strlit("krishna valley");
        reveal_strlit("kurdi black");
        reveal_strlit("kuri");
        reveal_strlit("latvian brown");
        reveal_strlit("limousin");
        reveal_strlit("limpurger");
        reveal_strlit("lincoln red");
        reveal_strlit("lithuanian red");
        reveal_strlit("lohani");
        reveal_strlit("lourdais");
        reveal_strlit("luing");
        reveal_strlit("madagascar zebu");
        reveal_strlit("maine anjou");
        reveal_strlit("malvi");
        reveal_strlit("mandalong");
        reveal_strlit("marchigiana");
        reveal_strlit("maremmana");
        reveal_strlit("masai");
        reveal_strlit("mashona");
        reveal_strlit("maure");
        reveal_strlit("mazandarani");
        reveal_strlit("meuse rhine yssel");
        reveal_strlit("mewati");
        reveal_strlit("milking devon");
        reveal_strlit("milking shorthorn");
        reveal_strlit("miniature zebu");
        reveal_strlit("mirandesa");
        reveal_strlit("modicana");
        reveal_strlit("montbeliard");
        reveal_strlit("morucha");
        reveal_strlit("murboden");
        reveal_strlit("murray grey");
        reveal_strlit("muturu");
        reveal_strlit("ndama");
        reveal_strlit("nagori");
        reveal_strlit("nanyang");
        reveal_strlit("nelore");
        reveal_strlit("nguni");
        reveal_strlit("nimari");
        reveal_strlit("normande");
        reveal_strlit("norwegian red");
        reveal_strlit("ongole");
        reveal_strlit("orma boran");
        reveal_strlit("oropa");
        reveal_strlit("ovambo");
        reveal_strlit("parthenais");
        reveal_strlit("philippine native");
        reveal_strlit("piedmontese");
        reveal_strlit("pinzgauer");
        reveal_strlit("polish red");
        reveal_strlit("polled hereford");
        reveal_strlit("ponwar");
        reveal_strlit("qinchuan");
        reveal_strlit("rath");
        reveal_strlit("rathi");
        reveal_strlit("ratien gray");
        reveal_strlit("red angus");
        reveal_strlit("red brangus");
        reveal_strlit("red fulani");
        reveal_strlit("red pied friesian");
        reveal_strlit("red poll");
        reveal_strlit("red polled ostland");
        reveal_strlit("red sindhi");
        reveal_strlit("red steppe");
        reveal_strlit("reggiana");
        reveal_strlit("retinta");
        reveal_strlit("rojhan");
        reveal_strlit("romagnola");
        reveal_strlit("romosinuano");
        reveal_strlit("russian black pied");
        reveal_strlit("rx3");
        reveal_strlit("sahiwal");
        reveal_strlit("salers");
        reveal_strlit("salorn");
        reveal_strlit("san martinero");
        reveal_strlit("sanhe");
        reveal_strlit("santa cruz");
        reveal_strlit("santa gertrudis");
        reveal_strlit("sarabi");
        reveal_strlit("senepol");
        reveal_strlit("shetland");
        reveal_strlit("shorthorn");
        reveal_strlit("siboney");
        reveal_strlit("simbrah");
        reveal_strlit("simmental");
        reveal_strlit("siri");
        reveal_strlit("slovenian cika");
        reveal_strlit("south devon");
        reveal_strlit("sudanese fulani");
        reveal_strlit("sussex");
        reveal_strlit("swedish friesian");
        reveal_strlit("swedish red polled");
        reveal_strlit("swedish red and white");
        reveal_strlit("tarentaise");
        reveal_strlit("telemark");
        reveal_strlit("texas longhorn");
        reveal_strlit("texon");
        reveal_strlit("tharparkar");
        reveal_strlit("tswana");
        reveal_strlit("tuli");
        reveal_strlit("turkish grey steppe");
        reveal_strlit("ukrainian beef");
        reveal_strlit("ukrainian grey");
        reveal_strlit("ukrainian whitehead");
        reveal_strlit("umblachery");
        reveal_strlit("ural black pied");
        reveal_strlit("vestland fjord");
        reveal_strlit("vestland red polled");
        reveal_strlit("vosges");
        reveal_strlit("wagyu");
        reveal_strlit("welsh black");
        reveal_strlit("white park");
        reveal_strlit("yanbian");
        // Two listed names differ in their length or in one of their characters.
        let spelling = (
            name.len(), name[0], name[1], name[2], name[3], name[4], name[5], name[6], name[7],
            name[8], name[9], name[10], name[11], name[12], name[13], name[14], name[15],
            name[16], name[17], name[18], name[19], name[20], name[21], name[22], name[23],
            name[24], name[25], name[26], name[27], name[28], name[29], name[30], name[31],
        );
    }

    /// A name that is listed for a breed is found, and gives that breed.
    pub proof fn lemma_listed_name_is_found(name: Seq<char>, breed: CattleBreed)
        requires
            breed.has_name(name),
        ensures
            Self::listed_as(name) == Some(breed),
    {
        Self::lemma_name_decides_breed(name, breed, choose|other: CattleBreed| other.has_name(name));
    }

    /// Every breed is listed under a name, so that a lookup can give it.
    pub proof fn lemma_every_breed_is_listed(breed: CattleBreed)
        ensures
            exists|name: Seq<char>| Self::listed_as(name) == Some(breed),
    {
        let name = match breed {
            CattleBreed::Africander => "africander"@,
            CattleBreed::Akaushi => "akaushi"@,
            CattleBreed::Alberes => "alberes"@,
            CattleBreed::Alentejana => "alentejana"@,
            CattleBreed::Allmogekor => "allmogekor"@,
            CattleBreed::AmericanBreed => "american breed"@,
            CattleBreed::AmericanBraford => "american braford"@,
            CattleBreed::AmericanWhitePark => "american white park"@,
            CattleBreed::Amerifax => "amerifax"@,
            CattleBreed::AmritMahal => "amrit mahal"@,
            CattleBreed::AnatolianBlack => "anatolian black"@,
            CattleBreed::AndalusianBlack => "andalusian black"@,
            CattleBreed::AndalusianGrey => "andalusian grey"@,
            CattleBreed::Angeln => "angeln"@,
            CattleBreed::Angus => "angus"@,
            CattleBreed::Ankole => "ankole"@,
            CattleBreed::AnkoleWatusi => "anokole-watusi"@,
            CattleBreed::ArgentineCriollo => "argentine criollo"@,
            CattleBreed::AsturianMountain => "asturian mountain"@,
            CattleBreed::AsturianValley => "asturian valley"@,
            CattleBreed::Aubrac => "aubrac"@,
            CattleBreed::AulieAta => "aulie-ata"@,
            CattleBreed::AustralianBraford => "australian braford"@,
            CattleBreed::AustralianFriesianSahiwal => "australian friesian sahiwal"@,
            CattleBreed::AustralianLowline => "australian lowline"@,
            CattleBreed::AustralianMilkingZebu => "australian milking zebu"@,
            CattleBreed::Ayrshire => "ayrshire"@,
            CattleBreed::Azaouak => "azaouak"@,
            CattleBreed::Bachaur => "bachaur"@,
            CattleBreed::Baladi => "baladi"@,
            CattleBreed::BaltataRomaneasca => "baltata romaneasca"@,
            CattleBreed::Barka => "barka"@,
            CattleBreed::Barzona => "barzona"@,
            CattleBreed::Bazadais => "bazadais"@,
            CattleBreed::Bearnais => "béarnais"@,
            CattleBreed::Beefalo => "beefalo"@,
            CattleBreed::Beefmaker => "beefmaker"@,
            CattleBreed::Beefmaster => "beefmaster"@,
            CattleBreed::BelarusRed => "belarus red"@,
            CattleBreed::BelgianBlue => "belgian blue"@,
            CattleBreed::BelgianRed => "belgian red"@,
            CattleBreed::BelmontAdaptaur => "belmont adaptaur"@,
            CattleBreed::BelmontRed => "belmont red"@,
            CattleBreed::BeltedGalloway => "belted galloway"@,
            CattleBreed::Bengali => "bengali"@,
            CattleBreed::Berrendas => "berrendas"@,
            CattleBreed::Bhagnari => "bhagnari"@,
            CattleBreed::BlackHereford => "black hereford"@,
            CattleBreed::BlacksidedTrondheimAndNorland => "blacksided trondheim and norland"@,
            CattleBreed::BlancaCacerena => "blanca cacereña/white cáceres"@,
            CattleBreed::BlancoOrejinegro => "blanco orejinegro"@,
            CattleBreed::BlondeDAquitaine => "blonde d'aquitaine"@,
            CattleBreed::Bonsmara => "bonsmara"@,
            CattleBreed::Boran => "boran"@,
            CattleBreed::Bordelais => "bordelais"@,
            CattleBreed::Brahman => "brahman"@,
            CattleBreed::Brahmousin => "brahmousin"@,
            CattleBreed::Brangus => "brangus"@,
            CattleBreed::Braunvieh => "braunvieh"@,
            CattleBreed::BritishWhite => "british white"@,
            CattleBreed::BrownSwiss => "brown swiss"@,
            CattleBreed::Busa => "busa"@,
            CattleBreed::Cachena => "cachena"@,
            CattleBreed::CanadianHighland => "canadian highland"@,
            CattleBreed::Canadienne => "canadienne"@,
            CattleBreed::CanaryIsland => "canary island"@,
            CattleBreed::Canchim => "canchim"@,
            CattleBreed::CarinthianBlond => "carinthian blond"@,
            CattleBreed::Caucasian => "caucasian"@,
            CattleBreed::Channi => "channi"@,
            CattleBreed::Charbray => "charbray"@,
            CattleBreed::Charolais => "charolais"@,
            CattleBreed::Chianina => "chianina"@,
            CattleBreed::Chinampo => "chinampo"@,
            CattleBreed::ChineseBlackAndWhite => "chinese black-and-white"@,
            CattleBreed::ChineseMongolian => "chinese mongolian"@,
            CattleBreed::ChineseXinjiangBrown => "chinese xinjiang brown"@,
            CattleBreed::Cholistani => "cholistani"@,
            CattleBreed::Corriente => "corriente"@,
            CattleBreed::CostenoConCuernos => "costeño con cuernos"@,
            CattleBreed::Dajal => "dajal"@,
            CattleBreed::Damascus => "damascus"@,
            CattleBreed::Damietta => "damietta"@,
            CattleBreed::Dangi => "dangi"@,
            CattleBreed::DanishJersey => "danish jersey"@,
            CattleBreed::DanishRed => "danish red"@,
            CattleBreed::Deoni => "deoni"@,
            CattleBreed::Devon => "devon"@,
            CattleBreed::Dexter => "dexter"@,
            CattleBreed::Dhanni => "dhanni"@,
            CattleBreed::Djali => "djali"@,
            CattleBreed::Dolafe => "dolafe"@,
            CattleBreed::Droughtmaster => "droughtmaster"@,
            CattleBreed::Dulong => "dulong"@,
            CattleBreed::DutchBelted => "dutch belted (lakenvelder)"@,
            CattleBreed::DutchFriesian => "dutch friesian"@,
            CattleBreed::EastAnatolianRed => "east anatolian red"@,
            CattleBreed::EnderbyIsland => "enderby island"@,
            CattleBreed::EnglishLonghorn => "english longhorn"@,
            CattleBreed::EstonianRed => "estonian red"@,
            CattleBreed::Evolene => "evolene"@,
            CattleBreed::Fighting => "fighting"@,
            CattleBreed::Finnish => "finnish"@,
            CattleBreed::Fjall => "fjall"@,
            CattleBreed::FloridaCracker => "florida cracker"@,
            CattleBreed::GalicianBlond => "galician blond"@,
            CattleBreed::Galloway => "galloway"@,
            CattleBreed::Gaolao => "gaolao"@,
            CattleBreed::Gascon => "gascon"@,
            CattleBreed::Gelbray => "gelbray"@,
            CattleBreed::Gelbvieh => "gelbvieh"@,
            CattleBreed::GermanAngusMoiled => "german angus moiled"@,
            CattleBreed::GermanRedPied => "german red pied"@,
            CattleBreed::Gir => "gir"@,
            CattleBreed::Glan => "glan"@,
            CattleBreed::Gloucester => "gloucester"@,
            CattleBreed::Gobra => "gobra"@,
            CattleBreed::GreekShorthorn => "greek shorthorn"@,
            CattleBreed::GreekSteppe => "greek steppe"@,
            CattleBreed::Groningen => "groningen"@,
            CattleBreed::Guernsey => "guernsey"@,
            CattleBreed::Guzerat => "guzerat"@,
            CattleBreed::Hallikar => "hallikar"@,
            CattleBreed::Hariana => "hariana"@,
            CattleBreed::Harton => "harton"@,
            CattleBreed::HaysConverter => "hays converter"@,
            CattleBreed::Hereford => "hereford"@,
            CattleBreed::Herens => "herens"@,
            CattleBreed::Highland => "highland"@,
            CattleBreed::Hinterwald => "hinterwald"@,
            CattleBreed::HolandoArgentino => "holando argentino"@,
            CattleBreed::Holstein => "holstein"@,
            CattleBreed::Horro => "horro"@,
            CattleBreed::HungarianGrey => "hungarian grey"@,
            CattleBreed::Icelandic => "icelandic"@,
            CattleBreed::Illawarra => "illawarra"@,
            CattleBreed::IndoBrazilian => "indo brazilian"@,
            CattleBreed::IrishMoiled => "irish moiled"@,
            CattleBreed::IsraeliHolstein => "israeli holstein"@,
            CattleBreed::IsraeliRed => "israeli red"@,
            CattleBreed::Istoben => "istoben"@,
            CattleBreed::JamaicaBlack => "jamaica black"@,
            CattleBreed::JamaicaHope => "jamaica hope"@,
            CattleBreed::JamaicaRed => "jamaica red"@,
            CattleBreed::Jaulan => "jaulan"@,
            CattleBreed::Jersey => "jersey"@,
            CattleBreed::Kangayam => "kangayam"@,
            CattleBreed::Kankrej => "kankrej"@,
            CattleBreed::KaranFries => "karan fries"@,
            CattleBreed::KaranSwiss => "karan swiss"@,
            CattleBreed::Kazakh => "kazakh"@,
            CattleBreed::Kenwariya => "kenwariya"@,
            CattleBreed::Kerry => "kerry"@,
            CattleBreed::Kherigarh => "kherigarh"@,
            CattleBreed::Khillari => "khillari"@,
            CattleBreed::Kholmogory => "kholmogory"@,
            CattleBreed::Kilis => "kilis"@,
            CattleBreed::KrishnaValley => "krishna valley"@,
            CattleBreed::KurdiBlack => "kurdi black"@,
            CattleBreed::Kuri => "kuri"@,
            CattleBreed::LatvianBrown => "latvian brown"@,
            CattleBreed::Limousin => "limousin"@,
            CattleBreed::Limpurger => "limpurger"@,
            CattleBreed::LincolnRed => "lincoln red"@,
            CattleBreed::LithuanianRed => "lithuanian red"@,
            CattleBreed::Lohani => "lohani"@,
            CattleBreed::Lourdais => "lourdais"@,
            CattleBreed::Luing => "luing"@,
            CattleBreed::MadagascarZebu => "madagascar zebu"@,
            CattleBreed::MaineAnjou => "maine anjou"@,
            CattleBreed::Malvi => "malvi"@,
            CattleBreed::Mandalong => "mandalong"@,
            CattleBreed::Marchigiana => "marchigiana"@,
            CattleBreed::Maremmana => "maremmana"@,
            CattleBreed::Masai => "masai"@,
            CattleBreed::Mashona => "mashona"@,
            CattleBreed::Maure => "maure"@,
            CattleBreed::Mazandarani => "mazandarani"@,
            CattleBreed::MeuseRhineYssel => "meuse rhine yssel"@,
            CattleBreed::Mewati => "mewati"@,
            CattleBreed::MilkingDevon => "milking devon"@,
            CattleBreed::MilkingShorthorn => "milking shorthorn"@,
            CattleBreed::MiniatureZebu => "miniature zebu"@,
            CattleBreed::Mirandesa => "mirandesa"@,
            CattleBreed::Modicana => "modicana"@,
            CattleBreed::Montbeliard => "montbeliard"@,
            CattleBreed::Morucha => "morucha"@,
            CattleBreed::Murboden => "murboden"@,
            CattleBreed::MurrayGrey => "murray grey"@,
            CattleBreed::Muturu => "muturu"@,
            CattleBreed::Ndama => "ndama"@,
            CattleBreed::Nagori => "nagori"@,
            CattleBreed::Nanyang => "nanyang"@,
            CattleBreed::Nelore => "nelore"@,
            CattleBreed::Nguni => "nguni"@,
            CattleBreed::Nimari => "nimari"@,
            CattleBreed::Normande => "normande"@,
            CattleBreed::NorwegianRed => "norwegian red"@,
            CattleBreed::Ongole => "ongole"@,
            CattleBreed::OrmaBoran => "orma boran"@,
            CattleBreed::Oropa => "oropa"@,
            CattleBreed::Ovambo => "ovambo"@,
            CattleBreed::Parthenais => "parthenais"@,
            CattleBreed::PhilippineNative => "philippine native"@,
            CattleBreed::Piedmontese => "piedmontese"@,
            CattleBreed::Pinzgauer => "pinzgauer"@,
            CattleBreed::PolishRed => "polish red"@,
            CattleBreed::PolledHereford => "polled hereford"@,
            CattleBreed::Ponwar => "ponwar"@,
            CattleBreed::Qinchuan => "qinchuan"@,
            CattleBreed::Rath => "rath"@,
            CattleBreed::Rathi => "rathi"@,
            CattleBreed::RatienGray => "ratien gray"@,
            CattleBreed::RedAngus => "red angus"@,
            CattleBreed::RedBrangus => "red brangus"@,
            CattleBreed::RedFulani => "red fulani"@,
            CattleBreed::RedPiedFriesian => "red pied friesian"@,
            CattleBreed::RedPoll => "red poll"@,
            CattleBreed::RedPolledOstland => "red polled ostland"@,
            CattleBreed::RedSindhi => "red sindhi"@,
            CattleBreed::RedSteppe => "red steppe"@,
            CattleBreed::Reggiana => "reggiana"@,
            CattleBreed::Retinta => "retinta"@,
            CattleBreed::Rojhan => "rojhan"@,
            CattleBreed::Romagnola => "romagnola"@,
            CattleBreed::Romosinuano => "romosinuano"@,
            CattleBreed::RussianBlackPied => "russian black pied"@,
            CattleBreed::RX3 => "rx3"@,
            CattleBreed::Sahiwal => "sahiwal"@,
            CattleBreed::Salers => "salers"@,
            CattleBreed::Salorn => "salorn"@,
            CattleBreed::SanMartinero => "san martinero"@,
            CattleBreed::Sanhe => "sanhe"@,
            CattleBreed::SantaCruz => "santa cruz"@,
            CattleBreed::SantaGertrudis => "santa gertrudis"@,
            CattleBreed::Sarabi => "sarabi"@,
            CattleBreed::Senepol => "senepol"@,
            CattleBreed::Shetland => "shetland"@,
            CattleBreed::Shorthorn => "shorthorn"@,
            CattleBreed::Siboney => "siboney"@,
            CattleBreed::Simbrah => "simbrah"@,
            CattleBreed::Simmental => "simmental"@,
            CattleBreed::Siri => "siri"@,
            CattleBreed::SlovenianCika => "slovenian cika"@,
            CattleBreed::SouthDevon => "south devon"@,
            CattleBreed::SudaneseFulani => "sudanese fulani"@,
            CattleBreed::Sussex => "sussex"@,
            CattleBreed::SwedishFriesian => "swedish friesian"@,
            CattleBreed::SwedishRedPolled => "swedish red polled"@,
            CattleBreed::SwedishRedAndWhite => "swedish red and white"@,
            CattleBreed::Tarentaise => "tarentaise"@,
            CattleBreed::Telemark => "telemark"@,
            CattleBreed::TexasLonghorn => "texas longhorn"@,
            CattleBreed::Texon => "texon"@,
            CattleBreed::Tharparkar => "tharparkar"@,
            CattleBreed::Tswana => "tswana"@,
            CattleBreed::Tuli => "tuli"@,
            CattleBreed::TurkishGreySteppe => "turkish grey steppe"@,
            CattleBreed::UkrainianBeef => "ukrainian beef"@,
            CattleBreed::UkrainianGrey => "ukrainian grey"@,
            CattleBreed::UkrainianWhitehead => "ukrainian whitehead"@,
            CattleBreed::Umblachery => "umblachery"@,
            CattleBreed::UralBlackPied => "ural black pied"@,
            CattleBreed::VestlandFjord => "vestland fjord"@,
            CattleBreed::VestlandRedPolled => "vestland red polled"@,
            CattleBreed::Vosges => "vosges"@,
            CattleBreed::Wagyu => "wagyu"@,
            CattleBreed::WelshBlack => "welsh black"@,
            CattleBreed::WhitePark => "white park"@,
            CattleBreed::Yanbian => "yanbian"@,
        };
        Self::lemma_listed_name_is_found(name, breed);
    }

    /// A text whose normal form is listed for a breed names that breed.
    pub proof fn lemma_listed_text_names_breed(text: Seq<char>, breed: CattleBreed)
        requires
            breed.has_name(Self::normal_form(text)),
        ensures
            Self::named_by(text) == Some(breed),
    {
        Self::lemma_listed_name_is_found(Self::normal_form(text), breed);
    }

    /// Two texts that are alike in lower case name the same breed, or both
    /// name none.
    pub proof fn lemma_case_is_ignored(s: Seq<char>, t: Seq<char>)
        requires
            lowercase_of(s) == lowercase_of(t),
        ensures
            Self::named_by(s) == Self::named_by(t),
    {
    }

    /// The shown name depends on the breed alone: asking twice gives the
    /// same text.
    pub proof fn lemma_shown_name_is_fixed(a: CattleBreed, b: CattleBreed)
        requires
            a == b,
        ensures
            a.canonical_name() == b.canonical_name(),
    {
    }
}

} // verus!
