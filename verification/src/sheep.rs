//! Breeds of sheep: the name under which each is shown, and the names by
//! which a breed is recognised in text.

use vstd::prelude::*;

use inflector::cases::titlecase::to_title_case;

use crate::error::{BreedNotFound, Species};
use crate::text::{lowercase_of, replace_char, same_text, title_case_of, with_replaced};

verus! {

/// A breed of sheep.
#[derive(Debug, Clone, Copy, PartialEq, Eq, Structural)]
pub enum SheepBreed {
    Acipayam,
    Adal,
    AfghanArabi,
    Africana,
    Alai,
    Alcarrena,
    AlgarveChurro,
    AlgerianArab,
    Altai,
    Altay,
    AmericanBlackbelly,
    Apennine,
    Arabi,
    ArapawaIsland,
    Awassi,
    Balkhi,
    Baluchi,
    BalwenWelshMountain,
    BarbadosBlackbelly,
    BavarianForest,
    BentheimerLandschaf,
    Bergamasca,
    BeulahSpeckledFace,
    Bibrik,
    Biellese,
    BlackWelshMountain,
    BlackheadPersian,
    BleuDuMaine,
    BluefacedLeicester,
    Bond,
    BooroolaMerino,
    BorderLeicester,
    Boreray,
    Bovska,
    BraunesBergschaf,
    BrazilianSomali,
    BrecknockHillCheviot,
    BritishMilk,
    Brillenschaf,
    BundnerOberland,
    CaliforniaRed,
    CaliforniaVariegatedMutant,
    CampanianBarbary,
    CastlemilkMoorit,
    Charollais,
    Cheviot,
    Chios,
    Cholistani,
    ClunForest,
    CoburgerFuchsschaf,
    Columbia,
    Comeback,
    Comisana,
    Coopworth,
    Cormo,
    Corriedale,
    Cotswold,
    Criollo,
    Daglic,
    Dala,
    Dalesbred,
    Damani,
    Damara,
    DanishLandrace,
    Dartmoor,
    Debouillet,
    DelaineMerino,
    DerbyshireGritstone,
    Dorper,
    DevonClosewool,
    DeutschesBlaukoepfigesFleischschaf,
    DorsetDown,
    Dorset,
    Drysdale,
    Elliottdale,
    ExmoorHorn,
    Fabrianese,
    Faeroes,
    Finnsheep,
    FonthillMerino,
    FriesianMilk,
    Galway,
    GansuAlpineFineWool,
    GentileDiPuglia,
    GermanBlackheadedMutton,
    GermanMountain,
    GermanMuttonMerino,
    GermanWhiteheadedMutton,
    Gotland,
    GraueGehoernteHeidschnucke,
    Gromark,
    GulfCoastNative,
    Gute,
    Hampshire,
    Han,
    Harnai,
    HashtNagri,
    Hazaragie,
    Hebridean,
    Herdwick,
    HillRadnor,
    HogIsland,
    Hu,
    Icelandic,
    IleDeFrance,
    IstrianPramenka,
    Jacob,
    JezerskoSolcava,
    Kachhi,
    Kajli,
    Karakul,
    Katahdin,
    KerryHill,
    Kooka,
    Langhe,
    Lati,
    LeicesterLongwool,
    Leineschaf,
    Lincoln,
    Llanwenog,
    Lleyn,
    Lohi,
    Lonk,
    Luzein,
    ManxLoaghtan,
    Masai,
    Massese,
    MediumWoolMerino,
    Mehraban,
    Merinolandschaf,
    Moghani,
    Montadale,
    MoradaNova,
    Mouflon,
    NavajoChurro,
    NorfolkHorn,
    NorthCountryCheviot,
    NorwegianFur,
    OldNorwegian,
    Orkney,
    Ossimi,
    Oxford,
    Pagliarola,
    Pelibuey,
    Perendale,
    Pinzirita,
    PittIsland,
    PollMerino,
    Polwarth,
    Polypay,
    PomeranianCoarsewool,
    Portland,
    Priangan,
    Qashqai,
    QinghaiBlackTibetan,
    QinghaiSemifinewool,
    Quadrella,
    QuanglinLargeTail,
    RaboLargo,
    Racka,
    Rambouillet,
    RasaAragonesa,
    RedEngadine,
    Rhoenschaf,
    RideauArcott,
    Romanov,
    Romney,
    RougeDeIQuest,
    RoughFell,
    RoyalWhite,
    Rya,
    Ryeland,
    Rygja,
    Sahel,
    SantaCruz,
    SantaInes,
    Sardinian,
    SarPlanina,
    ScottishBlackface,
    SicilianBarbary,
    Shetland,
    Shropshire,
    Skudde,
    Soay,
    Somali,
    Sopravissana,
    SouthAfricanMerino,
    SouthAfrianMuttonMerino,
    SouthSuffolk,
    Southdown,
    SouthWalesMountain,
    Spaeslau,
    Spiegel,
    StCroix,
    Steigar,
    Steinschaf,
    StrongWoolMerino,
    Suffolk,
    Sumavska,
    Swaledale,
    SwedishFur,
    Targhee,
    Teeswater,
    Texel,
    Thalli,
    Tong,
    Touabire,
    Tsurcana,
    Tunis,
    TyrolMountain,
    Uda,
    Ujumqin,
    Ushant,
    ValaisBlacknose,
    Vendeen,
    Walachenschaf,
    WallisCountry,
    Waziri,
    WeisseHornloseHeidschnucke,
    WelshHillSpeckledFace,
    WelshMountain,
    WelshMountainBadgerFaced,
    Wensleydale,
    WestAfricanDwarf,
    WhiteSuffolk,
    WhitefaceDartmoor,
    WhitefaceWoodland,
    WiltshireHorn,
    XinjiangFinewool,
    Yankasa,
    YemenWhite,
    Yemeni,
    Yiecheng,
    Yoroo,
    YunnanSemifinewool,
    Zaghawa,
    Zagoria,
    Zaian,
    ZaireLongLegged,
    Zakynthos,
    ZeelandMilk,
    Zel,
    Zelazna,
    Zemmour,
    ZetaYellow,
    Zlatusha,
    Zoulay,
}

impl SheepBreed {
    /// The breed's identifier: the words of its name run together, each
    /// starting with a capital letter.
    pub open spec fn spec_identifier(self) -> Seq<char> {
        match self {
            SheepBreed::Acipayam => "Acipayam"@,
            SheepBreed::Adal => "Adal"@,
            SheepBreed::AfghanArabi => "AfghanArabi"@,
            SheepBreed::Africana => "Africana"@,
            SheepBreed::Alai => "Alai"@,
            SheepBreed::Alcarrena => "Alcarrena"@,
            SheepBreed::AlgarveChurro => "AlgarveChurro"@,
            SheepBreed::AlgerianArab => "AlgerianArab"@,
            SheepBreed::Altai => "Altai"@,
            SheepBreed::Altay => "Altay"@,
            SheepBreed::AmericanBlackbelly => "AmericanBlackbelly"@,
            SheepBreed::Apennine => "Apennine"@,
            SheepBreed::Arabi => "Arabi"@,
            SheepBreed::ArapawaIsland => "ArapawaIsland"@,
            SheepBreed::Awassi => "Awassi"@,
            SheepBreed::Balkhi => "Balkhi"@,
            SheepBreed::Baluchi => "Baluchi"@,
            SheepBreed::BalwenWelshMountain => "BalwenWelshMountain"@,
            SheepBreed::BarbadosBlackbelly => "BarbadosBlackbelly"@,
            SheepBreed::BavarianForest => "BavarianForest"@,
            SheepBreed::BentheimerLandschaf => "BentheimerLandschaf"@,
            SheepBreed::Bergamasca => "Bergamasca"@,
            SheepBreed::BeulahSpeckledFace => "BeulahSpeckledFace"@,
            SheepBreed::Bibrik => "Bibrik"@,
            SheepBreed::Biellese => "Biellese"@,
            SheepBreed::BlackWelshMountain => "BlackWelshMountain"@,
            SheepBreed::BlackheadPersian => "BlackheadPersian"@,
            SheepBreed::BleuDuMaine => "BleuDuMaine"@,
            SheepBreed::BluefacedLeicester => "BluefacedLeicester"@,
            SheepBreed::Bond => "Bond"@,
            SheepBreed::BooroolaMerino => "BooroolaMerino"@,
            SheepBreed::BorderLeicester => "BorderLeicester"@,
            SheepBreed::Boreray => "Boreray"@,
            SheepBreed::Bovska => "Bovska"@,
            SheepBreed::BraunesBergschaf => "BraunesBergschaf"@,
            SheepBreed::BrazilianSomali => "BrazilianSomali"@,
            SheepBreed::BrecknockHillCheviot => "BrecknockHillCheviot"@,
            SheepBreed::BritishMilk => "BritishMilk"@,
            SheepBreed::Brillenschaf => "Brillenschaf"@,
            SheepBreed::BundnerOberland => "BundnerOberland"@,
            SheepBreed::CaliforniaRed => "CaliforniaRed"@,
            SheepBreed::CaliforniaVariegatedMutant => "CaliforniaVariegatedMutant"@,
            SheepBreed::CampanianBarbary => "CampanianBarbary"@,
            SheepBreed::CastlemilkMoorit => "CastlemilkMoorit"@,
            SheepBreed::Charollais => "Charollais"@,
            SheepBreed::Cheviot => "Cheviot"@,
            SheepBreed::Chios => "Chios"@,
            SheepBreed::Cholistani => "Cholistani"@,
            SheepBreed::ClunForest => "ClunForest"@,
            SheepBreed::CoburgerFuchsschaf => "CoburgerFuchsschaf"@,
            SheepBreed::Columbia => "Columbia"@,
            SheepBreed::Comeback => "Comeback"@,
            SheepBreed::Comisana => "Comisana"@,
            SheepBreed::Coopworth => "Coopworth"@,
            SheepBreed::Cormo => "Cormo"@,
            SheepBreed::Corriedale => "Corriedale"@,
            SheepBreed::Cotswold => "Cotswold"@,
            SheepBreed::Criollo => "Criollo"@,
            SheepBreed::Daglic => "Daglic"@,
            SheepBreed::Dala => "Dala"@,
            SheepBreed::Dalesbred => "Dalesbred"@,
            SheepBreed::Damani => "Damani"@,
            SheepBreed::Damara => "Damara"@,
            SheepBreed::DanishLandrace => "DanishLandrace"@,
            SheepBreed::Dartmoor => "Dartmoor"@,
            SheepBreed::Debouillet => "Debouillet"@,
            SheepBreed::DelaineMerino => "DelaineMerino"@,
            SheepBreed::DerbyshireGritstone => "DerbyshireGritstone"@,
            SheepBreed::Dorper => "Dorper"@,
            SheepBreed::DevonClosewool => "DevonClosewool"@,
            SheepBreed::DeutschesBlaukoepfigesFleischschaf => "DeutschesBlaukoepfigesFleischschaf"@,
            SheepBreed::DorsetDown => "DorsetDown"@,
            SheepBreed::Dorset => "Dorset"@,
            SheepBreed::Drysdale => "Drysdale"@,
            SheepBreed::Elliottdale => "Elliottdale"@,
            SheepBreed::ExmoorHorn => "ExmoorHorn"@,
            SheepBreed::Fabrianese => "Fabrianese"@,
            SheepBreed::Faeroes => "Faeroes"@,
            SheepBreed::Finnsheep => "Finnsheep"@,
            SheepBreed::FonthillMerino => "FonthillMerino"@,
            SheepBreed::FriesianMilk => "FriesianMilk"@,
            SheepBreed::Galway => "Galway"@,
            SheepBreed::GansuAlpineFineWool => "GansuAlpineFineWool"@,
            SheepBreed::GentileDiPuglia => "GentileDiPuglia"@,
            SheepBreed::GermanBlackheadedMutton => "GermanBlackheadedMutton"@,
            SheepBreed::GermanMountain => "GermanMountain"@,
            SheepBreed::GermanMuttonMerino => "GermanMuttonMerino"@,
            SheepBreed::GermanWhiteheadedMutton => "GermanWhiteheadedMutton"@,
            SheepBreed::Gotland => "Gotland"@,
            SheepBreed::GraueGehoernteHeidschnucke => "GraueGehoernteHeidschnucke"@,
            SheepBreed::Gromark => "Gromark"@,
            SheepBreed::GulfCoastNative => "GulfCoastNative"@,
            SheepBreed::Gute => "Gute"@,
            SheepBreed::Hampshire => "Hampshire"@,
            SheepBreed::Han => "Han"@,
            SheepBreed::Harnai => "Harnai"@,
            SheepBreed::HashtNagri => "HashtNagri"@,
            SheepBreed::Hazaragie => "Hazaragie"@,
            SheepBreed::Hebridean => "Hebridean"@,
            SheepBreed::Herdwick => "Herdwick"@,
            SheepBreed::HillRadnor => "HillRadnor"@,
            SheepBreed::HogIsland => "HogIsland"@,
            SheepBreed::Hu => "Hu"@,
            SheepBreed::Icelandic => "Icelandic"@,
            SheepBreed::IleDeFrance => "IleDeFrance"@,
            SheepBreed::IstrianPramenka => "IstrianPramenka"@,
            SheepBreed::Jacob => "Jacob"@,
            SheepBreed::JezerskoSolcava => "JezerskoSolcava"@,
            SheepBreed::Kachhi => "Kachhi"@,
            SheepBreed::Kajli => "Kajli"@,
            SheepBreed::Karakul => "Karakul"@,
            SheepBreed::Katahdin => "Katahdin"@,
            SheepBreed::KerryHill => "KerryHill"@,
            SheepBreed::Kooka => "Kooka"@,
            SheepBreed::Langhe => "Langhe"@,
            SheepBreed::Lati => "Lati"@,
            SheepBreed::LeicesterLongwool => "LeicesterLongwool"@,
            SheepBreed::Leineschaf => "Leineschaf"@,
            SheepBreed::Lincoln => "Lincoln"@,
            SheepBreed::Llanwenog => "Llanwenog"@,
            SheepBreed::Lleyn => "Lleyn"@,
            SheepBreed::Lohi => "Lohi"@,
            SheepBreed::Lonk => "Lonk"@,
            SheepBreed::Luzein => "Luzein"@,
            SheepBreed::ManxLoaghtan => "ManxLoaghtan"@,
            SheepBreed::Masai => "Masai"@,
            SheepBreed::Massese => "Massese"@,
            SheepBreed::MediumWoolMerino => "MediumWoolMerino"@,
            SheepBreed::Mehraban => "Mehraban"@,
            SheepBreed::Merinolandschaf => "Merinolandschaf"@,
            SheepBreed::Moghani => "Moghani"@,
            SheepBreed::Montadale => "Montadale"@,
            SheepBreed::MoradaNova => "MoradaNova"@,
            SheepBreed::Mouflon => "Mouflon"@,
            SheepBreed::NavajoChurro => "NavajoChurro"@,
            SheepBreed::NorfolkHorn => "NorfolkHorn"@,
            SheepBreed::NorthCountryCheviot => "NorthCountryCheviot"@,
            SheepBreed::NorwegianFur => "NorwegianFur"@,
            SheepBreed::OldNorwegian => "OldNorwegian"@,
            SheepBreed::Orkney => "Orkney"@,
            SheepBreed::Ossimi => "Ossimi"@,
            SheepBreed::Oxford => "Oxford"@,
            SheepBreed::Pagliarola => "Pagliarola"@,
            SheepBreed::Pelibuey => "Pelibuey"@,
            SheepBreed::Perendale => "Perendale"@,
            SheepBreed::Pinzirita => "Pinzirita"@,
            SheepBreed::PittIsland => "PittIsland"@,
            SheepBreed::PollMerino => "PollMerino"@,
            SheepBreed::Polwarth => "Polwarth"@,
            SheepBreed::Polypay => "Polypay"@,
            SheepBreed::PomeranianCoarsewool => "PomeranianCoarsewool"@,
            SheepBreed::Portland => "Portland"@,
            SheepBreed::Priangan => "Priangan"@,
            SheepBreed::Qashqai => "Qashqai"@,
            SheepBreed::QinghaiBlackTibetan => "QinghaiBlackTibetan"@,
            SheepBreed::QinghaiSemifinewool => "QinghaiSemifinewool"@,
            SheepBreed::Quadrella => "Quadrella"@,
            SheepBreed::QuanglinLargeTail => "QuanglinLargeTail"@,
            SheepBreed::RaboLargo => "RaboLargo"@,
            SheepBreed::Racka => "Racka"@,
            SheepBreed::Rambouillet => "Rambouillet"@,
            SheepBreed::RasaAragonesa => "RasaAragonesa"@,
            SheepBreed::RedEngadine => "RedEngadine"@,
            SheepBreed::Rhoenschaf => "Rhoenschaf"@,
            SheepBreed::RideauArcott => "RideauArcott"@,
            SheepBreed::Romanov => "Romanov"@,
            SheepBreed::Romney => "Romney"@,
            SheepBreed::RougeDeIQuest => "RougeDeIQuest"@,
            SheepBreed::RoughFell => "RoughFell"@,
            SheepBreed::RoyalWhite => "RoyalWhite"@,
            SheepBreed::Rya => "Rya"@,
            SheepBreed::Ryeland => "Ryeland"@,
            SheepBreed::Rygja => "Rygja"@,
            SheepBreed::Sahel => "Sahel"@,
            SheepBreed::SantaCruz => "SantaCruz"@,
            SheepBreed::SantaInes => "SantaInes"@,
            SheepBreed::Sardinian => "Sardinian"@,
            SheepBreed::SarPlanina => "SarPlanina"@,
            SheepBreed::ScottishBlackface => "ScottishBlackface"@,
            SheepBreed::SicilianBarbary => "SicilianBarbary"@,
            SheepBreed::Shetland => "Shetland"@,
            SheepBreed::Shropshire => "Shropshire"@,
            SheepBreed::Skudde => "Skudde"@,
            SheepBreed::Soay => "Soay"@,
            SheepBreed::Somali => "Somali"@,
            SheepBreed::Sopravissana => "Sopravissana"@,
            SheepBreed::SouthAfricanMerino => "SouthAfricanMerino"@,
            SheepBreed::SouthAfrianMuttonMerino => "SouthAfrianMuttonMerino"@,
            SheepBreed::SouthSuffolk => "SouthSuffolk"@,
            SheepBreed::Southdown => "Southdown"@,
            SheepBreed::SouthWalesMountain => "SouthWalesMountain"@,
            SheepBreed::Spaeslau => "Spaeslau"@,
            SheepBreed::Spiegel => "Spiegel"@,
            SheepBreed::StCroix => "StCroix"@,
            SheepBreed::Steigar => "Steigar"@,
            SheepBreed::Steinschaf => "Steinschaf"@,
            SheepBreed::StrongWoolMerino => "StrongWoolMerino"@,
            SheepBreed::Suffolk => "Suffolk"@,
            SheepBreed::Sumavska => "Sumavska"@,
            SheepBreed::Swaledale => "Swaledale"@,
            SheepBreed::SwedishFur => "SwedishFur"@,
            SheepBreed::Targhee => "Targhee"@,
            SheepBreed::Teeswater => "Teeswater"@,
            SheepBreed::Texel => "Texel"@,
            SheepBreed::Thalli => "Thalli"@,
            SheepBreed::Tong => "Tong"@,
            SheepBreed::Touabire => "Touabire"@,
            SheepBreed::Tsurcana => "Tsurcana"@,
            SheepBreed::Tunis => "Tunis"@,
            SheepBreed::TyrolMountain => "TyrolMountain"@,
            SheepBreed::Uda => "Uda"@,
            SheepBreed::Ujumqin => "Ujumqin"@,
            SheepBreed::Ushant => "Ushant"@,
            SheepBreed::ValaisBlacknose => "ValaisBlacknose"@,
            SheepBreed::Vendeen => "Vendeen"@,
            SheepBreed::Walachenschaf => "Walachenschaf"@,
            SheepBreed::WallisCountry => "WallisCountry"@,
            SheepBreed::Waziri => "Waziri"@,
            SheepBreed::WeisseHornloseHeidschnucke => "WeisseHornloseHeidschnucke"@,
            SheepBreed::WelshHillSpeckledFace => "WelshHillSpeckledFace"@,
            SheepBreed::WelshMountain => "WelshMountain"@,
            SheepBreed::WelshMountainBadgerFaced => "WelshMountainBadgerFaced"@,
            SheepBreed::Wensleydale => "Wensleydale"@,
            SheepBreed::WestAfricanDwarf => "WestAfricanDwarf"@,
            SheepBreed::WhiteSuffolk => "WhiteSuffolk"@,
            SheepBreed::WhitefaceDartmoor => "WhitefaceDartmoor"@,
            SheepBreed::WhitefaceWoodland => "WhitefaceWoodland"@,
            SheepBreed::WiltshireHorn => "WiltshireHorn"@,
            SheepBreed::XinjiangFinewool => "XinjiangFinewool"@,
            SheepBreed::Yankasa => "Yankasa"@,
            SheepBreed::YemenWhite => "YemenWhite"@,
            SheepBreed::Yemeni => "Yemeni"@,
            SheepBreed::Yiecheng => "Yiecheng"@,
            SheepBreed::Yoroo => "Yoroo"@,
            SheepBreed::YunnanSemifinewool => "YunnanSemifinewool"@,
            SheepBreed::Zaghawa => "Zaghawa"@,
            SheepBreed::Zagoria => "Zagoria"@,
            SheepBreed::Zaian => "Zaian"@,
            SheepBreed::ZaireLongLegged => "ZaireLongLegged"@,
            SheepBreed::Zakynthos => "Zakynthos"@,
            SheepBreed::ZeelandMilk => "ZeelandMilk"@,
            SheepBreed::Zel => "Zel"@,
            SheepBreed::Zelazna => "Zelazna"@,
            SheepBreed::Zemmour => "Zemmour"@,
            SheepBreed::ZetaYellow => "ZetaYellow"@,
            SheepBreed::Zlatusha => "Zlatusha"@,
            SheepBreed::Zoulay => "Zoulay"@,
        }
    }

    /// The name under which the breed is shown.
    ///
    /// Names that carry marks or punctuation which an identifier cannot hold
    /// are given outright. Every other name is the title-case form of the
    /// identifier.
    pub open spec fn canonical_name(self) -> Seq<char> {
        match self {
            SheepBreed::BeulahSpeckledFace => "Beulah Speckled-Face"@,
            SheepBreed::BleuDuMaine => "Bleu du Maine"@,
            SheepBreed::BundnerOberland => "Bündner Oberland"@,
            SheepBreed::GansuAlpineFineWool => "Gansu Alpine Fine-Wool"@,
            SheepBreed::IleDeFrance => "Ile-de-France"@,
            SheepBreed::JezerskoSolcava => "Jezersko-Solčava"@,
            SheepBreed::NavajoChurro => "Navajo-Churro"@,
            SheepBreed::QuanglinLargeTail => "Quanglin Large-Tail"@,
            SheepBreed::RougeDeIQuest => "Rouge de l'Ouest"@,
            SheepBreed::Sahel => "Sahel-type"@,
            SheepBreed::SantaInes => "Santa Inês"@,
            SheepBreed::StCroix => "St. Croix (Virgin Island White)"@,
            SheepBreed::Vendeen => "Vendéen"@,
            SheepBreed::ZaireLongLegged => "Zaire Long-Legged"@,
            _ => title_case_of(self.spec_identifier()),
        }
    }

    /// The form in which a text is compared with the listed names: lower
    /// case, with every hyphen read as a space.
    pub open spec fn normal_form(text: Seq<char>) -> Seq<char> {
        with_replaced(lowercase_of(text), '-', ' ')
    }

    /// Whether `name` is one of the names listed for the breed. The listed
    /// names are written in lower case.
    ///
    /// Two of them, "navajo-churro" and "quanglin large-tail", hold a hyphen. A text
    /// in normal form holds none, so [`SheepBreed::from_str`] never arrives at
    /// these two: it reaches their breeds through the spelling with a space.
    pub open spec fn has_name(self, name: Seq<char>) -> bool {
        match self {
            SheepBreed::Acipayam => name == "acipayam"@,
            SheepBreed::Adal => name == "adal"@,
            SheepBreed::AfghanArabi => name == "afghan arabi"@,
            SheepBreed::Africana => name == "africana"@,
            SheepBreed::Alai => name == "alai"@,
            SheepBreed::Alcarrena => name == "alcarrena"@,
            SheepBreed::AlgarveChurro => name == "algarve churro"@,
            SheepBreed::AlgerianArab => name == "algerian arab"@,
            SheepBreed::Altai => name == "altai"@,
            SheepBreed::Altay => name == "altay"@,
            SheepBreed::AmericanBlackbelly => name == "american blackbelly"@,
            SheepBreed::Apennine => name == "apennine"@,
            SheepBreed::Arabi => name == "arabi"@,
            SheepBreed::ArapawaIsland => name == "arapawa island"@,
            SheepBreed::Awassi => name == "awassi"@,
            SheepBreed::Balkhi => name == "balkhi"@,
            SheepBreed::Baluchi => name == "baluchi"@,
            SheepBreed::BalwenWelshMountain => name == "balwen welsh mountain"@,
            SheepBreed::BarbadosBlackbelly => name == "barbados blackbelly"@,
            SheepBreed::BavarianForest => name == "bavarian forest"@,
            SheepBreed::BentheimerLandschaf => name == "bentheimer landschaf"@,
            SheepBreed::Bergamasca => name == "bergamasca"@,
            SheepBreed::BeulahSpeckledFace => {
                ||| name == "beulah speckled face"@
                ||| name == "beulah speckle face"@
            },
            SheepBreed::Bibrik => name == "bibrik"@,
            SheepBreed::Biellese => name == "biellese"@,
            SheepBreed::BlackWelshMountain => {
                ||| name == "black welsh mountain"@
                ||| name == "blackwelshmountain"@
            },
            SheepBreed::BlackheadPersian => {
                ||| name == "blackhead persian"@
                ||| name == "blackheadpersian"@
            },
            SheepBreed::BleuDuMaine => name == "bleu du maine"@,
            SheepBreed::BluefacedLeicester => name == "bluefaced leicester"@,
            SheepBreed::Bond => name == "bond"@,
            SheepBreed::BooroolaMerino => name == "booroola merino"@,
            SheepBreed::BorderLeicester => name == "border leicester"@,
            SheepBreed::Boreray => name == "boreray"@,
            SheepBreed::Bovska => name == "bovska"@,
            SheepBreed::BraunesBergschaf => name == "braunes bergschaf"@,
            SheepBreed::BrazilianSomali => name == "brazilian somali"@,
            SheepBreed::BrecknockHillCheviot => name == "brecknock hill cheviot"@,
            SheepBreed::BritishMilk => name == "british milk"@,
            SheepBreed::Brillenschaf => name == "brillenschaf"@,
            SheepBreed::BundnerOberland => {
                ||| name == "bundner oberland"@
                ||| name == "bündner oberland"@
            },
            SheepBreed::CaliforniaRed => name == "california red"@,
            SheepBreed::CaliforniaVariegatedMutant => name == "california variegated mutant"@,
            SheepBreed::CampanianBarbary => name == "campanian barbary"@,
            SheepBreed::CastlemilkMoorit => name == "castlemilk moorit"@,
            SheepBreed::Charollais => name == "charollais"@,
            SheepBreed::Cheviot => name == "cheviot"@,
            SheepBreed::Chios => name == "chios"@,
            SheepBreed::Cholistani => name == "cholistani"@,
            SheepBreed::ClunForest => name == "clun forest"@,
            SheepBreed::CoburgerFuchsschaf => name == "coburger fuchsschaf"@,
            SheepBreed::Columbia => name == "columbia"@,
            SheepBreed::Comeback => name == "comeback"@,
            SheepBreed::Comisana => name == "comisana"@,
            SheepBreed::Coopworth => name == "coopworth"@,
            SheepBreed::Cormo => name == "cormo"@,
            SheepBreed::Corriedale => name == "corriedale"@,
            SheepBreed::Cotswold => name == "cotswold"@,
            SheepBreed::Criollo => name == "criollo"@,
            SheepBreed::Daglic => name == "daglic"@,
            SheepBreed::Dala => name == "dala"@,
            SheepBreed::Dalesbred => name == "dalesbred"@,
            SheepBreed::Damani => name == "damani"@,
            SheepBreed::Damara => name == "damara"@,
            SheepBreed::DanishLandrace => name == "danish landrace"@,
            SheepBreed::Dartmoor => name == "dartmoor"@,
            SheepBreed::Debouillet => name == "debouillet"@,
            SheepBreed::DelaineMerino => name == "delaine merino"@,
            SheepBreed::DerbyshireGritstone => name == "derbyshire gritstone"@,
            SheepBreed::Dorper => name == "dorper"@,
            SheepBreed::DevonClosewool => name == "devon closewool"@,
            SheepBreed::DeutschesBlaukoepfigesFleischschaf => name == "deutsches blaukoepfiges fleischschaf"@,
            SheepBreed::DorsetDown => name == "dorset down"@,
            SheepBreed::Dorset => name == "dorset"@,
            SheepBreed::Drysdale => name == "drysdale"@,
            SheepBreed::Elliottdale => name == "elliottdale"@,
            SheepBreed::ExmoorHorn => name == "exmoor horn"@,
            SheepBreed::Fabrianese => name == "fabrianese"@,
            SheepBreed::Faeroes => name == "faeroes"@,
            SheepBreed::Finnsheep => name == "finnsheep"@,
            SheepBreed::FonthillMerino => name == "fonthill merino"@,
            SheepBreed::FriesianMilk => name == "friesian milk"@,
            SheepBreed::Galway => name == "galway"@,
            SheepBreed::GansuAlpineFineWool => name == "gansu alpine fine wool"@,
            SheepBreed::GentileDiPuglia => name == "gentile di puglia"@,
            SheepBreed::GermanBlackheadedMutton => name == "german blackheaded mutton"@,
            SheepBreed::GermanMountain => name == "german mountain"@,
            SheepBreed::GermanMuttonMerino => name == "german mutton merino"@,
            SheepBreed::GermanWhiteheadedMutton => name == "german whiteheaded mutton"@,
            SheepBreed::Gotland => name == "gotland"@,
            SheepBreed::GraueGehoernteHeidschnucke => name == "graue gehoernte heidschnucke"@,
            SheepBreed::Gromark => name == "gromark"@,
            SheepBreed::GulfCoastNative => name == "gulf coast native"@,
            SheepBreed::Gute => name == "gute"@,
            SheepBreed::Hampshire => name == "hampshire"@,
            SheepBreed::Han => name == "han"@,
            SheepBreed::Harnai => name == "harnai"@,
            SheepBreed::HashtNagri => name == "hasht nagri"@,
            SheepBreed::Hazaragie => name == "hazaragie"@,
            SheepBreed::Hebridean => name == "hebridean"@,
            SheepBreed::Herdwick => name == "herdwick"@,
            SheepBreed::HillRadnor => name == "hill radnor"@,
            SheepBreed::HogIsland => name == "hog island"@,
            SheepBreed::Hu => name == "hu"@,
            SheepBreed::Icelandic => name == "icelandic"@,
            SheepBreed::IleDeFrance => name == "ile de france"@,
            SheepBreed::IstrianPramenka => name == "istrian pramenka"@,
            SheepBreed::Jacob => name == "jacob"@,
            SheepBreed::JezerskoSolcava => {
                ||| name == "jezersko solcava"@
                ||| name == "jezersko solčava"@
            },
            SheepBreed::Kachhi => name == "kachhi"@,
            SheepBreed::Kajli => name == "kajli"@,
            SheepBreed::Karakul => name == "karakul"@,
            SheepBreed::Katahdin => name == "katahdin"@,
            SheepBreed::KerryHill => name == "kerry hill"@,
            SheepBreed::Kooka => name == "kooka"@,
            SheepBreed::Langhe => name == "langhe"@,
            SheepBreed::Lati => name == "lati"@,
            SheepBreed::LeicesterLongwool => name == "leicester longwool"@,
            SheepBreed::Leineschaf => name == "leineschaf"@,
            SheepBreed::Lincoln => name == "lincoln"@,
            SheepBreed::Llanwenog => name == "llanwenog"@,
            SheepBreed::Lleyn => name == "lleyn"@,
            SheepBreed::Lohi => name == "lohi"@,
            SheepBreed::Lonk => name == "lonk"@,
            SheepBreed::Luzein => name == "luzein"@,
            SheepBreed::ManxLoaghtan => name == "manx loaghtan"@,
            SheepBreed::Masai => name == "masai"@,
            SheepBreed::Massese => name == "massese"@,
            SheepBreed::MediumWoolMerino => name == "medium wool merino"@,
            SheepBreed::Mehraban => name == "mehraban"@,
            SheepBreed::Merinolandschaf => name == "merinolandschaf"@,
            SheepBreed::Moghani => name == "moghani"@,
            SheepBreed::Montadale => name == "montadale"@,
            SheepBreed::MoradaNova => name == "morada nova"@,
            SheepBreed::Mouflon => name == "mouflon"@,
            SheepBreed::NavajoChurro => {
                ||| name == "navajo churro"@
                ||| name == "navajo-churro"@
            },
            SheepBreed::NorfolkHorn => name == "norfolk horn"@,
            SheepBreed::NorthCountryCheviot => name == "north country cheviot"@,
            SheepBreed::NorwegianFur => name == "norwegian fur"@,
            SheepBreed::OldNorwegian => name == "old norwegian"@,
            SheepBreed::Orkney => name == "orkney"@,
            SheepBreed::Ossimi => name == "ossimi"@,
            SheepBreed::Oxford => name == "oxford"@,
            SheepBreed::Pagliarola => name == "pagliarola"@,
            SheepBreed::Pelibuey => name == "pelibuey"@,
            SheepBreed::Perendale => name == "perendale"@,
            SheepBreed::Pinzirita => name == "pinzirita"@,
            SheepBreed::PittIsland => name == "pitt island"@,
            SheepBreed::PollMerino => name == "poll merino"@,
            SheepBreed::Polwarth => name == "polwarth"@,
            SheepBreed::Polypay => name == "polypay"@,
            SheepBreed::PomeranianCoarsewool => name == "pomeranian coarsewool"@,
            SheepBreed::Portland => name == "portland"@,
            SheepBreed::Priangan => name == "priangan"@,
            SheepBreed::Qashqai => name == "qashqai"@,
            SheepBreed::QinghaiBlackTibetan => name == "qinghai black tibetan"@,
            SheepBreed::QinghaiSemifinewool => name == "qinghai semifinewool"@,
            SheepBreed::Quadrella => name == "quadrella"@,
            SheepBreed::QuanglinLargeTail => {
                ||| name == "quanglin large tail"@
                ||| name == "quanglin large-tail"@
            },
            SheepBreed::RaboLargo => name == "rabo largo"@,
            SheepBreed::Racka => name == "racka"@,
            SheepBreed::Rambouillet => name == "rambouillet"@,
            SheepBreed::RasaAragonesa => name == "rasa aragonesa"@,
            SheepBreed::RedEngadine => name == "red engadine"@,
            SheepBreed::Rhoenschaf => name == "rhoenschaf"@,
            SheepBreed::RideauArcott => name == "rideau arcott"@,
            SheepBreed::Romanov => name == "romanov"@,
            SheepBreed::Romney => name == "romney"@,
            SheepBreed::RougeDeIQuest => name == "rouge de l'ouest"@,
            SheepBreed::RoughFell => name == "rough fell"@,
            SheepBreed::RoyalWhite => name == "royal white"@,
            SheepBreed::Rya => name == "rya"@,
            SheepBreed::Ryeland => name == "ryeland"@,
            SheepBreed::Rygja => name == "rygja"@,
            SheepBreed::Sahel => {
                ||| name == "sahel"@
                ||| name == "sahel type"@
            },
            SheepBreed::SantaCruz => name == "santa cruz"@,
            SheepBreed::SantaInes => {
                ||| name == "santa ines"@
                ||| name == "santa inês"@
            },
            SheepBreed::Sardinian => name == "sardinian"@,
            SheepBreed::SarPlanina => name == "sar planina"@,
            SheepBreed::ScottishBlackface => name == "scottish blackface"@,
            SheepBreed::SicilianBarbary => name == "sicilian barbary"@,
            SheepBreed::Shetland => name == "shetland"@,
            SheepBreed::Shropshire => name == "shropshire"@,
            SheepBreed::Skudde => name == "skudde"@,
            SheepBreed::Soay => name == "soay"@,
            SheepBreed::Somali => name == "somali"@,
            SheepBreed::Sopravissana => name == "sopravissana"@,
            SheepBreed::SouthAfricanMerino => name == "south african merino"@,
            SheepBreed::SouthAfrianMuttonMerino => name == "south afrian mutton merino"@,
            SheepBreed::SouthSuffolk => name == "south suffolk"@,
            SheepBreed::Southdown => name == "southdown"@,
            SheepBreed::SouthWalesMountain => name == "south wales mountain"@,
            SheepBreed::Spaeslau => name == "spaeslau"@,
            SheepBreed::Spiegel => name == "spiegel"@,
            SheepBreed::StCroix => {
                ||| name == "st croix"@
                ||| name == "virgin island white"@
                ||| name == "st. croix (virgin island white)"@
                ||| name == "st. croix"@
                ||| name == "saint croix"@
            },
            SheepBreed::Steigar => name == "steigar"@,
            SheepBreed::Steinschaf => name == "steinschaf"@,
            SheepBreed::StrongWoolMerino => name == "strong wool merino"@,
            SheepBreed::Suffolk => name == "suffolk"@,
            SheepBreed::Sumavska => name == "sumavska"@,
            SheepBreed::Swaledale => name == "swaledale"@,
            SheepBreed::SwedishFur => name == "swedish fur"@,
            SheepBreed::Targhee => name == "targhee"@,
            SheepBreed::Teeswater => name == "teeswater"@,
            SheepBreed::Texel => name == "texel"@,
            SheepBreed::Thalli => name == "thalli"@,
            SheepBreed::Tong => name == "tong"@,
            SheepBreed::Touabire => name == "touabire"@,
            SheepBreed::Tsurcana => name == "tsurcana"@,
            SheepBreed::Tunis => name == "tunis"@,
            SheepBreed::TyrolMountain => name == "tyrol mountain"@,
            SheepBreed::Uda => name == "uda"@,
            SheepBreed::Ujumqin => name == "ujumqin"@,
            SheepBreed::Ushant => name == "ushant"@,
            SheepBreed::ValaisBlacknose => name == "valais blacknose"@,
            SheepBreed::Vendeen => {
                ||| name == "vendeen"@
                ||| name == "vendéen"@
            },
            SheepBreed::Walachenschaf => name == "walachenschaf"@,
            SheepBreed::WallisCountry => name == "wallis country"@,
            SheepBreed::Waziri => name == "waziri"@,
            SheepBreed::WeisseHornloseHeidschnucke => {
                ||| name == "weisse hornlose heidschnucke"@
                ||| name == "wiess hornlose heidschnucke"@
            },
            SheepBreed::WelshHillSpeckledFace => name == "welsh hill speckled face"@,
            SheepBreed::WelshMountain => name == "welsh mountain"@,
            SheepBreed::WelshMountainBadgerFaced => name == "welsh mountain badger faced"@,
            SheepBreed::Wensleydale => name == "wensleydale"@,
            SheepBreed::WestAfricanDwarf => name == "west african dwarf"@,
            SheepBreed::WhiteSuffolk => name == "white suffolk"@,
            SheepBreed::WhitefaceDartmoor => name == "whiteface dartmoor"@,
            SheepBreed::WhitefaceWoodland => name == "whiteface woodland"@,
            SheepBreed::WiltshireHorn => name == "wiltshire horn"@,
            SheepBreed::XinjiangFinewool => name == "xinjiang finewool"@,
            SheepBreed::Yankasa => name == "yankasa"@,
            SheepBreed::YemenWhite => name == "yemen white"@,
            SheepBreed::Yemeni => name == "yemeni"@,
            SheepBreed::Yiecheng => name == "yiecheng"@,
            SheepBreed::Yoroo => name == "yoroo"@,
            SheepBreed::YunnanSemifinewool => name == "yunnan semifinewool"@,
            SheepBreed::Zaghawa => name == "zaghawa"@,
            SheepBreed::Zagoria => name == "zagoria"@,
            SheepBreed::Zaian => name == "zaian"@,
            SheepBreed::ZaireLongLegged => name == "zaire long legged"@,
            SheepBreed::Zakynthos => name == "zakynthos"@,
            SheepBreed::ZeelandMilk => name == "zeeland milk"@,
            SheepBreed::Zel => name == "zel"@,
            SheepBreed::Zelazna => name == "zelazna"@,
            SheepBreed::Zemmour => name == "zemmour"@,
            SheepBreed::ZetaYellow => name == "zeta yellow"@,
            SheepBreed::Zlatusha => name == "zlatusha"@,
            SheepBreed::Zoulay => name == "zoulay"@,
        }
    }

    /// The breed for which `name` is listed, if it is listed at all.
    pub open spec fn listed_as(name: Seq<char>) -> Option<SheepBreed> {
        if exists|breed: SheepBreed| breed.has_name(name) {
            Some(choose|breed: SheepBreed| breed.has_name(name))
        } else {
            None
        }
    }

    /// The breed that `text` names: the one for which the normal form of
    /// `text` is listed.
    pub open spec fn named_by(text: Seq<char>) -> Option<SheepBreed> {
        Self::listed_as(Self::normal_form(text))
    }

    /// The breed's identifier.
    pub fn identifier(&self) -> (word: &'static str)
        ensures
            word@ == self.spec_identifier(),
    {
        match self {
            SheepBreed::Acipayam => "Acipayam",
            SheepBreed::Adal => "Adal",
            SheepBreed::AfghanArabi => "AfghanArabi",
            SheepBreed::Africana => "Africana",
            SheepBreed::Alai => "Alai",
            SheepBreed::Alcarrena => "Alcarrena",
            SheepBreed::AlgarveChurro => "AlgarveChurro",
            SheepBreed::AlgerianArab => "AlgerianArab",
            SheepBreed::Altai => "Altai",
            SheepBreed::Altay => "Altay",
            SheepBreed::AmericanBlackbelly => "AmericanBlackbelly",
            SheepBreed::Apennine => "Apennine",
            SheepBreed::Arabi => "Arabi",
            SheepBreed::ArapawaIsland => "ArapawaIsland",
            SheepBreed::Awassi => "Awassi",
            SheepBreed::Balkhi => "Balkhi",
            SheepBreed::Baluchi => "Baluchi",
            SheepBreed::BalwenWelshMountain => "BalwenWelshMountain",
            SheepBreed::BarbadosBlackbelly => "BarbadosBlackbelly",
            SheepBreed::BavarianForest => "BavarianForest",
            SheepBreed::BentheimerLandschaf => "BentheimerLandschaf",
            SheepBreed::Bergamasca => "Bergamasca",
            SheepBreed::BeulahSpeckledFace => "BeulahSpeckledFace",
            SheepBreed::Bibrik => "Bibrik",
            SheepBreed::Biellese => "Biellese",
            SheepBreed::BlackWelshMountain => "BlackWelshMountain",
            SheepBreed::BlackheadPersian => "BlackheadPersian",
            SheepBreed::BleuDuMaine => "BleuDuMaine",
            SheepBreed::BluefacedLeicester => "BluefacedLeicester",
            SheepBreed::Bond => "Bond",
            SheepBreed::BooroolaMerino => "BooroolaMerino",
            SheepBreed::BorderLeicester => "BorderLeicester",
            SheepBreed::Boreray => "Boreray",
            SheepBreed::Bovska => "Bovska",
            SheepBreed::BraunesBergschaf => "BraunesBergschaf",
            SheepBreed::BrazilianSomali => "BrazilianSomali",
            SheepBreed::BrecknockHillCheviot => "BrecknockHillCheviot",
            SheepBreed::BritishMilk => "BritishMilk",
            SheepBreed::Brillenschaf => "Brillenschaf",
            SheepBreed::BundnerOberland => "BundnerOberland",
            SheepBreed::CaliforniaRed => "CaliforniaRed",
            SheepBreed::CaliforniaVariegatedMutant => "CaliforniaVariegatedMutant",
            SheepBreed::CampanianBarbary => "CampanianBarbary",
            SheepBreed::CastlemilkMoorit => "CastlemilkMoorit",
            SheepBreed::Charollais => "Charollais",
            SheepBreed::Cheviot => "Cheviot",
            SheepBreed::Chios => "Chios",
            SheepBreed::Cholistani => "Cholistani",
            SheepBreed::ClunForest => "ClunForest",
            SheepBreed::CoburgerFuchsschaf => "CoburgerFuchsschaf",
            SheepBreed::Columbia => "Columbia",
            SheepBreed::Comeback => "Comeback",
            SheepBreed::Comisana => "Comisana",
            SheepBreed::Coopworth => "Coopworth",
            SheepBreed::Cormo => "Cormo",
            SheepBreed::Corriedale => "Corriedale",
            SheepBreed::Cotswold => "Cotswold",
            SheepBreed::Criollo => "Criollo",
            SheepBreed::Daglic => "Daglic",
            SheepBreed::Dala => "Dala",
            SheepBreed::Dalesbred => "Dalesbred",
            SheepBreed::Damani => "Damani",
            SheepBreed::Damara => "Damara",
            SheepBreed::DanishLandrace => "DanishLandrace",
            SheepBreed::Dartmoor => "Dartmoor",
            SheepBreed::Debouillet => "Debouillet",
            SheepBreed::DelaineMerino => "DelaineMerino",
            SheepBreed::DerbyshireGritstone => "DerbyshireGritstone",
            SheepBreed::Dorper => "Dorper",
            SheepBreed::DevonClosewool => "DevonClosewool",
            SheepBreed::DeutschesBlaukoepfigesFleischschaf => "DeutschesBlaukoepfigesFleischschaf",
            SheepBreed::DorsetDown => "DorsetDown",
            SheepBreed::Dorset => "Dorset",
            SheepBreed::Drysdale => "Drysdale",
            SheepBreed::Elliottdale => "Elliottdale",
            SheepBreed::ExmoorHorn => "ExmoorHorn",
            SheepBreed::Fabrianese => "Fabrianese",
            SheepBreed::Faeroes => "Faeroes",
            SheepBreed::Finnsheep => "Finnsheep",
            SheepBreed::FonthillMerino => "FonthillMerino",
            SheepBreed::FriesianMilk => "FriesianMilk",
            SheepBreed::Galway => "Galway",
            SheepBreed::GansuAlpineFineWool => "GansuAlpineFineWool",
            SheepBreed::GentileDiPuglia => "GentileDiPuglia",
            SheepBreed::GermanBlackheadedMutton => "GermanBlackheadedMutton",
            SheepBreed::GermanMountain => "GermanMountain",
            SheepBreed::GermanMuttonMerino => "GermanMuttonMerino",
            SheepBreed::GermanWhiteheadedMutton => "GermanWhiteheadedMutton",
            SheepBreed::Gotland => "Gotland",
            SheepBreed::GraueGehoernteHeidschnucke => "GraueGehoernteHeidschnucke",
            SheepBreed::Gromark => "Gromark",
            SheepBreed::GulfCoastNative => "GulfCoastNative",
            SheepBreed::Gute => "Gute",
            SheepBreed::Hampshire => "Hampshire",
            SheepBreed::Han => "Han",
            SheepBreed::Harnai => "Harnai",
            SheepBreed::HashtNagri => "HashtNagri",
            SheepBreed::Hazaragie => "Hazaragie",
            SheepBreed::Hebridean => "Hebridean",
            SheepBreed::Herdwick => "Herdwick",
            SheepBreed::HillRadnor => "HillRadnor",
            SheepBreed::HogIsland => "HogIsland",
            SheepBreed::Hu => "Hu",
            SheepBreed::Icelandic => "Icelandic",
            SheepBreed::IleDeFrance => "IleDeFrance",
            SheepBreed::IstrianPramenka => "IstrianPramenka",
            SheepBreed::Jacob => "Jacob",
            SheepBreed::JezerskoSolcava => "JezerskoSolcava",
            SheepBreed::Kachhi => "Kachhi",
            SheepBreed::Kajli => "Kajli",
            SheepBreed::Karakul => "Karakul",
            SheepBreed::Katahdin => "Katahdin",
            SheepBreed::KerryHill => "KerryHill",
            SheepBreed::Kooka => "Kooka",
            SheepBreed::Langhe => "Langhe",
            SheepBreed::Lati => "Lati",
            SheepBreed::LeicesterLongwool => "LeicesterLongwool",
            SheepBreed::Leineschaf => "Leineschaf",
            SheepBreed::Lincoln => "Lincoln",
            SheepBreed::Llanwenog => "Llanwenog",
            SheepBreed::Lleyn => "Lleyn",
            SheepBreed::Lohi => "Lohi",
            SheepBreed::Lonk => "Lonk",
            SheepBreed::Luzein => "Luzein",
            SheepBreed::ManxLoaghtan => "ManxLoaghtan",
            SheepBreed::Masai => "Masai",
            SheepBreed::Massese => "Massese",
            SheepBreed::MediumWoolMerino => "MediumWoolMerino",
            SheepBreed::Mehraban => "Mehraban",
            SheepBreed::Merinolandschaf => "Merinolandschaf",
            SheepBreed::Moghani => "Moghani",
            SheepBreed::Montadale => "Montadale",
            SheepBreed::MoradaNova => "MoradaNova",
            SheepBreed::Mouflon => "Mouflon",
            SheepBreed::NavajoChurro => "NavajoChurro",
            SheepBreed::NorfolkHorn => "NorfolkHorn",
            SheepBreed::NorthCountryCheviot => "NorthCountryCheviot",
            SheepBreed::NorwegianFur => "NorwegianFur",
            SheepBreed::OldNorwegian => "OldNorwegian",
            SheepBreed::Orkney => "Orkney",
            SheepBreed::Ossimi => "Ossimi",
            SheepBreed::Oxford => "Oxford",
            SheepBreed::Pagliarola => "Pagliarola",
            SheepBreed::Pelibuey => "Pelibuey",
            SheepBreed::Perendale => "Perendale",
            SheepBreed::Pinzirita => "Pinzirita",
            SheepBreed::PittIsland => "PittIsland",
            SheepBreed::PollMerino => "PollMerino",
            SheepBreed::Polwarth => "Polwarth",
            SheepBreed::Polypay => "Polypay",
            SheepBreed::PomeranianCoarsewool => "PomeranianCoarsewool",
            SheepBreed::Portland => "Portland",
            SheepBreed::Priangan => "Priangan",
            SheepBreed::Qashqai => "Qashqai",
            SheepBreed::QinghaiBlackTibetan => "QinghaiBlackTibetan",
            SheepBreed::QinghaiSemifinewool => "QinghaiSemifinewool",
            SheepBreed::Quadrella => "Quadrella",
            SheepBreed::QuanglinLargeTail => "QuanglinLargeTail",
            SheepBreed::RaboLargo => "RaboLargo",
            SheepBreed::Racka => "Racka",
            SheepBreed::Rambouillet => "Rambouillet",
            SheepBreed::RasaAragonesa => "RasaAragonesa",
            SheepBreed::RedEngadine => "RedEngadine",
            SheepBreed::Rhoenschaf => "Rhoenschaf",
            SheepBreed::RideauArcott => "RideauArcott",
            SheepBreed::Romanov => "Romanov",
            SheepBreed::Romney => "Romney",
            SheepBreed::RougeDeIQuest => "RougeDeIQuest",
            SheepBreed::RoughFell => "RoughFell",
            SheepBreed::RoyalWhite => "RoyalWhite",
            SheepBreed::Rya => "Rya",
            SheepBreed::Ryeland => "Ryeland",
            SheepBreed::Rygja => "Rygja",
            SheepBreed::Sahel => "Sahel",
            SheepBreed::SantaCruz => "SantaCruz",
            SheepBreed::SantaInes => "SantaInes",
            SheepBreed::Sardinian => "Sardinian",
            SheepBreed::SarPlanina => "SarPlanina",
            SheepBreed::ScottishBlackface => "ScottishBlackface",
            SheepBreed::SicilianBarbary => "SicilianBarbary",
            SheepBreed::Shetland => "Shetland",
            SheepBreed::Shropshire => "Shropshire",
            SheepBreed::Skudde => "Skudde",
            SheepBreed::Soay => "Soay",
            SheepBreed::Somali => "Somali",
            SheepBreed::Sopravissana => "Sopravissana",
            SheepBreed::SouthAfricanMerino => "SouthAfricanMerino",
            SheepBreed::SouthAfrianMuttonMerino => "SouthAfrianMuttonMerino",
            SheepBreed::SouthSuffolk => "SouthSuffolk",
            SheepBreed::Southdown => "Southdown",
            SheepBreed::SouthWalesMountain => "SouthWalesMountain",
            SheepBreed::Spaeslau => "Spaeslau",
            SheepBreed::Spiegel => "Spiegel",
            SheepBreed::StCroix => "StCroix",
            SheepBreed::Steigar => "Steigar",
            SheepBreed::Steinschaf => "Steinschaf",
            SheepBreed::StrongWoolMerino => "StrongWoolMerino",
            SheepBreed::Suffolk => "Suffolk",
            SheepBreed::Sumavska => "Sumavska",
            SheepBreed::Swaledale => "Swaledale",
            SheepBreed::SwedishFur => "SwedishFur",
            SheepBreed::Targhee => "Targhee",
            SheepBreed::Teeswater => "Teeswater",
            SheepBreed::Texel => "Texel",
            SheepBreed::Thalli => "Thalli",
            SheepBreed::Tong => "Tong",
            SheepBreed::Touabire => "Touabire",
            SheepBreed::Tsurcana => "Tsurcana",
            SheepBreed::Tunis => "Tunis",
            SheepBreed::TyrolMountain => "TyrolMountain",
            SheepBreed::Uda => "Uda",
            SheepBreed::Ujumqin => "Ujumqin",
            SheepBreed::Ushant => "Ushant",
            SheepBreed::ValaisBlacknose => "ValaisBlacknose",
            SheepBreed::Vendeen => "Vendeen",
            SheepBreed::Walachenschaf => "Walachenschaf",
            SheepBreed::WallisCountry => "WallisCountry",
            SheepBreed::Waziri => "Waziri",
            SheepBreed::WeisseHornloseHeidschnucke => "WeisseHornloseHeidschnucke",
            SheepBreed::WelshHillSpeckledFace => "WelshHillSpeckledFace",
            SheepBreed::WelshMountain => "WelshMountain",
            SheepBreed::WelshMountainBadgerFaced => "WelshMountainBadgerFaced",
            SheepBreed::Wensleydale => "Wensleydale",
            SheepBreed::WestAfricanDwarf => "WestAfricanDwarf",
            SheepBreed::WhiteSuffolk => "WhiteSuffolk",
            SheepBreed::WhitefaceDartmoor => "WhitefaceDartmoor",
            SheepBreed::WhitefaceWoodland => "WhitefaceWoodland",
            SheepBreed::WiltshireHorn => "WiltshireHorn",
            SheepBreed::XinjiangFinewool => "XinjiangFinewool",
            SheepBreed::Yankasa => "Yankasa",
            SheepBreed::YemenWhite => "YemenWhite",
            SheepBreed::Yemeni => "Yemeni",
            SheepBreed::Yiecheng => "Yiecheng",
            SheepBreed::Yoroo => "Yoroo",
            SheepBreed::YunnanSemifinewool => "YunnanSemifinewool",
            SheepBreed::Zaghawa => "Zaghawa",
            SheepBreed::Zagoria => "Zagoria",
            SheepBreed::Zaian => "Zaian",
            SheepBreed::ZaireLongLegged => "ZaireLongLegged",
            SheepBreed::Zakynthos => "Zakynthos",
            SheepBreed::ZeelandMilk => "ZeelandMilk",
            SheepBreed::Zel => "Zel",
            SheepBreed::Zelazna => "Zelazna",
            SheepBreed::Zemmour => "Zemmour",
            SheepBreed::ZetaYellow => "ZetaYellow",
            SheepBreed::Zlatusha => "Zlatusha",
            SheepBreed::Zoulay => "Zoulay",
        }
    }

    /// The name under which the breed is shown.
    pub fn to_string(&self) -> (shown: String)
        ensures
            shown@ == self.canonical_name(),
    {
        match self {
            SheepBreed::BeulahSpeckledFace => "Beulah Speckled-Face".to_string(),
            SheepBreed::BleuDuMaine => "Bleu du Maine".to_string(),
            SheepBreed::BundnerOberland => "Bündner Oberland".to_string(),
            SheepBreed::GansuAlpineFineWool => "Gansu Alpine Fine-Wool".to_string(),
            SheepBreed::IleDeFrance => "Ile-de-France".to_string(),
            SheepBreed::JezerskoSolcava => "Jezersko-Solčava".to_string(),
            SheepBreed::NavajoChurro => "Navajo-Churro".to_string(),
            SheepBreed::QuanglinLargeTail => "Quanglin Large-Tail".to_string(),
            SheepBreed::RougeDeIQuest => "Rouge de l'Ouest".to_string(),
            SheepBreed::Sahel => "Sahel-type".to_string(),
            SheepBreed::SantaInes => "Santa Inês".to_string(),
            SheepBreed::StCroix => "St. Croix (Virgin Island White)".to_string(),
            SheepBreed::Vendeen => "Vendéen".to_string(),
            SheepBreed::ZaireLongLegged => "Zaire Long-Legged".to_string(),
            _ => to_title_case(self.identifier()),
        }
    }

    /// Looks `name` up among the listed names. The comparison is exact, so
    /// `name` is expected in normal form.
    pub fn from_normalized(name: &str) -> (found: Option<SheepBreed>)
        ensures
            found == Self::listed_as(name@),
    {
        let found = Self::search(name);
        proof {
            if let Some(breed) = found {
                Self::lemma_listed_name_is_found(name@, breed);
            }
        }
        found
    }

    /// Goes through the listed names in order and stops at the first that
    /// equals `name`.
    #[verifier::rlimit(30)]
    fn search(name: &str) -> (found: Option<SheepBreed>)
        ensures
            match found {
                Some(breed) => breed.has_name(name@),
                None => forall|breed: SheepBreed| !breed.has_name(name@),
            },
    {
        if same_text(name, "acipayam") {
            return Some(SheepBreed::Acipayam);
        }
        if same_text(name, "adal") {
            return Some(SheepBreed::Adal);
        }
        if same_text(name, "afghan arabi") {
            return Some(SheepBreed::AfghanArabi);
        }
        if same_text(name, "africana") {
            return Some(SheepBreed::Africana);
        }
        if same_text(name, "alai") {
            return Some(SheepBreed::Alai);
        }
        if same_text(name, "alcarrena") {
            return Some(SheepBreed::Alcarrena);
        }
        if same_text(name, "algarve churro") {
            return Some(SheepBreed::AlgarveChurro);
        }
        if same_text(name, "algerian arab") {
            return Some(SheepBreed::AlgerianArab);
        }
        if same_text(name, "altai") {
            return Some(SheepBreed::Altai);
        }
        if same_text(name, "altay") {
            return Some(SheepBreed::Altay);
        }
        if same_text(name, "american blackbelly") {
            return Some(SheepBreed::AmericanBlackbelly);
        }
        if same_text(name, "apennine") {
            return Some(SheepBreed::Apennine);
        }
        if same_text(name, "arabi") {
            return Some(SheepBreed::Arabi);
        }
        if same_text(name, "arapawa island") {
            return Some(SheepBreed::ArapawaIsland);
        }
        if same_text(name, "awassi") {
            return Some(SheepBreed::Awassi);
        }
        if same_text(name, "balkhi") {
            return Some(SheepBreed::Balkhi);
        }
        if same_text(name, "baluchi") {
            return Some(SheepBreed::Baluchi);
        }
        if same_text(name, "balwen welsh mountain") {
            return Some(SheepBreed::BalwenWelshMountain);
        }
        if same_text(name, "barbados blackbelly") {
            return Some(SheepBreed::BarbadosBlackbelly);
        }
        if same_text(name, "bavarian forest") {
            return Some(SheepBreed::BavarianForest);
        }
        if same_text(name, "bentheimer landschaf") {
            return Some(SheepBreed::BentheimerLandschaf);
        }
        if same_text(name, "bergamasca") {
            return Some(SheepBreed::Bergamasca);
        }
        if same_text(name, "beulah speckled face") || same_text(name, "beulah speckle face") {
            return Some(SheepBreed::BeulahSpeckledFace);
        }
        if same_text(name, "bibrik") {
            return Some(SheepBreed::Bibrik);
        }
        if same_text(name, "biellese") {
            return Some(SheepBreed::Biellese);
        }
        if same_text(name, "black welsh mountain") || same_text(name, "blackwelshmountain") {
            return Some(SheepBreed::BlackWelshMountain);
        }
        if same_text(name, "blackhead persian") || same_text(name, "blackheadpersian") {
            return Some(SheepBreed::BlackheadPersian);
        }
        if same_text(name, "bleu du maine") {
            return Some(SheepBreed::BleuDuMaine);
        }
        if same_text(name, "bluefaced leicester") {
            return Some(SheepBreed::BluefacedLeicester);
        }
        if same_text(name, "bond") {
            return Some(SheepBreed::Bond);
        }
        if same_text(name, "booroola merino") {
            return Some(SheepBreed::BooroolaMerino);
        }
        if same_text(name, "border leicester") {
            return Some(SheepBreed::BorderLeicester);
        }
        if same_text(name, "boreray") {
            return Some(SheepBreed::Boreray);
        }
        if same_text(name, "bovska") {
            return Some(SheepBreed::Bovska);
        }
        if same_text(name, "braunes bergschaf") {
            return Some(SheepBreed::BraunesBergschaf);
        }
        if same_text(name, "brazilian somali") {
            return Some(SheepBreed::BrazilianSomali);
        }
        if same_text(name, "brecknock hill cheviot") {
            return Some(SheepBreed::BrecknockHillCheviot);
        }
        if same_text(name, "british milk") {
            return Some(SheepBreed::BritishMilk);
        }
        if same_text(name, "brillenschaf") {
            return Some(SheepBreed::Brillenschaf);
        }
        if same_text(name, "bundner oberland") || same_text(name, "bündner oberland") {
            return Some(SheepBreed::BundnerOberland);
        }
        if same_text(name, "california red") {
            return Some(SheepBreed::CaliforniaRed);
        }
        if same_text(name, "california variegated mutant") {
            return Some(SheepBreed::CaliforniaVariegatedMutant);
        }
        if same_text(name, "campanian barbary") {
            return Some(SheepBreed::CampanianBarbary);
        }
        if same_text(name, "castlemilk moorit") {
            return Some(SheepBreed::CastlemilkMoorit);
        }
        if same_text(name, "charollais") {
            return Some(SheepBreed::Charollais);
        }
        if same_text(name, "cheviot") {
            return Some(SheepBreed::Cheviot);
        }
        if same_text(name, "chios") {
            return Some(SheepBreed::Chios);
        }
        if same_text(name, "cholistani") {
            return Some(SheepBreed::Cholistani);
        }
        if same_text(name, "clun forest") {
            return Some(SheepBreed::ClunForest);
        }
        if same_text(name, "coburger fuchsschaf") {
            return Some(SheepBreed::CoburgerFuchsschaf);
        }
        if same_text(name, "columbia") {
            return Some(SheepBreed::Columbia);
        }
        if same_text(name, "comeback") {
            return Some(SheepBreed::Comeback);
        }
        if same_text(name, "comisana") {
            return Some(SheepBreed::Comisana);
        }
        if same_text(name, "coopworth") {
            return Some(SheepBreed::Coopworth);
        }
        if same_text(name, "cormo") {
            return Some(SheepBreed::Cormo);
        }
        if same_text(name, "corriedale") {
            return Some(SheepBreed::Corriedale);
        }
        if same_text(name, "cotswold") {
            return Some(SheepBreed::Cotswold);
        }
        if same_text(name, "criollo") {
            return Some(SheepBreed::Criollo);
        }
        if same_text(name, "daglic") {
            return Some(SheepBreed::Daglic);
        }
        if same_text(name, "dala") {
            return Some(SheepBreed::Dala);
        }
        if same_text(name, "dalesbred") {
            return Some(SheepBreed::Dalesbred);
        }
        if same_text(name, "damani") {
            return Some(SheepBreed::Damani);
        }
        if same_text(name, "damara") {
            return Some(SheepBreed::Damara);
        }
        if same_text(name, "danish landrace") {
            return Some(SheepBreed::DanishLandrace);
        }
        if same_text(name, "dartmoor") {
            return Some(SheepBreed::Dartmoor);
        }
        if same_text(name, "debouillet") {
            return Some(SheepBreed::Debouillet);
        }
        if same_text(name, "delaine merino") {
            return Some(SheepBreed::DelaineMerino);
        }
        if same_text(name, "derbyshire gritstone") {
            return Some(SheepBreed::DerbyshireGritstone);
        }
        if same_text(name, "dorper") {
            return Some(SheepBreed::Dorper);
        }
        if same_text(name, "devon closewool") {
            return Some(SheepBreed::DevonClosewool);
        }
        if same_text(name, "deutsches blaukoepfiges fleischschaf") {
            return Some(SheepBreed::DeutschesBlaukoepfigesFleischschaf);
        }
        if same_text(name, "dorset down") {
            return Some(SheepBreed::DorsetDown);
        }
        if same_text(name, "dorset") {
            return Some(SheepBreed::Dorset);
        }
        if same_text(name, "drysdale") {
            return Some(SheepBreed::Drysdale);
        }
        if same_text(name, "elliottdale") {
            return Some(SheepBreed::Elliottdale);
        }
        if same_text(name, "exmoor horn") {
            return Some(SheepBreed::ExmoorHorn);
        }
        if same_text(name, "fabrianese") {
            return Some(SheepBreed::Fabrianese);
        }
        if same_text(name, "faeroes") {
            return Some(SheepBreed::Faeroes);
        }
        if same_text(name, "finnsheep") {
            return Some(SheepBreed::Finnsheep);
        }
        if same_text(name, "fonthill merino") {
            return Some(SheepBreed::FonthillMerino);
        }
        if same_text(name, "friesian milk") {
            return Some(SheepBreed::FriesianMilk);
        }
        if same_text(name, "galway") {
            return Some(SheepBreed::Galway);
        }
        if same_text(name, "gansu alpine fine wool") {
            return Some(SheepBreed::GansuAlpineFineWool);
        }
        if same_text(name, "gentile di puglia") {
            return Some(SheepBreed::GentileDiPuglia);
        }
        if same_text(name, "german blackheaded mutton") {
            return Some(SheepBreed::GermanBlackheadedMutton);
        }
        if same_text(name, "german mountain") {
            return Some(SheepBreed::GermanMountain);
        }
        if same_text(name, "german mutton merino") {
            return Some(SheepBreed::GermanMuttonMerino);
        }
        if same_text(name, "german whiteheaded mutton") {
            return Some(SheepBreed::GermanWhiteheadedMutton);
        }
        if same_text(name, "gotland") {
            return Some(SheepBreed::Gotland);
        }
        if same_text(name, "graue gehoernte heidschnucke") {
            return Some(SheepBreed::GraueGehoernteHeidschnucke);
        }
        if same_text(name, "gromark") {
            return Some(SheepBreed::Gromark);
        }
        if same_text(name, "gulf coast native") {
            return Some(SheepBreed::GulfCoastNative);
        }
        if same_text(name, "gute") {
            return Some(SheepBreed::Gute);
        }
        if same_text(name, "hampshire") {
            return Some(SheepBreed::Hampshire);
        }
        if same_text(name, "han") {
            return Some(SheepBreed::Han);
        }
        if same_text(name, "harnai") {
            return Some(SheepBreed::Harnai);
        }
        if same_text(name, "hasht nagri") {
            return Some(SheepBreed::HashtNagri);
        }
        if same_text(name, "hazaragie") {
            return Some(SheepBreed::Hazaragie);
        }
        if same_text(name, "hebridean") {
            return Some(SheepBreed::Hebridean);
        }
        if same_text(name, "herdwick") {
            return Some(SheepBreed::Herdwick);
        }
        if same_text(name, "hill radnor") {
            return Some(SheepBreed::HillRadnor);
        }
        if same_text(name, "hog island") {
            return Some(SheepBreed::HogIsland);
        }
        if same_text(name, "hu") {
            return Some(SheepBreed::Hu);
        }
        if same_text(name, "icelandic") {
            return Some(SheepBreed::Icelandic);
        }
        if same_text(name, "ile de france") {
            return Some(SheepBreed::IleDeFrance);
        }
        if same_text(name, "istrian pramenka") {
            return Some(SheepBreed::IstrianPramenka);
        }
        if same_text(name, "jacob") {
            return Some(SheepBreed::Jacob);
        }
        if same_text(name, "jezersko solcava") || same_text(name, "jezersko solčava") {
            return Some(SheepBreed::JezerskoSolcava);
        }
        if same_text(name, "kachhi") {
            return Some(SheepBreed::Kachhi);
        }
        if same_text(name, "kajli") {
            return Some(SheepBreed::Kajli);
        }
        if same_text(name, "karakul") {
            return Some(SheepBreed::Karakul);
        }
        if same_text(name, "katahdin") {
            return Some(SheepBreed::Katahdin);
        }
        if same_text(name, "kerry hill") {
            return Some(SheepBreed::KerryHill);
        }
        if same_text(name, "kooka") {
            return Some(SheepBreed::Kooka);
        }
        if same_text(name, "langhe") {
            return Some(SheepBreed::Langhe);
        }
        if same_text(name, "lati") {
            return Some(SheepBreed::Lati);
        }
        if same_text(name, "leicester longwool") {
            return Some(SheepBreed::LeicesterLongwool);
        }
        if same_text(name, "leineschaf") {
            return Some(SheepBreed::Leineschaf);
        }
        if same_text(name, "lincoln") {
            return Some(SheepBreed::Lincoln);
        }
        if same_text(name, "llanwenog") {
            return Some(SheepBreed::Llanwenog);
        }
        if same_text(name, "lleyn") {
            return Some(SheepBreed::Lleyn);
        }
        if same_text(name, "lohi") {
            return Some(SheepBreed::Lohi);
        }
        if same_text(name, "lonk") {
            return Some(SheepBreed::Lonk);
        }
        if same_text(name, "luzein") {
            return Some(SheepBreed::Luzein);
        }
        if same_text(name, "manx loaghtan") {
            return Some(SheepBreed::ManxLoaghtan);
        }
        if same_text(name, "masai") {
            return Some(SheepBreed::Masai);
        }
        if same_text(name, "massese") {
            return Some(SheepBreed::Massese);
        }
        if same_text(name, "medium wool merino") {
            return Some(SheepBreed::MediumWoolMerino);
        }
        if same_text(name, "mehraban") {
            return Some(SheepBreed::Mehraban);
        }
        if same_text(name, "merinolandschaf") {
            return Some(SheepBreed::Merinolandschaf);
        }
        if same_text(name, "moghani") {
            return Some(SheepBreed::Moghani);
        }
        if same_text(name, "montadale") {
            return Some(SheepBreed::Montadale);
        }
        if same_text(name, "morada nova") {
            return Some(SheepBreed::MoradaNova);
        }
        if same_text(name, "mouflon") {
            return Some(SheepBreed::Mouflon);
        }
        if same_text(name, "navajo churro") || same_text(name, "navajo-churro") {
            return Some(SheepBreed::NavajoChurro);
        }
        if same_text(name, "norfolk horn") {
            return Some(SheepBreed::NorfolkHorn);
        }
        if same_text(name, "north country cheviot") {
            return Some(SheepBreed::NorthCountryCheviot);
        }
        if same_text(name, "norwegian fur") {
            return Some(SheepBreed::NorwegianFur);
        }
        if same_text(name, "old norwegian") {
            return Some(SheepBreed::OldNorwegian);
        }
        if same_text(name, "orkney") {
            return Some(SheepBreed::Orkney);
        }
        if same_text(name, "ossimi") {
            return Some(SheepBreed::Ossimi);
        }
        if same_text(name, "oxford") {
            return Some(SheepBreed::Oxford);
        }
        if same_text(name, "pagliarola") {
            return Some(SheepBreed::Pagliarola);
        }
        if same_text(name, "pelibuey") {
            return Some(SheepBreed::Pelibuey);
        }
        if same_text(name, "perendale") {
            return Some(SheepBreed::Perendale);
        }
        if same_text(name, "pinzirita") {
            return Some(SheepBreed::Pinzirita);
        }
        if same_text(name, "pitt island") {
            return Some(SheepBreed::PittIsland);
        }
        if same_text(name, "poll merino") {
            return Some(SheepBreed::PollMerino);
        }
        if same_text(name, "polwarth") {
            return Some(SheepBreed::Polwarth);
        }
        if same_text(name, "polypay") {
            return Some(SheepBreed::Polypay);
        }
        if same_text(name, "pomeranian coarsewool") {
            return Some(SheepBreed::PomeranianCoarsewool);
        }
        if same_text(name, "portland") {
            return Some(SheepBreed::Portland);
        }
        if same_text(name, "priangan") {
            return Some(SheepBreed::Priangan);
        }
        if same_text(name, "qashqai") {
            return Some(SheepBreed::Qashqai);
        }
        if same_text(name, "qinghai black tibetan") {
            return Some(SheepBreed::QinghaiBlackTibetan);
        }
        if same_text(name, "qinghai semifinewool") {
            return Some(SheepBreed::QinghaiSemifinewool);
        }
        if same_text(name, "quadrella") {
            return Some(SheepBreed::Quadrella);
        }
        if same_text(name, "quanglin large tail") || same_text(name, "quanglin large-tail") {
            return Some(SheepBreed::QuanglinLargeTail);
        }
        if same_text(name, "rabo largo") {
            return Some(SheepBreed::RaboLargo);
        }
        if same_text(name, "racka") {
            return Some(SheepBreed::Racka);
        }
        if same_text(name, "rambouillet") {
            return Some(SheepBreed::Rambouillet);
        }
        if same_text(name, "rasa aragonesa") {
            return Some(SheepBreed::RasaAragonesa);
        }
        if same_text(name, "red engadine") {
            return Some(SheepBreed::RedEngadine);
        }
        if same_text(name, "rhoenschaf") {
            return Some(SheepBreed::Rhoenschaf);
        }
        if same_text(name, "rideau arcott") {
            return Some(SheepBreed::RideauArcott);
        }
        if same_text(name, "romanov") {
            return Some(SheepBreed::Romanov);
        }
        if same_text(name, "romney") {
            return Some(SheepBreed::Romney);
        }
        if same_text(name, "rouge de l'ouest") {
            return Some(SheepBreed::RougeDeIQuest);
        }
        if same_text(name, "rough fell") {
            return Some(SheepBreed::RoughFell);
        }
        if same_text(name, "royal white") {
            return Some(SheepBreed::RoyalWhite);
        }
        if same_text(name, "rya") {
            return Some(SheepBreed::Rya);
        }
        if same_text(name, "ryeland") {
            return Some(SheepBreed::Ryeland);
        }
        if same_text(name, "rygja") {
            return Some(SheepBreed::Rygja);
        }
        if same_text(name, "sahel") || same_text(name, "sahel type") {
            return Some(SheepBreed::Sahel);
        }
        if same_text(name, "santa cruz") {
            return Some(SheepBreed::SantaCruz);
        }
        if same_text(name, "santa ines") || same_text(name, "santa inês") {
            return Some(SheepBreed::SantaInes);
        }
        if same_text(name, "sardinian") {
            return Some(SheepBreed::Sardinian);
        }
        if same_text(name, "sar planina") {
            return Some(SheepBreed::SarPlanina);
        }
        if same_text(name, "scottish blackface") {
            return Some(SheepBreed::ScottishBlackface);
        }
        if same_text(name, "sicilian barbary") {
            return Some(SheepBreed::SicilianBarbary);
        }
        if same_text(name, "shetland") {
            return Some(SheepBreed::Shetland);
        }
        if same_text(name, "shropshire") {
            return Some(SheepBreed::Shropshire);
        }
        if same_text(name, "skudde") {
            return Some(SheepBreed::Skudde);
        }
        if same_text(name, "soay") {
            return Some(SheepBreed::Soay);
        }
        if same_text(name, "somali") {
            return Some(SheepBreed::Somali);
        }
        if same_text(name, "sopravissana") {
            return Some(SheepBreed::Sopravissana);
        }
        if same_text(name, "south african merino") {
            return Some(SheepBreed::SouthAfricanMerino);
        }
        if same_text(name, "south afrian mutton merino") {
            return Some(SheepBreed::SouthAfrianMuttonMerino);
        }
        if same_text(name, "south suffolk") {
            return Some(SheepBreed::SouthSuffolk);
        }
        if same_text(name, "southdown") {
            return Some(SheepBreed::Southdown);
        }
        if same_text(name, "south wales mountain") {
            return Some(SheepBreed::SouthWalesMountain);
        }
        if same_text(name, "spaeslau") {
            return Some(SheepBreed::Spaeslau);
        }
        if same_text(name, "spiegel") {
            return Some(SheepBreed::Spiegel);
        }
        if same_text(name, "st croix")
            || same_text(name, "virgin island white")
            || same_text(name, "st. croix (virgin island white)")
            || same_text(name, "st. croix")
            || same_text(name, "saint croix")
        {
            return Some(SheepBreed::StCroix);
        }
        if same_text(name, "steigar") {
            return Some(SheepBreed::Steigar);
        }
        if same_text(name, "steinschaf") {
            return Some(SheepBreed::Steinschaf);
        }
        if same_text(name, "strong wool merino") {
            return Some(SheepBreed::StrongWoolMerino);
        }
        if same_text(name, "suffolk") {
            return Some(SheepBreed::Suffolk);
        }
        if same_text(name, "sumavska") {
            return Some(SheepBreed::Sumavska);
        }
        if same_text(name, "swaledale") {
            return Some(SheepBreed::Swaledale);
        }
        if same_text(name, "swedish fur") {
            return Some(SheepBreed::SwedishFur);
        }
        if same_text(name, "targhee") {
            return Some(SheepBreed::Targhee);
        }
        if same_text(name, "teeswater") {
            return Some(SheepBreed::Teeswater);
        }
        if same_text(name, "texel") {
            return Some(SheepBreed::Texel);
        }
        if same_text(name, "thalli") {
            return Some(SheepBreed::Thalli);
        }
        if same_text(name, "tong") {
            return Some(SheepBreed::Tong);
        }
        if same_text(name, "touabire") {
            return Some(SheepBreed::Touabire);
        }
        if same_text(name, "tsurcana") {
            return Some(SheepBreed::Tsurcana);
        }
        if same_text(name, "tunis") {
            return Some(SheepBreed::Tunis);
        }
        if same_text(name, "tyrol mountain") {
            return Some(SheepBreed::TyrolMountain);
        }
        if same_text(name, "uda") {
            return Some(SheepBreed::Uda);
        }
        if same_text(name, "ujumqin") {
            return Some(SheepBreed::Ujumqin);
        }
        if same_text(name, "ushant") {
            return Some(SheepBreed::Ushant);
        }
        if same_text(name, "valais blacknose") {
            return Some(SheepBreed::ValaisBlacknose);
        }
        if same_text(name, "vendeen") || same_text(name, "vendéen") {
            return Some(SheepBreed::Vendeen);
        }
        if same_text(name, "walachenschaf") {
            return Some(SheepBreed::Walachenschaf);
        }
        if same_text(name, "wallis country") {
            return Some(SheepBreed::WallisCountry);
        }
        if same_text(name, "waziri") {
            return Some(SheepBreed::Waziri);
        }
        if same_text(name, "weisse hornlose heidschnucke")
            || same_text(name, "wiess hornlose heidschnucke")
        {
            return Some(SheepBreed::WeisseHornloseHeidschnucke);
        }
        if same_text(name, "welsh hill speckled face") {
            return Some(SheepBreed::WelshHillSpeckledFace);
        }
        if same_text(name, "welsh mountain") {
            return Some(SheepBreed::WelshMountain);
        }
        if same_text(name, "welsh mountain badger faced") {
            return Some(SheepBreed::WelshMountainBadgerFaced);
        }
        if same_text(name, "wensleydale") {
            return Some(SheepBreed::Wensleydale);
        }
        if same_text(name, "west african dwarf") {
            return Some(SheepBreed::WestAfricanDwarf);
        }
        if same_text(name, "white suffolk") {
            return Some(SheepBreed::WhiteSuffolk);
        }
        if same_text(name, "whiteface dartmoor") {
            return Some(SheepBreed::WhitefaceDartmoor);
        }
        if same_text(name, "whiteface woodland") {
            return Some(SheepBreed::WhitefaceWoodland);
        }
        if same_text(name, "wiltshire horn") {
            return Some(SheepBreed::WiltshireHorn);
        }
        if same_text(name, "xinjiang finewool") {
            return Some(SheepBreed::XinjiangFinewool);
        }
        if same_text(name, "yankasa") {
            return Some(SheepBreed::Yankasa);
        }
        if same_text(name, "yemen white") {
            return Some(SheepBreed::YemenWhite);
        }
        if same_text(name, "yemeni") {
            return Some(SheepBreed::Yemeni);
        }
        if same_text(name, "yiecheng") {
            return Some(SheepBreed::Yiecheng);
        }
        if same_text(name, "yoroo") {
            return Some(SheepBreed::Yoroo);
        }
        if same_text(name, "yunnan semifinewool") {
            return Some(SheepBreed::YunnanSemifinewool);
        }
        if same_text(name, "zaghawa") {
            return Some(SheepBreed::Zaghawa);
        }
        if same_text(name, "zagoria") {
            return Some(SheepBreed::Zagoria);
        }
        if same_text(name, "zaian") {
            return Some(SheepBreed::Zaian);
        }
        if same_text(name, "zaire long legged") {
            return Some(SheepBreed::ZaireLongLegged);
        }
        if same_text(name, "zakynthos") {
            return Some(SheepBreed::Zakynthos);
        }
        if same_text(name, "zeeland milk") {
            return Some(SheepBreed::ZeelandMilk);
        }
        if same_text(name, "zel") {
            return Some(SheepBreed::Zel);
        }
        if same_text(name, "zelazna") {
            return Some(SheepBreed::Zelazna);
        }
        if same_text(name, "zemmour") {
            return Some(SheepBreed::Zemmour);
        }
        if same_text(name, "zeta yellow") {
            return Some(SheepBreed::ZetaYellow);
        }
        if same_text(name, "zlatusha") {
            return Some(SheepBreed::Zlatusha);
        }
        if same_text(name, "zoulay") {
            return Some(SheepBreed::Zoulay);
        }
        None
    }

    /// Reads a breed from text. Case is ignored, and a hyphen counts as a space.
    ///
    /// Returns the breed that `s` names. Where `s` names none, the error
    /// carries `s` as it was given.
    pub fn from_str(s: &str) -> (parsed: Result<SheepBreed, BreedNotFound>)
        ensures
            match parsed {
                Ok(breed) => Self::named_by(s@) == Some(breed),
                Err(e) => {
                    &&& Self::named_by(s@) is None
                    &&& e.species == Species::Sheep
                    &&& e.name@ == s@
                },
            },
    {
        let lowered = s.to_lowercase();
        let spaced = replace_char(lowered.as_str(), '-', ' ');
        let found = Self::from_normalized(spaced.as_str());
        match found {
            Some(breed) => Ok(breed),
            None => Err(BreedNotFound { species: Species::Sheep, name: s.to_string() }),
        }
    }

    /// No name is listed for two breeds: a name decides the breed.
    pub proof fn lemma_name_decides_breed(name: Seq<char>, a: SheepBreed, b: SheepBreed)
        requires
            a.has_name(name),
            b.has_name(name),
        ensures
            a == b,
    {
        reveal_strlit("acipayam");
        reveal_strlit("adal");
        reveal_strlit("afghan arabi");
        reveal_strlit("africana");
        reveal_strlit("alai");
        reveal_strlit("alcarrena");
        reveal_strlit("algarve churro");
        reveal_strlit("algerian arab");
        reveal_strlit("altai");
        reveal_strlit("altay");
        reveal_strlit("american blackbelly");
        reveal_strlit("apennine");
        reveal_strlit("arabi");
        reveal_strlit("arapawa island");
        reveal_strlit("awassi");
        reveal_strlit("balkhi");
        reveal_strlit("baluchi");
        reveal_strlit("balwen welsh mountain");
        reveal_strlit("barbados blackbelly");
        reveal_strlit("bavarian forest");
        reveal_strlit("bentheimer landschaf");
        reveal_strlit("bergamasca");
        reveal_strlit("beulah speckled face");
        reveal_strlit("beulah speckle face");
        reveal_strlit("bibrik");
        reveal_strlit("biellese");
        reveal_strlit("black welsh mountain");
        reveal_strlit("blackwelshmountain");
        reveal_strlit("blackhead persian");
        reveal_strlit("blackheadpersian");
        reveal_strlit("bleu du maine");
        reveal_strlit("bluefaced leicester");
        reveal_strlit("bond");
        reveal_strlit("booroola merino");
        reveal_strlit("border leicester");
        reveal_strlit("boreray");
        reveal_strlit("bovska");
        reveal_strlit("braunes bergschaf");
        reveal_strlit("brazilian somali");
        reveal_strlit("brecknock hill cheviot");
        reveal_strlit("british milk");
        reveal_strlit("brillenschaf");
        reveal_strlit("bundner oberland");
        reveal_strlit("bündner oberland");
        reveal_strlit("california red");
        reveal_strlit("california variegated mutant");
        reveal_strlit("campanian barbary");
        reveal_strlit("castlemilk moorit");
        reveal_strlit("charollais");
        reveal_strlit("cheviot");
        reveal_strlit("chios");
        reveal_strlit("cholistani");
        reveal_strlit("clun forest");
        reveal_strlit("coburger fuchsschaf");
        reveal_strlit("columbia");
        reveal_strlit("comeback");
        reveal_strlit("comisana");
        reveal_strlit("coopworth");
        reveal_strlit("cormo");
        reveal_strlit("corriedale");
        reveal_strlit("cotswold");
        reveal_strlit("criollo");
        reveal_strlit("daglic");
        reveal_strlit("dala");
        reveal_strlit("dalesbred");
        reveal_strlit("damani");
        reveal_strlit("damara");
        reveal_strlit("danish landrace");
        reveal_strlit("dartmoor");
        reveal_strlit("debouillet");
        reveal_strlit("delaine merino");
        reveal_strlit("derbyshire gritstone");
        reveal_strlit("dorper");
        reveal_strlit("devon closewool");
        reveal_strlit("deutsches blaukoepfiges fleischschaf");
        reveal_strlit("dorset down");
        reveal_strlit("dorset");
        reveal_strlit("drysdale");
        reveal_strlit("elliottdale");
        reveal_strlit("exmoor horn");
        reveal_strlit("fabrianese");
        reveal_strlit("faeroes");
        reveal_strlit("finnsheep");
        reveal_strlit("fonthill merino");
        reveal_strlit("friesian milk");
        reveal_strlit("galway");
        reveal_strlit("gansu alpine fine wool");
        reveal_strlit("gentile di puglia");
        reveal_strlit("german blackheaded mutton");
        reveal_strlit("german mountain");
        reveal_strlit("german mutton merino");
        reveal_strlit("german whiteheaded mutton");
        reveal_strlit("gotland");
        reveal_strlit("graue gehoernte heidschnucke");
        reveal_strlit("gromark");
        reveal_strlit("gulf coast native");
        reveal_strlit("gute");
        reveal_strlit("hampshire");
        reveal_strlit("han");
        reveal_strlit("harnai");
        reveal_strlit("hasht nagri");
        reveal_strlit("hazaragie");
        reveal_strlit("hebridean");
        reveal_strlit("herdwick");
        reveal_strlit("hill radnor");
        reveal_strlit("hog island");
        reveal_strlit("hu");
        reveal_strlit("icelandic");
        reveal_strlit("ile de france");
        reveal_strlit("istrian pramenka");
        reveal_strlit("jacob");
        reveal_strlit("jezersko solcava");
        reveal_strlit("jezersko solčava");
        reveal_strlit("kachhi");
        reveal_strlit("kajli");
        reveal_strlit("karakul");
        reveal_strlit("katahdin");
        reveal_strlit("kerry hill");
        reveal_strlit("kooka");
        reveal_strlit("langhe");
        reveal_strlit("lati");
        reveal_strlit("leicester longwool");
        reveal_strlit("leineschaf");
        reveal_strlit("lincoln");
        reveal_strlit("llanwenog");
        reveal_strlit("lleyn");
        reveal_strlit("lohi");
        reveal_strlit("lonk");
        reveal_strlit("luzein");
        reveal_strlit("manx loaghtan");
        reveal_strlit("masai");
        reveal_strlit("massese");
        reveal_strlit("medium wool merino");
        reveal_strlit("mehraban");
        reveal_strlit("merinolandschaf");
        reveal_strlit("moghani");
        reveal_strlit("montadale");
        reveal_strlit("morada nova");
        reveal_strlit("mouflon");
        reveal_strlit("navajo churro");
        reveal_strlit("navajo-churro");
        reveal_strlit("norfolk horn");
        reveal_strlit("north country cheviot");
        reveal_strlit("norwegian fur");
        reveal_strlit("old norwegian");
        reveal_strlit("orkney");
        reveal_strlit("ossimi");
        reveal_strlit("oxford");
        reveal_strlit("pagliarola");
        reveal_strlit("pelibuey");
        reveal_strlit("perendale");
        reveal_strlit("pinzirita");
        reveal_strlit("pitt island");
        reveal_strlit("poll merino");
        reveal_strlit("polwarth");
        reveal_strlit("polypay");
        reveal_strlit("pomeranian coarsewool");
        reveal_strlit("portland");
        reveal_strlit("priangan");
        reveal_strlit("qashqai");
        reveal_strlit("qinghai black tibetan");
        reveal_strlit("qinghai semifinewool");
        reveal_strlit("quadrella");
        reveal_strlit("quanglin large tail");
        reveal_strlit("quanglin large-tail");
        reveal_strlit("rabo largo");
        reveal_strlit("racka");
        reveal_strlit("rambouillet");
        reveal_strlit("rasa aragonesa");
        reveal_strlit("red engadine");
        reveal_strlit("rhoenschaf");
        reveal_strlit("rideau arcott");
        reveal_strlit("romanov");
        reveal_strlit("romney");
        reveal_strlit("rouge de l'ouest");
        reveal_strlit("rough fell");
        reveal_strlit("royal white");
        reveal_strlit("rya");
        reveal_strlit("ryeland");
        reveal_strlit("rygja");
        reveal_strlit("sahel");
        reveal_strlit("sahel type");
        reveal_strlit("santa cruz");
        reveal_strlit("santa ines");
        reveal_strlit("santa inês");
        reveal_strlit("sardinian");
        reveal_strlit("sar planina");
        reveal_strlit("scottish blackface");
        reveal_strlit("sicilian barbary");
        reveal_strlit("shetland");
        reveal_strlit("shropshire");
        reveal_strlit("skudde");
        reveal_strlit("soay");
        reveal_strlit("somali");
        reveal_strlit("sopravissana");
        reveal_strlit("south african merino");
        reveal_strlit("south afrian mutton merino");
        reveal_strlit("south suffolk");
        reveal_strlit("southdown");
        reveal_strlit("south wales mountain");
        reveal_strlit("spaeslau");
        reveal_strlit("spiegel");
        reveal_strlit("st croix");
        reveal_strlit("virgin island white");
        reveal_strlit("st. croix (virgin island white)");
        reveal_strlit("st. croix");
        reveal_strlit("saint croix");
        reveal_strlit("steigar");
        reveal_strlit("steinschaf");
        reveal_strlit("strong wool merino");
        reveal_strlit("suffolk");
        reveal_strlit("sumavska");
        reveal_strlit("swaledale");
        reveal_strlit("swedish fur");
        reveal_strlit("targhee");
        reveal_strlit("teeswater");
        reveal_strlit("texel");
        reveal_strlit("thalli");
        reveal_strlit("tong");
        reveal_strlit("touabire");
        reveal_strlit("tsurcana");
        reveal_strlit("tunis");
        reveal_strlit("tyrol mountain");
        reveal_strlit("uda");
        reveal_strlit("ujumqin");
        reveal_strlit("ushant");
        reveal_strlit("valais blacknose");
        reveal_strlit("vendeen");
        reveal_strlit("vendéen");
        reveal_strlit("walachenschaf");
        reveal_strlit("wallis country");
        reveal_strlit("waziri");
        reveal_strlit("weisse hornlose heidschnucke");
        reveal_strlit("wiess hornlose heidschnucke");
        reveal_strlit("welsh hill speckled face");
        reveal_strlit("welsh mountain");
        reveal_strlit("welsh mountain badger faced");
        reveal_strlit("wensleydale");
        reveal_strlit("west african dwarf");
        reveal_strlit("white suffolk");
        reveal_strlit("whiteface dartmoor");
        reveal_strlit("whiteface woodland");
        reveal_strlit("wiltshire horn");
        reveal_strlit("xinjiang finewool");
        reveal_strlit("yankasa");
        reveal_strlit("yemen white");
        reveal_strlit("yemeni");
        reveal_strlit("yiecheng");
        reveal_strlit("yoroo");
        reveal_strlit("yunnan semifinewool");
        reveal_strlit("zaghawa");
        reveal_strlit("zagoria");
        reveal_strlit("zaian");
        reveal_strlit("zaire long legged");
        reveal_strlit("zakynthos");
        reveal_strlit("zeeland milk");
        reveal_strlit("zel");
        reveal_strlit("zelazna");
        reveal_strlit("zemmour");
        reveal_strlit("zeta yellow");
        reveal_strlit("zlatusha");
        reveal_strlit("zoulay");
        // Two listed names differ in their length or in one of their characters.
        let spelling = (
            name.len(), name[0], name[1], name[2], name[3], name[4], name[5], name[6], name[7],
            name[8], name[9], name[10], name[11], name[12], name[13], name[14], name[15],
            name[16], name[17], name[18], name[19], name[20], name[21], name[22], name[23],
            name[24], name[25], name[26], name[27], name[28], name[29], name[30], name[31],
            name[32], name[33], name[34], name[35],
        );
    }

    /// A name that is listed for a breed is found, and gives that breed.
    pub proof fn lemma_listed_name_is_found(name: Seq<char>, breed: SheepBreed)
        requires
            breed.has_name(name),
        ensures
            Self::listed_as(name) == Some(breed),
    {
        Self::lemma_name_decides_breed(name, breed, choose|other: SheepBreed| other.has_name(name));
    }

    /// Every breed is listed under a name, so that a lookup can give it.
    pub proof fn lemma_every_breed_is_listed(breed: SheepBreed)
        ensures
            exists|name: Seq<char>| Self::listed_as(name) == Some(breed),
    {
        let name = match breed {
            SheepBreed::Acipayam => "acipayam"@,
            SheepBreed::Adal => "adal"@,
            SheepBreed::AfghanArabi => "afghan arabi"@,
            SheepBreed::Africana => "africana"@,
            SheepBreed::Alai => "alai"@,
            SheepBreed::Alcarrena => "alcarrena"@,
            SheepBreed::AlgarveChurro => "algarve churro"@,
            SheepBreed::AlgerianArab => "algerian arab"@,
            SheepBreed::Altai => "altai"@,
            SheepBreed::Altay => "altay"@,
            SheepBreed::AmericanBlackbelly => "american blackbelly"@,
            SheepBreed::Apennine => "apennine"@,
            SheepBreed::Arabi => "arabi"@,
            SheepBreed::ArapawaIsland => "arapawa island"@,
            SheepBreed::Awassi => "awassi"@,
            SheepBreed::Balkhi => "balkhi"@,
            SheepBreed::Baluchi => "baluchi"@,
            SheepBreed::BalwenWelshMountain => "balwen welsh mountain"@,
            SheepBreed::BarbadosBlackbelly => "barbados blackbelly"@,
            SheepBreed::BavarianForest => "bavarian forest"@,
            SheepBreed::BentheimerLandschaf => "bentheimer landschaf"@,
            SheepBreed::Bergamasca => "bergamasca"@,
            SheepBreed::BeulahSpeckledFace => "beulah speckled face"@,
            SheepBreed::Bibrik => "bibrik"@,
            SheepBreed::Biellese => "biellese"@,
            SheepBreed::BlackWelshMountain => "black welsh mountain"@,
            SheepBreed::BlackheadPersian => "blackhead persian"@,
            SheepBreed::BleuDuMaine => "bleu du maine"@,
            SheepBreed::BluefacedLeicester => "bluefaced leicester"@,
            SheepBreed::Bond => "bond"@,
            SheepBreed::BooroolaMerino => "booroola merino"@,
            SheepBreed::BorderLeicester => "border leicester"@,
            SheepBreed::Boreray => "boreray"@,
            SheepBreed::Bovska => "bovska"@,
            SheepBreed::BraunesBergschaf => "braunes bergschaf"@,
            SheepBreed::BrazilianSomali => "brazilian somali"@,
            SheepBreed::BrecknockHillCheviot => "brecknock hill cheviot"@,
            SheepBreed::BritishMilk => "british milk"@,
            SheepBreed::Brillenschaf => "brillenschaf"@,
            SheepBreed::BundnerOberland => "bundner oberland"@,
            SheepBreed::CaliforniaRed => "california red"@,
            SheepBreed::CaliforniaVariegatedMutant => "california variegated mutant"@,
            SheepBreed::CampanianBarbary => "campanian barbary"@,
            SheepBreed::CastlemilkMoorit => "castlemilk moorit"@,
            SheepBreed::Charollais => "charollais"@,
            SheepBreed::Cheviot => "cheviot"@,
            SheepBreed::Chios => "chios"@,
            SheepBreed::Cholistani => "cholistani"@,
            SheepBreed::ClunForest => "clun forest"@,
            SheepBreed::CoburgerFuchsschaf => "coburger fuchsschaf"@,
            SheepBreed::Columbia => "columbia"@,
            SheepBreed::Comeback => "comeback"@,
            SheepBreed::Comisana => "comisana"@,
            SheepBreed::Coopworth => "coopworth"@,
            SheepBreed::Cormo => "cormo"@,
            SheepBreed::Corriedale => "corriedale"@,
            SheepBreed::Cotswold => "cotswold"@,
            SheepBreed::Criollo => "criollo"@,
            SheepBreed::Daglic => "daglic"@,
            SheepBreed::Dala => "dala"@,
            SheepBreed::Dalesbred => "dalesbred"@,
            SheepBreed::Damani => "damani"@,
            SheepBreed::Damara => "damara"@,
            SheepBreed::DanishLandrace => "danish landrace"@,
            SheepBreed::Dartmoor => "dartmoor"@,
            SheepBreed::Debouillet => "debouillet"@,
            SheepBreed::DelaineMerino => "delaine merino"@,
            SheepBreed::DerbyshireGritstone => "derbyshire gritstone"@,
            SheepBreed::Dorper => "dorper"@,
            SheepBreed::DevonClosewool => "devon closewool"@,
            SheepBreed::DeutschesBlaukoepfigesFleischschaf => "deutsches blaukoepfiges fleischschaf"@,
            SheepBreed::DorsetDown => "dorset down"@,
            SheepBreed::Dorset => "dorset"@,
            SheepBreed::Drysdale => "drysdale"@,
            SheepBreed::Elliottdale => "elliottdale"@,
            SheepBreed::ExmoorHorn => "exmoor horn"@,
            SheepBreed::Fabrianese => "fabrianese"@,
            SheepBreed::Faeroes => "faeroes"@,
            SheepBreed::Finnsheep => "finnsheep"@,
            SheepBreed::FonthillMerino => "fonthill merino"@,
            SheepBreed::FriesianMilk => "friesian milk"@,
            SheepBreed::Galway => "galway"@,
            SheepBreed::GansuAlpineFineWool => "gansu alpine fine wool"@,
            SheepBreed::GentileDiPuglia => "gentile di puglia"@,
            SheepBreed::GermanBlackheadedMutton => "german blackheaded mutton"@,
            SheepBreed::GermanMountain => "german mountain"@,
            SheepBreed::GermanMuttonMerino => "german mutton merino"@,
            SheepBreed::GermanWhiteheadedMutton => "german whiteheaded mutton"@,
            SheepBreed::Gotland => "gotland"@,
            SheepBreed::GraueGehoernteHeidschnucke => "graue gehoernte heidschnucke"@,
            SheepBreed::Gromark => "gromark"@,
            SheepBreed::GulfCoastNative => "gulf coast native"@,
            SheepBreed::Gute => "gute"@,
            SheepBreed::Hampshire => "hampshire"@,
            SheepBreed::Han => "han"@,
            SheepBreed::Harnai => "harnai"@,
            SheepBreed::HashtNagri => "hasht nagri"@,
            SheepBreed::Hazaragie => "hazaragie"@,
            SheepBreed::Hebridean => "hebridean"@,
            SheepBreed::Herdwick => "herdwick"@,
            SheepBreed::HillRadnor => "hill radnor"@,
            SheepBreed::HogIsland => "hog island"@,
            SheepBreed::Hu => "hu"@,
            SheepBreed::Icelandic => "icelandic"@,
            SheepBreed::IleDeFrance => "ile de france"@,
            SheepBreed::IstrianPramenka => "istrian pramenka"@,
            SheepBreed::Jacob => "jacob"@,
            SheepBreed::JezerskoSolcava => "jezersko solcava"@,
            SheepBreed::Kachhi => "kachhi"@,
            SheepBreed::Kajli => "kajli"@,
            SheepBreed::Karakul => "karakul"@,
            SheepBreed::Katahdin => "katahdin"@,
            SheepBreed::KerryHill => "kerry hill"@,
            SheepBreed::Kooka => "kooka"@,
            SheepBreed::Langhe => "langhe"@,
            SheepBreed::Lati => "lati"@,
            SheepBreed::LeicesterLongwool => "leicester longwool"@,
            SheepBreed::Leineschaf => "leineschaf"@,
            SheepBreed::Lincoln => "lincoln"@,
            SheepBreed::Llanwenog => "llanwenog"@,
            SheepBreed::Lleyn => "lleyn"@,
            SheepBreed::Lohi => "lohi"@,
            SheepBreed::Lonk => "lonk"@,
            SheepBreed::Luzein => "luzein"@,
            SheepBreed::ManxLoaghtan => "manx loaghtan"@,
            SheepBreed::Masai => "masai"@,
            SheepBreed::Massese => "massese"@,
            SheepBreed::MediumWoolMerino => "medium wool merino"@,
            SheepBreed::Mehraban => "mehraban"@,
            SheepBreed::Merinolandschaf => "merinolandschaf"@,
            SheepBreed::Moghani => "moghani"@,
            SheepBreed::Montadale => "montadale"@,
            SheepBreed::MoradaNova => "morada nova"@,
            SheepBreed::Mouflon => "mouflon"@,
            SheepBreed::NavajoChurro => "navajo churro"@,
            SheepBreed::NorfolkHorn => "norfolk horn"@,
            SheepBreed::NorthCountryCheviot => "north country cheviot"@,
            SheepBreed::NorwegianFur => "norwegian fur"@,
            SheepBreed::OldNorwegian => "old norwegian"@,
            SheepBreed::Orkney => "orkney"@,
            SheepBreed::Ossimi => "ossimi"@,
            SheepBreed::Oxford => "oxford"@,
            SheepBreed::Pagliarola => "pagliarola"@,
            SheepBreed::Pelibuey => "pelibuey"@,
            SheepBreed::Perendale => "perendale"@,
            SheepBreed::Pinzirita => "pinzirita"@,
            SheepBreed::PittIsland => "pitt island"@,
            SheepBreed::PollMerino => "poll merino"@,
            SheepBreed::Polwarth => "polwarth"@,
            SheepBreed::Polypay => "polypay"@,
            SheepBreed::PomeranianCoarsewool => "pomeranian coarsewool"@,
            SheepBreed::Portland => "portland"@,
            SheepBreed::Priangan => "priangan"@,
            SheepBreed::Qashqai => "qashqai"@,
            SheepBreed::QinghaiBlackTibetan => "qinghai black tibetan"@,
            SheepBreed::QinghaiSemifinewool => "qinghai semifinewool"@,
            SheepBreed::Quadrella => "quadrella"@,
            SheepBreed::QuanglinLargeTail => "quanglin large tail"@,
            SheepBreed::RaboLargo => "rabo largo"@,
            SheepBreed::Racka => "racka"@,
            SheepBreed::Rambouillet => "rambouillet"@,
            SheepBreed::RasaAragonesa => "rasa aragonesa"@,
            SheepBreed::RedEngadine => "red engadine"@,
            SheepBreed::Rhoenschaf => "rhoenschaf"@,
            SheepBreed::RideauArcott => "rideau arcott"@,
            SheepBreed::Romanov => "romanov"@,
            SheepBreed::Romney => "romney"@,
            SheepBreed::RougeDeIQuest => "rouge de l'ouest"@,
            SheepBreed::RoughFell => "rough fell"@,
            SheepBreed::RoyalWhite => "royal white"@,
            SheepBreed::Rya => "rya"@,
            SheepBreed::Ryeland => "ryeland"@,
            SheepBreed::Rygja => "rygja"@,
            SheepBreed::Sahel => "sahel"@,
            SheepBreed::SantaCruz => "santa cruz"@,
            SheepBreed::SantaInes => "santa ines"@,
            SheepBreed::Sardinian => "sardinian"@,
            SheepBreed::SarPlanina => "sar planina"@,
            SheepBreed::ScottishBlackface => "scottish blackface"@,
            SheepBreed::SicilianBarbary => "sicilian barbary"@,
            SheepBreed::Shetland => "shetland"@,
            SheepBreed::Shropshire => "shropshire"@,
            SheepBreed::Skudde => "skudde"@,
            SheepBreed::Soay => "soay"@,
            SheepBreed::Somali => "somali"@,
            SheepBreed::Sopravissana => "sopravissana"@,
            SheepBreed::SouthAfricanMerino => "south african merino"@,
            SheepBreed::SouthAfrianMuttonMerino => "south afrian mutton merino"@,
            SheepBreed::SouthSuffolk => "south suffolk"@,
            SheepBreed::Southdown => "southdown"@,
            SheepBreed::SouthWalesMountain => "south wales mountain"@,
            SheepBreed::Spaeslau => "spaeslau"@,
            SheepBreed::Spiegel => "spiegel"@,
            SheepBreed::StCroix => "st croix"@,
            SheepBreed::Steigar => "steigar"@,
            SheepBreed::Steinschaf => "steinschaf"@,
            SheepBreed::StrongWoolMerino => "strong wool merino"@,
            SheepBreed::Suffolk => "suffolk"@,
            SheepBreed::Sumavska => "sumavska"@,
            SheepBreed::Swaledale => "swaledale"@,
            SheepBreed::SwedishFur => "swedish fur"@,
            SheepBreed::Targhee => "targhee"@,
            SheepBreed::Teeswater => "teeswater"@,
            SheepBreed::Texel => "texel"@,
            SheepBreed::Thalli => "thalli"@,
            SheepBreed::Tong => "tong"@,
            SheepBreed::Touabire => "touabire"@,
            SheepBreed::Tsurcana => "tsurcana"@,
            SheepBreed::Tunis => "tunis"@,
            SheepBreed::TyrolMountain => "tyrol mountain"@,
            SheepBreed::Uda => "uda"@,
            SheepBreed::Ujumqin => "ujumqin"@,
            SheepBreed::Ushant => "ushant"@,
            SheepBreed::ValaisBlacknose => "valais blacknose"@,
            SheepBreed::Vendeen => "vendeen"@,
            SheepBreed::Walachenschaf => "walachenschaf"@,
            SheepBreed::WallisCountry => "wallis country"@,
            SheepBreed::Waziri => "waziri"@,
            SheepBreed::WeisseHornloseHeidschnucke => "weisse hornlose heidschnucke"@,
            SheepBreed::WelshHillSpeckledFace => "welsh hill speckled face"@,
            SheepBreed::WelshMountain => "welsh mountain"@,
            SheepBreed::WelshMountainBadgerFaced => "welsh mountain badger faced"@,
            SheepBreed::Wensleydale => "wensleydale"@,
            SheepBreed::WestAfricanDwarf => "west african dwarf"@,
            SheepBreed::WhiteSuffolk => "white suffolk"@,
            SheepBreed::WhitefaceDartmoor => "whiteface dartmoor"@,
            SheepBreed::WhitefaceWoodland => "whiteface woodland"@,
            SheepBreed::WiltshireHorn => "wiltshire horn"@,
            SheepBreed::XinjiangFinewool => "xinjiang finewool"@,
            SheepBreed::Yankasa => "yankasa"@,
            SheepBreed::YemenWhite => "yemen white"@,
            SheepBreed::Yemeni => "yemeni"@,
            SheepBreed::Yiecheng => "yiecheng"@,
            SheepBreed::Yoroo => "yoroo"@,
            SheepBreed::YunnanSemifinewool => "yunnan semifinewool"@,
            SheepBreed::Zaghawa => "zaghawa"@,
            SheepBreed::Zagoria => "zagoria"@,
            SheepBreed::Zaian => "zaian"@,
            SheepBreed::ZaireLongLegged => "zaire long legged"@,
            SheepBreed::Zakynthos => "zakynthos"@,
            SheepBreed::ZeelandMilk => "zeeland milk"@,
            SheepBreed::Zel => "zel"@,
            SheepBreed::Zelazna => "zelazna"@,
            SheepBreed::Zemmour => "zemmour"@,
            SheepBreed::ZetaYellow => "zeta yellow"@,
            SheepBreed::Zlatusha => "zlatusha"@,
            SheepBreed::Zoulay => "zoulay"@,
        };
        Self::lemma_listed_name_is_found(name, breed);
    }

    /// A text whose normal form is listed for a breed names that breed.
    pub proof fn lemma_listed_text_names_breed(text: Seq<char>, breed: SheepBreed)
        requires
            breed.has_name(Self::normal_form(text)),
        ensures
            Self::named_by(text) == Some(breed),
    {
        Self::lemma_listed_name_is_found(Self::normal_form(text), breed);
    }

    /// Two texts that are alike in lower case name the same breed, or both
    /// name none.
    pub proof fn lemma_case_is_ignored(s: Seq<char>, t: Seq<char>)
        requires
            lowercase_of(s) == lowercase_of(t),
        ensures
            Self::named_by(s) == Self::named_by(t),
    {
    }

    /// The shown name depends on the breed alone: asking twice gives the
    /// same text.
    pub proof fn lemma_shown_name_is_fixed(a: SheepBreed, b: SheepBreed)
        requires
            a == b,
        ensures
            a.canonical_name() == b.canonical_name(),
    {
    }
}

} // verus!
