//! The name under which every breed is shown.

use livestock_rs::breeds::camel::CamelBreed;
use livestock_rs::breeds::donkey::DonkeyBreed;
use livestock_rs::breeds::goat::GoatBreed;
use livestock_rs::breeds::reindeer::ReindeerBreed;
use livestock_rs::cattle::CattleBreed;
use livestock_rs::chicken::ChickenBreed;
use livestock_rs::sheep::SheepBreed;
use livestock_rs::swine::SwineBreed;

#[test]
fn every_camel_breed_is_shown_under_its_name() {
    let breeds = [
        (CamelBreed::AfarDromedary, "Afar Dromedary"),
        (CamelBreed::AlxaBactrian, "Alxa Bactrian"),
        (CamelBreed::ArvanaDromedary, "Arvana Dromedary"),
        (CamelBreed::KalmykBactrian, "Kalmyk Bactrian"),
        (CamelBreed::SomaliDromedary, "Somali Dromedary"),
    ];

    assert_eq!(breeds.len(), 5);
    for (breed, expected) in breeds.iter() {
        assert_eq!(breed.to_string(), *expected);
    }
}

#[test]
fn every_camel_breed_has_its_identifier() {
    let breeds = [
        (CamelBreed::AfarDromedary, "AfarDromedary"),
        (CamelBreed::AlxaBactrian, "AlxaBactrian"),
        (CamelBreed::ArvanaDromedary, "ArvanaDromedary"),
        (CamelBreed::KalmykBactrian, "KalmykBactrian"),
        (CamelBreed::SomaliDromedary, "SomaliDromedary"),
    ];

    for (breed, expected) in breeds.iter() {
        assert_eq!(breed.identifier(), *expected);
        assert_eq!(format!("{:?}", breed), *expected);
    }
}

#[test]
fn every_donkey_breed_is_shown_under_its_name() {
    let breeds = [
        (DonkeyBreed::Abyssinian, "Abyssinian"),
        (DonkeyBreed::Anatolia, "Anatolia"),
        (DonkeyBreed::LargeStandard, "Large Standard"),
        (DonkeyBreed::MammothJackStock, "Mammoth Jack Stock"),
        (DonkeyBreed::Mary, "Mary"),
        (DonkeyBreed::Miniature, "Miniature"),
        (DonkeyBreed::Poitou, "Poitou"),
        (DonkeyBreed::Standard, "Standard"),
    ];

    assert_eq!(breeds.len(), 8);
    for (breed, expected) in breeds.iter() {
        assert_eq!(breed.to_string(), *expected);
    }
}

#[test]
fn every_donkey_breed_has_its_identifier() {
    let breeds = [
        (DonkeyBreed::Abyssinian, "Abyssinian"),
        (DonkeyBreed::Anatolia, "Anatolia"),
        (DonkeyBreed::LargeStandard, "LargeStandard"),
        (DonkeyBreed::MammothJackStock, "MammothJackStock"),
        (DonkeyBreed::Mary, "Mary"),
        (DonkeyBreed::Miniature, "Miniature"),
        (DonkeyBreed::Poitou, "Poitou"),
        (DonkeyBreed::Standard, "Standard"),
    ];

    for (breed, expected) in breeds.iter() {
        assert_eq!(breed.identifier(), *expected);
        assert_eq!(format!("{:?}", breed), *expected);
    }
}

#[test]
fn every_goat_breed_is_shown_under_its_name() {
    let breeds = [
        (GoatBreed::Alpine, "Alpine"),
        (GoatBreed::AltaiMountain, "Altai Mountain"),
        (GoatBreed::AngloNubian, "Anglo-Nubian"),
        (GoatBreed::Angora, "Angora"),
        (GoatBreed::Appenzell, "Appenzell"),
        (GoatBreed::ArapawaIsland, "Arapawa Island"),
        (GoatBreed::Australian, "Australian"),
        (GoatBreed::Bagot, "Bagot"),
        (GoatBreed::Barbari, "Barbari"),
        (GoatBreed::Beetal, "Beetal"),
        (GoatBreed::BelgianFawn, "Belgian Fawn"),
        (GoatBreed::Benadir, "Benadir"),
        (GoatBreed::Bhuj, "Bhuj"),
        (GoatBreed::Boer, "Boer"),
        (GoatBreed::Booted, "Booted"),
        (GoatBreed::BritishAlpine, "British Alpine"),
        (GoatBreed::BrownShorthair, "Brown Shorthair"),
        (GoatBreed::CanaryIsland, "Canary Island"),
        (GoatBreed::Caninde, "Canindé"),
        (GoatBreed::Cashmere, "Cashmere"),
        (GoatBreed::Chapar, "Chapar"),
        (GoatBreed::Corsican, "Corsican"),
        (GoatBreed::DaeraDinPanah, "Daera Din Panah"),
        (GoatBreed::Damani, "Damani"),
        (GoatBreed::DanishLandrace, "Danish Landrace"),
        (GoatBreed::Don, "Don"),
        (GoatBreed::DutchLandrace, "Dutch Landrace"),
        (GoatBreed::Erzgebirge, "Erzgebirge"),
        (GoatBreed::FinnishLandrace, "Finnish Landrace"),
        (GoatBreed::GoldenGuernsey, "Golden Guernsey"),
        (GoatBreed::GrisonsStriped, "Grisons Striped"),
        (GoatBreed::Hailun, "Hailun"),
        (GoatBreed::Haimen, "Haimen"),
        (GoatBreed::Hasi, "Hasi"),
        (GoatBreed::Hejazi, "Hejazi"),
        (GoatBreed::HexiCashmere, "Hexi Cashmere"),
        (GoatBreed::Hongtong, "Hongtong"),
        (GoatBreed::Huaipi, "Huaipi"),
        (GoatBreed::Huaitoutala, "Huaitoutala"),
        (GoatBreed::HungarianImproved, "Hungarian Improved"),
        (GoatBreed::Irish, "Irish"),
        (GoatBreed::JiningGrey, "Jining Grey"),
        (GoatBreed::Kaghani, "Kaghani"),
        (GoatBreed::KalahariRed, "Kalahari Red"),
        (GoatBreed::Kamori, "Kamori"),
        (GoatBreed::Kiko, "Kiko"),
        (GoatBreed::Kinder, "Kinder"),
        (GoatBreed::LaMancha, "La Mancha"),
        (GoatBreed::Laoshan, "Laoshan"),
        (GoatBreed::Moxoto, "Moxoto"),
        (GoatBreed::MurciaGranada, "Murcia-Granada"),
        (GoatBreed::Myotonic, "Myotonic (Wooden Leg)"),
        (GoatBreed::Nachi, "Nachi"),
        (GoatBreed::NigerianDwarf, "Nigerian Dwarf"),
        (GoatBreed::Norwegian, "Norwegian"),
        (GoatBreed::Oberhasli, "Oberhasli"),
        (GoatBreed::Peacock, "Peacock"),
        (GoatBreed::Philippine, "Philippine"),
        (GoatBreed::Poitou, "Poitou"),
        (GoatBreed::Pygmy, "Pygmy"),
        (GoatBreed::Pyrenean, "Pyrenean"),
        (GoatBreed::Qinshan, "Qinshan"),
        (GoatBreed::Repartida, "Repartida"),
        (GoatBreed::RussianWhiteAndGorki, "Russian White And Gorki"),
        (GoatBreed::Saanen, "Saanen"),
        (GoatBreed::Sahelian, "Sahelian"),
        (GoatBreed::Savanna, "Savanna"),
        (GoatBreed::SanClemente, "San Clemente"),
        (GoatBreed::Somali, "Somali"),
        (GoatBreed::Spanish, "Spanish"),
        (GoatBreed::SRD, "Srd"),
        (GoatBreed::SwedishLandrace, "Swedish Landrace"),
        (GoatBreed::Thuringian, "Thuringian"),
        (GoatBreed::Toggenburg, "Toggenburg"),
        (GoatBreed::UzbekBlack, "Uzbek Black"),
        (GoatBreed::ValaisBlackneck, "Valais Blackneck"),
        (GoatBreed::Verata, "Verata"),
        (GoatBreed::WestAfricanDwarf, "West African Dwarf"),
        (GoatBreed::WhiteShorthair, "White Shorthair"),
        (GoatBreed::Xinjiang, "Xinjiang"),
        (GoatBreed::Xuhai, "Xuhai"),
        (GoatBreed::YemenMountain, "Yemen Mountain"),
        (GoatBreed::Zhongwei, "Zhongwei"),
    ];

    assert_eq!(breeds.len(), 83);
    for (breed, expected) in breeds.iter() {
        assert_eq!(breed.to_string(), *expected);
    }
}

#[test]
fn every_goat_breed_has_its_identifier() {
    let breeds = [
        (GoatBreed::Alpine, "Alpine"),
        (GoatBreed::AltaiMountain, "AltaiMountain"),
        (GoatBreed::AngloNubian, "AngloNubian"),
        (GoatBreed::Angora, "Angora"),
        (GoatBreed::Appenzell, "Appenzell"),
        (GoatBreed::ArapawaIsland, "ArapawaIsland"),
        (GoatBreed::Australian, "Australian"),
        (GoatBreed::Bagot, "Bagot"),
        (GoatBreed::Barbari, "Barbari"),
        (GoatBreed::Beetal, "Beetal"),
        (GoatBreed::BelgianFawn, "BelgianFawn"),
        (GoatBreed::Benadir, "Benadir"),
        (GoatBreed::Bhuj, "Bhuj"),
        (GoatBreed::Boer, "Boer"),
        (GoatBreed::Booted, "Booted"),
        (GoatBreed::BritishAlpine, "BritishAlpine"),
        (GoatBreed::BrownShorthair, "BrownShorthair"),
        (GoatBreed::CanaryIsland, "CanaryIsland"),
        (GoatBreed::Caninde, "Caninde"),
        (GoatBreed::Cashmere, "Cashmere"),
        (GoatBreed::Chapar, "Chapar"),
        (GoatBreed::Corsican, "Corsican"),
        (GoatBreed::DaeraDinPanah, "DaeraDinPanah"),
        (GoatBreed::Damani, "Damani"),
        (GoatBreed::DanishLandrace, "DanishLandrace"),
        (GoatBreed::Don, "Don"),
        (GoatBreed::DutchLandrace, "DutchLandrace"),
        (GoatBreed::Erzgebirge, "Erzgebirge"),
        (GoatBreed::FinnishLandrace, "FinnishLandrace"),
        (GoatBreed::GoldenGuernsey, "GoldenGuernsey"),
        (GoatBreed::GrisonsStriped, "GrisonsStriped"),
        (GoatBreed::Hailun, "Hailun"),
        (GoatBreed::Haimen, "Haimen"),
        (GoatBreed::Hasi, "Hasi"),
        (GoatBreed::Hejazi, "Hejazi"),
        (GoatBreed::HexiCashmere, "HexiCashmere"),
        (GoatBreed::Hongtong, "Hongtong"),
        (GoatBreed::Huaipi, "Huaipi"),
        (GoatBreed::Huaitoutala, "Huaitoutala"),
        (GoatBreed::HungarianImproved, "HungarianImproved"),
        (GoatBreed::Irish, "Irish"),
        (GoatBreed::JiningGrey, "JiningGrey"),
        (GoatBreed::Kaghani, "Kaghani"),
        (GoatBreed::KalahariRed, "KalahariRed"),
        (GoatBreed::Kamori, "Kamori"),
        (GoatBreed::Kiko, "Kiko"),
        (GoatBreed::Kinder, "Kinder"),
        (GoatBreed::LaMancha, "LaMancha"),
        (GoatBreed::Laoshan, "Laoshan"),
        (GoatBreed::Moxoto, "Moxoto"),
        (GoatBreed::MurciaGranada, "MurciaGranada"),
        (GoatBreed::Myotonic, "Myotonic"),
        (GoatBreed::Nachi, "Nachi"),
        (GoatBreed::NigerianDwarf, "NigerianDwarf"),
        (GoatBreed::Norwegian, "Norwegian"),
        (GoatBreed::Oberhasli, "Oberhasli"),
        (GoatBreed::Peacock, "Peacock"),
        (GoatBreed::Philippine, "Philippine"),
        (GoatBreed::Poitou, "Poitou"),
        (GoatBreed::Pygmy, "Pygmy"),
        (GoatBreed::Pyrenean, "Pyrenean"),
        (GoatBreed::Qinshan, "Qinshan"),
        (GoatBreed::Repartida, "Repartida"),
        (GoatBreed::RussianWhiteAndGorki, "RussianWhiteAndGorki"),
        (GoatBreed::Saanen, "Saanen"),
        (GoatBreed::Sahelian, "Sahelian"),
        (GoatBreed::Savanna, "Savanna"),
        (GoatBreed::SanClemente, "SanClemente"),
        (GoatBreed::Somali, "Somali"),
        (GoatBreed::Spanish, "Spanish"),
        (GoatBreed::SRD, "SRD"),
        (GoatBreed::SwedishLandrace, "SwedishLandrace"),
        (GoatBreed::Thuringian, "Thuringian"),
        (GoatBreed::Toggenburg, "Toggenburg"),
        (GoatBreed::UzbekBlack, "UzbekBlack"),
        (GoatBreed::ValaisBlackneck, "ValaisBlackneck"),
        (GoatBreed::Verata, "Verata"),
        (GoatBreed::WestAfricanDwarf, "WestAfricanDwarf"),
        (GoatBreed::WhiteShorthair, "WhiteShorthair"),
        (GoatBreed::Xinjiang, "Xinjiang"),
        (GoatBreed::Xuhai, "Xuhai"),
        (GoatBreed::YemenMountain, "YemenMountain"),
        (GoatBreed::Zhongwei, "Zhongwei"),
    ];

    for (breed, expected) in breeds.iter() {
        assert_eq!(breed.identifier(), *expected);
        assert_eq!(format!("{:?}", breed), *expected);
    }
}

#[test]
fn every_reindeer_breed_is_shown_under_its_name() {
    let breeds = [
        (ReindeerBreed::Chukotka, "Chukotka"),
        (ReindeerBreed::Even, "Even"),
        (ReindeerBreed::Evenk, "Evenk"),
        (ReindeerBreed::Nentsi, "Nentsi"),
    ];

    assert_eq!(breeds.len(), 4);
    for (breed, expected) in breeds.iter() {
        assert_eq!(breed.to_string(), *expected);
    }
}

#[test]
fn every_cattle_breed_is_shown_under_its_name() {
    let breeds = [
        (CattleBreed::Africander, "Africander"),
        (CattleBreed::Akaushi, "Akaushi"),
        (CattleBreed::Alberes, "Alberes"),
        (CattleBreed::Alentejana, "Alentejana"),
        (CattleBreed::Allmogekor, "Allmogekor"),
        (CattleBreed::AmericanBreed, "American Breed"),
        (CattleBreed::AmericanBraford, "American Braford"),
        (CattleBreed::AmericanWhitePark, "American White Park"),
        (CattleBreed::Amerifax, "Amerifax"),
        (CattleBreed::AmritMahal, "Amrit Mahal"),
        (CattleBreed::AnatolianBlack, "Anatolian Black"),
        (CattleBreed::AndalusianBlack, "Andalusian Black"),
        (CattleBreed::AndalusianGrey, "Andalusian Grey"),
        (CattleBreed::Angeln, "Angeln"),
        (CattleBreed::Angus, "Angus"),
        (CattleBreed::Ankole, "Ankole"),
        (CattleBreed::AnkoleWatusi, "Anokole-Watusi"),
        (CattleBreed::ArgentineCriollo, "Argentine Criollo"),
        (CattleBreed::AsturianMountain, "Asturian Mountain"),
        (CattleBreed::AsturianValley, "Asturian Valley"),
        (CattleBreed::Aubrac, "Aubrac"),
        (CattleBreed::AulieAta, "Aulie-Ata"),
        (CattleBreed::AustralianBraford, "Australian Braford"),
        (CattleBreed::AustralianFriesianSahiwal, "Australian Friesian Sahiwal"),
        (CattleBreed::AustralianLowline, "Australian Lowline"),
        (CattleBreed::AustralianMilkingZebu, "Australian Milking Zebu"),
        (CattleBreed::Ayrshire, "Ayrshire"),
        (CattleBreed::Azaouak, "Azaouak"),
        (CattleBreed::Bachaur, "Bachaur"),
        (CattleBreed::Baladi, "Baladi"),
        (CattleBreed::BaltataRomaneasca, "Baltata Romaneasca"),
        (CattleBreed::Barka, "Barka"),
        (CattleBreed::Barzona, "Barzona"),
        (CattleBreed::Bazadais, "Bazadais"),
        (CattleBreed::Bearnais, "Béarnais"),
        (CattleBreed::Beefalo, "Beefalo"),
        (CattleBreed::Beefmaker, "Beefmaker"),
        (CattleBreed::Beefmaster, "Beefmaster"),
        (CattleBreed::BelarusRed, "Belarus Red"),
        (CattleBreed::BelgianBlue, "Belgian Blue"),
        (CattleBreed::BelgianRed, "Belgian Red"),
        (CattleBreed::BelmontAdaptaur, "Belmont Adaptaur"),
        (CattleBreed::BelmontRed, "Belmont Red"),
        (CattleBreed::BeltedGalloway, "Belted Galloway"),
        (CattleBreed::Bengali, "Bengali"),
        (CattleBreed::Berrendas, "Berrendas"),
        (CattleBreed::Bhagnari, "Bhagnari"),
        (CattleBreed::BlackHereford, "Black Hereford"),
        (CattleBreed::BlacksidedTrondheimAndNorland, "Blacksided Trondheim And Norland"),
        (CattleBreed::BlancaCacerena, "Blanca Cacereña/White Cáceres"),
        (CattleBreed::BlancoOrejinegro, "Blanco Orejinegro"),
        (CattleBreed::BlondeDAquitaine, "Blonde d'Aquitaine"),
        (CattleBreed::Bonsmara, "Bonsmara"),
        (CattleBreed::Boran, "Boran"),
        (CattleBreed::Bordelais, "Bordelais"),
        (CattleBreed::Brahman, "Brahman"),
        (CattleBreed::Brahmousin, "Brahmousin"),
        (CattleBreed::Brangus, "Brangus"),
        (CattleBreed::Braunvieh, "Braunvieh"),
        (CattleBreed::BritishWhite, "British White"),
        (CattleBreed::BrownSwiss, "Brown Swiss"),
        (CattleBreed::Busa, "Busa"),
        (CattleBreed::Cachena, "Cachena"),
        (CattleBreed::CanadianHighland, "Canadian Highland"),
        (CattleBreed::Canadienne, "Canadienne"),
        (CattleBreed::CanaryIsland, "Canary Island"),
        (CattleBreed::Canchim, "Canchim"),
        (CattleBreed::CarinthianBlond, "Carinthian Blond"),
        (CattleBreed::Caucasian, "Caucasian"),
        (CattleBreed::Channi, "Channi"),
        (CattleBreed::Charbray, "Charbray"),
        (CattleBreed::Charolais, "Charolais"),
        (CattleBreed::Chianina, "Chianina"),
        (CattleBreed::Chinampo, "Chinampo"),
        (CattleBreed::ChineseBlackAndWhite, "Chinese Black-and-White"),
        (CattleBreed::ChineseMongolian, "Chinese Mongolian"),
        (CattleBreed::ChineseXinjiangBrown, "Chinese Xinjiang Brown"),
        (CattleBreed::Cholistani, "Cholistani"),
        (CattleBreed::Corriente, "Corriente"),
        (CattleBreed::CostenoConCuernos, "Costeño con Cuernos"),
        (CattleBreed::Dajal, "Dajal"),
        (CattleBreed::Damascus, "Damascus"),
        (CattleBreed::Damietta, "Damietta"),
        (CattleBreed::Dangi, "Dangi"),
        (CattleBreed::DanishJersey, "Danish Jersey"),
        (CattleBreed::DanishRed, "Danish Red"),
        (CattleBreed::Deoni, "Deoni"),
        (CattleBreed::Devon, "Devon"),
        (CattleBreed::Dexter, "Dexter"),
        (CattleBreed::Dhanni, "Dhanni"),
        (CattleBreed::Djali, "Djali"),
        (CattleBreed::Dolafe, "Dolafe"),
        (CattleBreed::Droughtmaster, "Droughtmaster"),
        (CattleBreed::Dulong, "Dulong"),
        (CattleBreed::DutchBelted, "Dutch Belted (Lakenvelder)"),
        (CattleBreed::DutchFriesian, "Dutch Friesian"),
        (CattleBreed::EastAnatolianRed, "East Anatolian Red"),
        (CattleBreed::EnderbyIsland, "Enderby Island"),
        (CattleBreed::EnglishLonghorn, "English Longhorn"),
        (CattleBreed::EstonianRed, "Estonian Red"),
        (CattleBreed::Evolene, "Evolene"),
        (CattleBreed::Fighting, "Fighting"),
        (CattleBreed::Finnish, "Finnish"),
        (CattleBreed::Fjall, "Fjall"),
        (CattleBreed::FloridaCracker, "Florida Cracker"),
        (CattleBreed::GalicianBlond, "Galician Blond"),
        (CattleBreed::Galloway, "Galloway"),
        (CattleBreed::Gaolao, "Gaolao"),
        (CattleBreed::Gascon, "Gascon"),
        (CattleBreed::Gelbray, "Gelbray"),
        (CattleBreed::Gelbvieh, "Gelbvieh"),
        (CattleBreed::GermanAngusMoiled, "German Angus Moiled"),
        (CattleBreed::GermanRedPied, "German Red Pied"),
        (CattleBreed::Gir, "Gir"),
        (CattleBreed::Glan, "Glan"),
        (CattleBreed::Gloucester, "Gloucester"),
        (CattleBreed::Gobra, "Gobra"),
        (CattleBreed::GreekShorthorn, "Greek Shorthorn"),
        (CattleBreed::GreekSteppe, "Greek Steppe"),
        (CattleBreed::Groningen, "Groningen"),
        (CattleBreed::Guernsey, "Guernsey"),
        (CattleBreed::Guzerat, "Guzerat"),
        (CattleBreed::Hallikar, "Hallikar"),
        (CattleBreed::Hariana, "Hariana"),
        (CattleBreed::Harton, "Harton"),
        (CattleBreed::HaysConverter, "Hays Converter"),
        (CattleBreed::Hereford, "Hereford"),
        (CattleBreed::Herens, "Herens"),
        (CattleBreed::Highland, "Highland"),
        (CattleBreed::Hinterwald, "Hinterwald"),
        (CattleBreed::HolandoArgentino, "Holando Argentino"),
        (CattleBreed::Holstein, "Holstein"),
        (CattleBreed::Horro, "Horro"),
        (CattleBreed::HungarianGrey, "Hungarian Grey"),
        (CattleBreed::Icelandic, "Icelandic"),
        (CattleBreed::Illawarra, "Illawarra"),
        (CattleBreed::IndoBrazilian, "Indo Brazilian"),
        (CattleBreed::IrishMoiled, "Irish Moiled"),
        (CattleBreed::IsraeliHolstein, "Israeli Holstein"),
        (CattleBreed::IsraeliRed, "Israeli Red"),
        (CattleBreed::Istoben, "Istoben"),
        (CattleBreed::JamaicaBlack, "Jamaica Black"),
        (CattleBreed::JamaicaHope, "Jamaica Hope"),
        (CattleBreed::JamaicaRed, "Jamaica Red"),
        (CattleBreed::Jaulan, "Jaulan"),
        (CattleBreed::Jersey, "Jersey"),
        (CattleBreed::Kangayam, "Kangayam"),
        (CattleBreed::Kankrej, "Kankrej"),
        (CattleBreed::KaranFries, "Karan Fries"),
        (CattleBreed::KaranSwiss, "Karan Swiss"),
        (CattleBreed::Kazakh, "Kazakh"),
        (CattleBreed::Kenwariya, "Kenwariya"),
        (CattleBreed::Kerry, "Kerry"),
        (CattleBreed::Kherigarh, "Kherigarh"),
        (CattleBreed::Khillari, "Khillari"),
        (CattleBreed::Kholmogory, "Kholmogory"),
        (CattleBreed::Kilis, "Kilis"),
        (CattleBreed::KrishnaValley, "Krishna Valley"),
        (CattleBreed::KurdiBlack, "Kurdi Black"),
        (CattleBreed::Kuri, "Kuri"),
        (CattleBreed::LatvianBrown, "Latvian Brown"),
        (CattleBreed::Limousin, "Limousin"),
        (CattleBreed::Limpurger, "Limpurger"),
        (CattleBreed::LincolnRed, "Lincoln Red"),
        (CattleBreed::LithuanianRed, "Lithuanian Red"),
        (CattleBreed::Lohani, "Lohani"),
        (CattleBreed::Lourdais, "Lourdais"),
        (CattleBreed::Luing, "Luing"),
        (CattleBreed::MadagascarZebu, "Madagascar Zebu"),
        (CattleBreed::MaineAnjou, "Maine Anjou"),
        (CattleBreed::Malvi, "Malvi"),
        (CattleBreed::Mandalong, "Mandalong"),
        (CattleBreed::Marchigiana, "Marchigiana"),
        (CattleBreed::Maremmana, "Maremmana"),
        (CattleBreed::Masai, "Masai"),
        (CattleBreed::Mashona, "Mashona"),
        (CattleBreed::Maure, "Maure"),
        (CattleBreed::Mazandarani, "Mazandarani"),
        (CattleBreed::MeuseRhineYssel, "Meuse Rhine Yssel"),
        (CattleBreed::Mewati, "Mewati"),
        (CattleBreed::MilkingDevon, "Milking Devon"),
        (CattleBreed::MilkingShorthorn, "Milking Shorthorn"),
        (CattleBreed::MiniatureZebu, "Miniature Zebu"),
        (CattleBreed::Mirandesa, "Mirandesa"),
        (CattleBreed::Modicana, "Modicana"),
        (CattleBreed::Montbeliard, "Montbeliard"),
        (CattleBreed::Morucha, "Morucha"),
        (CattleBreed::Murboden, "Murboden"),
        (CattleBreed::MurrayGrey, "Murray Grey"),
        (CattleBreed::Muturu, "Muturu"),
        (CattleBreed::Ndama, "Ndama"),
        (CattleBreed::Nagori, "Nagori"),
        (CattleBreed::Nanyang, "Nanyang"),
        (CattleBreed::Nelore, "Nelore"),
        (CattleBreed::Nguni, "Nguni"),
        (CattleBreed::Nimari, "Nimari"),
        (CattleBreed::Normande, "Normande"),
        (CattleBreed::NorwegianRed, "Norwegian Red"),
        (CattleBreed::Ongole, "Ongole"),
        (CattleBreed::OrmaBoran, "Orma Boran"),
        (CattleBreed::Oropa, "Oropa"),
        (CattleBreed::Ovambo, "Ovambo"),
        (CattleBreed::Parthenais, "Parthenais"),
        (CattleBreed::PhilippineNative, "Philippine Native"),
        (CattleBreed::Piedmontese, "Piedmontese"),
        (CattleBreed::Pinzgauer, "Pinzgauer"),
        (CattleBreed::PolishRed, "Polish Red"),
        (CattleBreed::PolledHereford, "Polled Hereford"),
        (CattleBreed::Ponwar, "Ponwar"),
        (CattleBreed::Qinchuan, "Qinchuan"),
        (CattleBreed::Rath, "Rath"),
        (CattleBreed::Rathi, "Rathi"),
        (CattleBreed::RatienGray, "Ratien Gray"),
        (CattleBreed::RedAngus, "Red Angus"),
        (CattleBreed::RedBrangus, "Red Brangus"),
        (CattleBreed::RedFulani, "Red Fulani"),
        (CattleBreed::RedPiedFriesian, "Red Pied Friesian"),
        (CattleBreed::RedPoll, "Red Poll"),
        (CattleBreed::RedPolledOstland, "Red Polled Ostland"),
        (CattleBreed::RedSindhi, "Red Sindhi"),
        (CattleBreed::RedSteppe, "Red Steppe"),
        (CattleBreed::Reggiana, "Reggiana"),
        (CattleBreed::Retinta, "Retinta"),
        (CattleBreed::Rojhan, "Rojhan"),
        (CattleBreed::Romagnola, "Romagnola"),
        (CattleBreed::Romosinuano, "Romosinuano"),
        (CattleBreed::RussianBlackPied, "Russian Black Pied"),
        (CattleBreed::RX3, "Rx3"),
        (CattleBreed::Sahiwal, "Sahiwal"),
        (CattleBreed::Salers, "Salers"),
        (CattleBreed::Salorn, "Salorn"),
        (CattleBreed::SanMartinero, "San Martinero"),
        (CattleBreed::Sanhe, "Sanhe"),
        (CattleBreed::SantaCruz, "Santa Cruz"),
        (CattleBreed::SantaGertrudis, "Santa Gertrudis"),
        (CattleBreed::Sarabi, "Sarabi"),
        (CattleBreed::Senepol, "Senepol"),
        (CattleBreed::Shetland, "Shetland"),
        (CattleBreed::Shorthorn, "Shorthorn"),
        (CattleBreed::Siboney, "Siboney"),
        (CattleBreed::Simbrah, "Simbrah"),
        (CattleBreed::Simmental, "Simmental"),
        (CattleBreed::Siri, "Siri"),
        (CattleBreed::SlovenianCika, "Slovenian Cika"),
        (CattleBreed::SouthDevon, "South Devon"),
        (CattleBreed::SudaneseFulani, "Sudanese Fulani"),
        (CattleBreed::Sussex, "Sussex"),
        (CattleBreed::SwedishFriesian, "Swedish Friesian"),
        (CattleBreed::SwedishRedPolled, "Swedish Red Polled"),
        (CattleBreed::SwedishRedAndWhite, "Swedish Red And White"),
        (CattleBreed::Tarentaise, "Tarentaise"),
        (CattleBreed::Telemark, "Telemark"),
        (CattleBreed::TexasLonghorn, "Texas Longhorn"),
        (CattleBreed::Texon, "Texon"),
        (CattleBreed::Tharparkar, "Tharparkar"),
        (CattleBreed::Tswana, "Tswana"),
        (CattleBreed::Tuli, "Tuli"),
        (CattleBreed::TurkishGreySteppe, "Turkish Grey Steppe"),
        (CattleBreed::UkrainianBeef, "Ukrainian Beef"),
        (CattleBreed::UkrainianGrey, "Ukrainian Grey"),
        (CattleBreed::UkrainianWhitehead, "Ukrainian Whitehead"),
        (CattleBreed::Umblachery, "Umblachery"),
        (CattleBreed::UralBlackPied, "Ural Black Pied"),
        (CattleBreed::VestlandFjord, "Vestland Fjord"),
        (CattleBreed::VestlandRedPolled, "Vestland Red Polled"),
        (CattleBreed::Vosges, "Vosges"),
        (CattleBreed::Wagyu, "Wagyu"),
        (CattleBreed::WelshBlack, "Welsh Black"),
        (CattleBreed::WhitePark, "White Park"),
        (CattleBreed::Yanbian, "Yanbian"),
    ];

    assert_eq!(breeds.len(), 270);
    for (breed, expected) in breeds.iter() {
        assert_eq!(breed.to_string(), *expected);
    }
}

#[test]
fn every_cattle_breed_has_its_identifier() {
    let breeds = [
        (CattleBreed::Africander, "Africander"),
        (CattleBreed::Akaushi, "Akaushi"),
        (CattleBreed::Alberes, "Alberes"),
        (CattleBreed::Alentejana, "Alentejana"),
        (CattleBreed::Allmogekor, "Allmogekor"),
        (CattleBreed::AmericanBreed, "AmericanBreed"),
        (CattleBreed::AmericanBraford, "AmericanBraford"),
        (CattleBreed::AmericanWhitePark, "AmericanWhitePark"),
        (CattleBreed::Amerifax, "Amerifax"),
        (CattleBreed::AmritMahal, "AmritMahal"),
        (CattleBreed::AnatolianBlack, "AnatolianBlack"),
        (CattleBreed::AndalusianBlack, "AndalusianBlack"),
        (CattleBreed::AndalusianGrey, "AndalusianGrey"),
        (CattleBreed::Angeln, "Angeln"),
        (CattleBreed::Angus, "Angus"),
        (CattleBreed::Ankole, "Ankole"),
        (CattleBreed::AnkoleWatusi, "AnkoleWatusi"),
        (CattleBreed::ArgentineCriollo, "ArgentineCriollo"),
        (CattleBreed::AsturianMountain, "AsturianMountain"),
        (CattleBreed::AsturianValley, "AsturianValley"),
        (CattleBreed::Aubrac, "Aubrac"),
        (CattleBreed::AulieAta, "AulieAta"),
        (CattleBreed::AustralianBraford, "AustralianBraford"),
        (CattleBreed::AustralianFriesianSahiwal, "AustralianFriesianSahiwal"),
        (CattleBreed::AustralianLowline, "AustralianLowline"),
        (CattleBreed::AustralianMilkingZebu, "AustralianMilkingZebu"),
        (CattleBreed::Ayrshire, "Ayrshire"),
        (CattleBreed::Azaouak, "Azaouak"),
        (CattleBreed::Bachaur, "Bachaur"),
        (CattleBreed::Baladi, "Baladi"),
        (CattleBreed::BaltataRomaneasca, "BaltataRomaneasca"),
        (CattleBreed::Barka, "Barka"),
        (CattleBreed::Barzona, "Barzona"),
        (CattleBreed::Bazadais, "Bazadais"),
        (CattleBreed::Bearnais, "Bearnais"),
        (CattleBreed::Beefalo, "Beefalo"),
        (CattleBreed::Beefmaker, "Beefmaker"),
        (CattleBreed::Beefmaster, "Beefmaster"),
        (CattleBreed::BelarusRed, "BelarusRed"),
        (CattleBreed::BelgianBlue, "BelgianBlue"),
        (CattleBreed::BelgianRed, "BelgianRed"),
        (CattleBreed::BelmontAdaptaur, "BelmontAdaptaur"),
        (CattleBreed::BelmontRed, "BelmontRed"),
        (CattleBreed::BeltedGalloway, "BeltedGalloway"),
        (CattleBreed::Bengali, "Bengali"),
        (CattleBreed::Berrendas, "Berrendas"),
        (CattleBreed::Bhagnari, "Bhagnari"),
        (CattleBreed::BlackHereford, "BlackHereford"),
        (CattleBreed::BlacksidedTrondheimAndNorland, "BlacksidedTrondheimAndNorland"),
        (CattleBreed::BlancaCacerena, "BlancaCacerena"),
        (CattleBreed::BlancoOrejinegro, "BlancoOrejinegro"),
        (CattleBreed::BlondeDAquitaine, "BlondeDAquitaine"),
        (CattleBreed::Bonsmara, "Bonsmara"),
        (CattleBreed::Boran, "Boran"),
        (CattleBreed::Bordelais, "Bordelais"),
        (CattleBreed::Brahman, "Brahman"),
        (CattleBreed::Brahmousin, "Brahmousin"),
        (CattleBreed::Brangus, "Brangus"),
        (CattleBreed::Braunvieh, "Braunvieh"),
        (CattleBreed::BritishWhite, "BritishWhite"),
        (CattleBreed::BrownSwiss, "BrownSwiss"),
        (CattleBreed::Busa, "Busa"),
        (CattleBreed::Cachena, "Cachena"),
        (CattleBreed::CanadianHighland, "CanadianHighland"),
        (CattleBreed::Canadienne, "Canadienne"),
        (CattleBreed::CanaryIsland, "CanaryIsland"),
        (CattleBreed::Canchim, "Canchim"),
        (CattleBreed::CarinthianBlond, "CarinthianBlond"),
        (CattleBreed::Caucasian, "Caucasian"),
        (CattleBreed::Channi, "Channi"),
        (CattleBreed::Charbray, "Charbray"),
        (CattleBreed::Charolais, "Charolais"),
        (CattleBreed::Chianina, "Chianina"),
        (CattleBreed::Chinampo, "Chinampo"),
        (CattleBreed::ChineseBlackAndWhite, "ChineseBlackAndWhite"),
        (CattleBreed::ChineseMongolian, "ChineseMongolian"),
        (CattleBreed::ChineseXinjiangBrown, "ChineseXinjiangBrown"),
        (CattleBreed::Cholistani, "Cholistani"),
        (CattleBreed::Corriente, "Corriente"),
        (CattleBreed::CostenoConCuernos, "CostenoConCuernos"),
        (CattleBreed::Dajal, "Dajal"),
        (CattleBreed::Damascus, "Damascus"),
        (CattleBreed::Damietta, "Damietta"),
        (CattleBreed::Dangi, "Dangi"),
        (CattleBreed::DanishJersey, "DanishJersey"),
        (CattleBreed::DanishRed, "DanishRed"),
        (CattleBreed::Deoni, "Deoni"),
        (CattleBreed::Devon, "Devon"),
        (CattleBreed::Dexter, "Dexter"),
        (CattleBreed::Dhanni, "Dhanni"),
        (CattleBreed::Djali, "Djali"),
        (CattleBreed::Dolafe, "Dolafe"),
        (CattleBreed::Droughtmaster, "Droughtmaster"),
        (CattleBreed::Dulong, "Dulong"),
        (CattleBreed::DutchBelted, "DutchBelted"),
        (CattleBreed::DutchFriesian, "DutchFriesian"),
        (CattleBreed::EastAnatolianRed, "EastAnatolianRed"),
        (CattleBreed::EnderbyIsland, "EnderbyIsland"),
        (CattleBreed::EnglishLonghorn, "EnglishLonghorn"),
        (CattleBreed::EstonianRed, "EstonianRed"),
        (CattleBreed::Evolene, "Evolene"),
        (CattleBreed::Fighting, "Fighting"),
        (CattleBreed::Finnish, "Finnish"),
        (CattleBreed::Fjall, "Fjall"),
        (CattleBreed::FloridaCracker, "FloridaCracker"),
        (CattleBreed::GalicianBlond, "GalicianBlond"),
        (CattleBreed::Galloway, "Galloway"),
        (CattleBreed::Gaolao, "Gaolao"),
        (CattleBreed::Gascon, "Gascon"),
        (CattleBreed::Gelbray, "Gelbray"),
        (CattleBreed::Gelbvieh, "Gelbvieh"),
        (CattleBreed::GermanAngusMoiled, "GermanAngusMoiled"),
        (CattleBreed::GermanRedPied, "GermanRedPied"),
        (CattleBreed::Gir, "Gir"),
        (CattleBreed::Glan, "Glan"),
        (CattleBreed::Gloucester, "Gloucester"),
        (CattleBreed::Gobra, "Gobra"),
        (CattleBreed::GreekShorthorn, "GreekShorthorn"),
        (CattleBreed::GreekSteppe, "GreekSteppe"),
        (CattleBreed::Groningen, "Groningen"),
        (CattleBreed::Guernsey, "Guernsey"),
        (CattleBreed::Guzerat, "Guzerat"),
        (CattleBreed::Hallikar, "Hallikar"),
        (CattleBreed::Hariana, "Hariana"),
        (CattleBreed::Harton, "Harton"),
        (CattleBreed::HaysConverter, "HaysConverter"),
        (CattleBreed::Hereford, "Hereford"),
        (CattleBreed::Herens, "Herens"),
        (CattleBreed::Highland, "Highland"),
        (CattleBreed::Hinterwald, "Hinterwald"),
        (CattleBreed::HolandoArgentino, "HolandoArgentino"),
        (CattleBreed::Holstein, "Holstein"),
        (CattleBreed::Horro, "Horro"),
        (CattleBreed::HungarianGrey, "HungarianGrey"),
        (CattleBreed::Icelandic, "Icelandic"),
        (CattleBreed::Illawarra, "Illawarra"),
        (CattleBreed::IndoBrazilian, "IndoBrazilian"),
        (CattleBreed::IrishMoiled, "IrishMoiled"),
        (CattleBreed::IsraeliHolstein, "IsraeliHolstein"),
        (CattleBreed::IsraeliRed, "IsraeliRed"),
        (CattleBreed::Istoben, "Istoben"),
        (CattleBreed::JamaicaBlack, "JamaicaBlack"),
        (CattleBreed::JamaicaHope, "JamaicaHope"),
        (CattleBreed::JamaicaRed, "JamaicaRed"),
        (CattleBreed::Jaulan, "Jaulan"),
        (CattleBreed::Jersey, "Jersey"),
        (CattleBreed::Kangayam, "Kangayam"),
        (CattleBreed::Kankrej, "Kankrej"),
        (CattleBreed::KaranFries, "KaranFries"),
        (CattleBreed::KaranSwiss, "KaranSwiss"),
        (CattleBreed::Kazakh, "Kazakh"),
        (CattleBreed::Kenwariya, "Kenwariya"),
        (CattleBreed::Kerry, "Kerry"),
        (CattleBreed::Kherigarh, "Kherigarh"),
        (CattleBreed::Khillari, "Khillari"),
        (CattleBreed::Kholmogory, "Kholmogory"),
        (CattleBreed::Kilis, "Kilis"),
        (CattleBreed::KrishnaValley, "KrishnaValley"),
        (CattleBreed::KurdiBlack, "KurdiBlack"),
        (CattleBreed::Kuri, "Kuri"),
        (CattleBreed::LatvianBrown, "LatvianBrown"),
        (CattleBreed::Limousin, "Limousin"),
        (CattleBreed::Limpurger, "Limpurger"),
        (CattleBreed::LincolnRed, "LincolnRed"),
        (CattleBreed::LithuanianRed, "LithuanianRed"),
        (CattleBreed::Lohani, "Lohani"),
        (CattleBreed::Lourdais, "Lourdais"),
        (CattleBreed::Luing, "Luing"),
        (CattleBreed::MadagascarZebu, "MadagascarZebu"),
        (CattleBreed::MaineAnjou, "MaineAnjou"),
        (CattleBreed::Malvi, "Malvi"),
        (CattleBreed::Mandalong, "Mandalong"),
        (CattleBreed::Marchigiana, "Marchigiana"),
        (CattleBreed::Maremmana, "Maremmana"),
        (CattleBreed::Masai, "Masai"),
        (CattleBreed::Mashona, "Mashona"),
        (CattleBreed::Maure, "Maure"),
        (CattleBreed::Mazandarani, "Mazandarani"),
        (CattleBreed::MeuseRhineYssel, "MeuseRhineYssel"),
        (CattleBreed::Mewati, "Mewati"),
        (CattleBreed::MilkingDevon, "MilkingDevon"),
        (CattleBreed::MilkingShorthorn, "MilkingShorthorn"),
        (CattleBreed::MiniatureZebu, "MiniatureZebu"),
        (CattleBreed::Mirandesa, "Mirandesa"),
        (CattleBreed::Modicana, "Modicana"),
        (CattleBreed::Montbeliard, "Montbeliard"),
        (CattleBreed::Morucha, "Morucha"),
        (CattleBreed::Murboden, "Murboden"),
        (CattleBreed::MurrayGrey, "MurrayGrey"),
        (CattleBreed::Muturu, "Muturu"),
        (CattleBreed::Ndama, "Ndama"),
        (CattleBreed::Nagori, "Nagori"),
        (CattleBreed::Nanyang, "Nanyang"),
        (CattleBreed::Nelore, "Nelore"),
        (CattleBreed::Nguni, "Nguni"),
        (CattleBreed::Nimari, "Nimari"),
        (CattleBreed::Normande, "Normande"),
        (CattleBreed::NorwegianRed, "NorwegianRed"),
        (CattleBreed::Ongole, "Ongole"),
        (CattleBreed::OrmaBoran, "OrmaBoran"),
        (CattleBreed::Oropa, "Oropa"),
        (CattleBreed::Ovambo, "Ovambo"),
        (CattleBreed::Parthenais, "Parthenais"),
        (CattleBreed::PhilippineNative, "PhilippineNative"),
        (CattleBreed::Piedmontese, "Piedmontese"),
        (CattleBreed::Pinzgauer, "Pinzgauer"),
        (CattleBreed::PolishRed, "PolishRed"),
        (CattleBreed::PolledHereford, "PolledHereford"),
        (CattleBreed::Ponwar, "Ponwar"),
        (CattleBreed::Qinchuan, "Qinchuan"),
        (CattleBreed::Rath, "Rath"),
        (CattleBreed::Rathi, "Rathi"),
        (CattleBreed::RatienGray, "RatienGray"),
        (CattleBreed::RedAngus, "RedAngus"),
        (CattleBreed::RedBrangus, "RedBrangus"),
        (CattleBreed::RedFulani, "RedFulani"),
        (CattleBreed::RedPiedFriesian, "RedPiedFriesian"),
        (CattleBreed::RedPoll, "RedPoll"),
        (CattleBreed::RedPolledOstland, "RedPolledOstland"),
        (CattleBreed::RedSindhi, "RedSindhi"),
        (CattleBreed::RedSteppe, "RedSteppe"),
        (CattleBreed::Reggiana, "Reggiana"),
        (CattleBreed::Retinta, "Retinta"),
        (CattleBreed::Rojhan, "Rojhan"),
        (CattleBreed::Romagnola, "Romagnola"),
        (CattleBreed::Romosinuano, "Romosinuano"),
        (CattleBreed::RussianBlackPied, "RussianBlackPied"),
        (CattleBreed::RX3, "RX3"),
        (CattleBreed::Sahiwal, "Sahiwal"),
        (CattleBreed::Salers, "Salers"),
        (CattleBreed::Salorn, "Salorn"),
        (CattleBreed::SanMartinero, "SanMartinero"),
        (CattleBreed::Sanhe, "Sanhe"),
        (CattleBreed::SantaCruz, "SantaCruz"),
        (CattleBreed::SantaGertrudis, "SantaGertrudis"),
        (CattleBreed::Sarabi, "Sarabi"),
        (CattleBreed::Senepol, "Senepol"),
        (CattleBreed::Shetland, "Shetland"),
        (CattleBreed::Shorthorn, "Shorthorn"),
        (CattleBreed::Siboney, "Siboney"),
        (CattleBreed::Simbrah, "Simbrah"),
        (CattleBreed::Simmental, "Simmental"),
        (CattleBreed::Siri, "Siri"),
        (CattleBreed::SlovenianCika, "SlovenianCika"),
        (CattleBreed::SouthDevon, "SouthDevon"),
        (CattleBreed::SudaneseFulani, "SudaneseFulani"),
        (CattleBreed::Sussex, "Sussex"),
        (CattleBreed::SwedishFriesian, "SwedishFriesian"),
        (CattleBreed::SwedishRedPolled, "SwedishRedPolled"),
        (CattleBreed::SwedishRedAndWhite, "SwedishRedAndWhite"),
        (CattleBreed::Tarentaise, "Tarentaise"),
        (CattleBreed::Telemark, "Telemark"),
        (CattleBreed::TexasLonghorn, "TexasLonghorn"),
        (CattleBreed::Texon, "Texon"),
        (CattleBreed::Tharparkar, "Tharparkar"),
        (CattleBreed::Tswana, "Tswana"),
        (CattleBreed::Tuli, "Tuli"),
        (CattleBreed::TurkishGreySteppe, "TurkishGreySteppe"),
        (CattleBreed::UkrainianBeef, "UkrainianBeef"),
        (CattleBreed::UkrainianGrey, "UkrainianGrey"),
        (CattleBreed::UkrainianWhitehead, "UkrainianWhitehead"),
        (CattleBreed::Umblachery, "Umblachery"),
        (CattleBreed::UralBlackPied, "UralBlackPied"),
        (CattleBreed::VestlandFjord, "VestlandFjord"),
        (CattleBreed::VestlandRedPolled, "VestlandRedPolled"),
        (CattleBreed::Vosges, "Vosges"),
        (CattleBreed::Wagyu, "Wagyu"),
        (CattleBreed::WelshBlack, "WelshBlack"),
        (CattleBreed::WhitePark, "WhitePark"),
        (CattleBreed::Yanbian, "Yanbian"),
    ];

    for (breed, expected) in breeds.iter() {
        assert_eq!(breed.identifier(), *expected);
        assert_eq!(format!("{:?}", breed), *expected);
    }
}

#[test]
fn every_chicken_breed_is_shown_under_its_name() {
    let breeds = [
        (ChickenBreed::AC, "AC"),
        (ChickenBreed::Ameraucana, "Ameraucana"),
        (ChickenBreed::Ancona, "Ancona"),
        (ChickenBreed::Andalusian, "Andalusian"),
        (ChickenBreed::AppenzellBeardedHen, "Appenzell Bearded Hen"),
        (ChickenBreed::AppenzellPointedHoodHen, "Appenzell Pointed Hood Hen"),
        (ChickenBreed::Araucana, "Araucana"),
        (ChickenBreed::Aseel, "Aseel"),
        (ChickenBreed::Australorp, "Australorp"),
        (ChickenBreed::Baheij, "Baheij"),
        (ChickenBreed::Bandara, "Bandara"),
        (ChickenBreed::Barnevelders, "Barnevelders"),
        (ChickenBreed::Brahma, "Brahma"),
        (ChickenBreed::Buckeye, "Buckeye"),
        (ChickenBreed::Buttercup, "Buttercup"),
        (ChickenBreed::Campine, "Campine"),
        (ChickenBreed::Catalana, "Catalana"),
        (ChickenBreed::Chantecler, "Chantecler"),
        (ChickenBreed::Cochin, "Cochin"),
        (ChickenBreed::Cornish, "Cornish"),
        (ChickenBreed::Crevecoeur, "Crevecoeur"),
        (ChickenBreed::Cubalaya, "Cubalaya"),
        (ChickenBreed::Delaware, "Delaware"),
        (ChickenBreed::Dominiques, "Dominiques"),
        (ChickenBreed::Dorking, "Dorking"),
        (ChickenBreed::DutchBantam, "Dutch Bantam"),
        (ChickenBreed::Faverolles, "Faverolles"),
        (ChickenBreed::Friesian, "Friesian"),
        (ChickenBreed::Frizzle, "Frizzle"),
        (ChickenBreed::Gimmizah, "Gimmizah"),
        (ChickenBreed::GoldenMontazah, "Golden Montazah"),
        (ChickenBreed::Hamburg, "Hamburg"),
        (ChickenBreed::Holland, "Holland"),
        (ChickenBreed::Houdan, "Houdan"),
        (ChickenBreed::Java, "Java"),
        (ChickenBreed::JerseyGiant, "Jersey Giant"),
        (ChickenBreed::LaFleche, "La Fleche"),
        (ChickenBreed::Lakenvelder, "Lakenvelder"),
        (ChickenBreed::Lamona, "Lamona"),
        (ChickenBreed::Langshan, "Langshan"),
        (ChickenBreed::Legbar, "Legbar"),
        (ChickenBreed::Leghorn, "Leghorn"),
        (ChickenBreed::Marans, "Marans"),
        (ChickenBreed::Malay, "Malay"),
        (ChickenBreed::Matrouh, "Matrouh"),
        (ChickenBreed::Minorca, "Minorca"),
        (ChickenBreed::ModernGame, "Modern Game"),
        (ChickenBreed::NakedNeck, "Naked Neck"),
        (ChickenBreed::Nankin, "Nankin"),
        (ChickenBreed::NewHampshireRed, "New Hampshire Red"),
        (ChickenBreed::OldEnglishGame, "Old English Game"),
        (ChickenBreed::Orpington, "Orpington"),
        (ChickenBreed::PlymouthRock, "Plymouth Rock"),
        (ChickenBreed::Polish, "Polish"),
        (ChickenBreed::RedCap, "Red Cap"),
        (ChickenBreed::RhodeIslandRed, "Rhode Island Red"),
        (ChickenBreed::RussianOrloff, "Russian Orloff"),
        (ChickenBreed::Sasso, "Sasso"),
        (ChickenBreed::Sebright, "Sebright"),
        (ChickenBreed::Shamo, "Shamo"),
        (ChickenBreed::SilkieBantam, "Silkie Bantam"),
        (ChickenBreed::SilverMontazah, "Silver Montazah"),
        (ChickenBreed::Styrian, "Styrian"),
        (ChickenBreed::Sultan, "Sultan"),
        (ChickenBreed::Sumatra, "Sumatra"),
        (ChickenBreed::Sussex, "Sussex"),
        (ChickenBreed::SwissHen, "Swiss Hen"),
        (ChickenBreed::Welsummer, "Welsummer"),
        (ChickenBreed::WhiteFacedBlackSpanish, "White Faced Black Spanish"),
        (ChickenBreed::Wyandotte, "Wyandotte"),
        (ChickenBreed::Yokohama, "Yokohama"),
    ];

    assert_eq!(breeds.len(), 71);
    for (breed, expected) in breeds.iter() {
        assert_eq!(breed.to_string(), *expected);
    }
}

#[test]
fn every_sheep_breed_is_shown_under_its_name() {
    let breeds = [
        (SheepBreed::Acipayam, "Acipayam"),
        (SheepBreed::Adal, "Adal"),
        (SheepBreed::AfghanArabi, "Afghan Arabi"),
        (SheepBreed::Africana, "Africana"),
        (SheepBreed::Alai, "Alai"),
        (SheepBreed::Alcarrena, "Alcarrena"),
        (SheepBreed::AlgarveChurro, "Algarve Churro"),
        (SheepBreed::AlgerianArab, "Algerian Arab"),
        (SheepBreed::Altai, "Altai"),
        (SheepBreed::Altay, "Altay"),
        (SheepBreed::AmericanBlackbelly, "American Blackbelly"),
        (SheepBreed::Apennine, "Apennine"),
        (SheepBreed::Arabi, "Arabi"),
        (SheepBreed::ArapawaIsland, "Arapawa Island"),
        (SheepBreed::Awassi, "Awassi"),
        (SheepBreed::Balkhi, "Balkhi"),
        (SheepBreed::Baluchi, "Baluchi"),
        (SheepBreed::BalwenWelshMountain, "Balwen Welsh Mountain"),
        (SheepBreed::BarbadosBlackbelly, "Barbados Blackbelly"),
        (SheepBreed::BavarianForest, "Bavarian Forest"),
        (SheepBreed::BentheimerLandschaf, "Bentheimer Landschaf"),
        (SheepBreed::Bergamasca, "Bergamasca"),
        (SheepBreed::BeulahSpeckledFace, "Beulah Speckled-Face"),
        (SheepBreed::Bibrik, "Bibrik"),
        (SheepBreed::Biellese, "Biellese"),
        (SheepBreed::BlackWelshMountain, "Black Welsh Mountain"),
        (SheepBreed::BlackheadPersian, "Blackhead Persian"),
        (SheepBreed::BleuDuMaine, "Bleu du Maine"),
        (SheepBreed::BluefacedLeicester, "Bluefaced Leicester"),
        (SheepBreed::Bond, "Bond"),
        (SheepBreed::BooroolaMerino, "Booroola Merino"),
        (SheepBreed::BorderLeicester, "Border Leicester"),
        (SheepBreed::Boreray, "Boreray"),
        (SheepBreed::Bovska, "Bovska"),
        (SheepBreed::BraunesBergschaf, "Braunes Bergschaf"),
        (SheepBreed::BrazilianSomali, "Brazilian Somali"),
        (SheepBreed::BrecknockHillCheviot, "Brecknock Hill Cheviot"),
        (SheepBreed::BritishMilk, "British Milk"),
        (SheepBreed::Brillenschaf, "Brillenschaf"),
        (SheepBreed::BundnerOberland, "Bündner Oberland"),
        (SheepBreed::CaliforniaRed, "California Red"),
        (SheepBreed::CaliforniaVariegatedMutant, "California Variegated Mutant"),
        (SheepBreed::CampanianBarbary, "Campanian Barbary"),
        (SheepBreed::CastlemilkMoorit, "Castlemilk Moorit"),
        (SheepBreed::Charollais, "Charollais"),
        (SheepBreed::Cheviot, "Cheviot"),
        (SheepBreed::Chios, "Chios"),
        (SheepBreed::Cholistani, "Cholistani"),
        (SheepBreed::ClunForest, "Clun Forest"),
        (SheepBreed::CoburgerFuchsschaf, "Coburger Fuchsschaf"),
        (SheepBreed::Columbia, "Columbia"),
        (SheepBreed::Comeback, "Comeback"),
        (SheepBreed::Comisana, "Comisana"),
        (SheepBreed::Coopworth, "Coopworth"),
        (SheepBreed::Cormo, "Cormo"),
        (SheepBreed::Corriedale, "Corriedale"),
        (SheepBreed::Cotswold, "Cotswold"),
        (SheepBreed::Criollo, "Criollo"),
        (SheepBreed::Daglic, "Daglic"),
        (SheepBreed::Dala, "Dala"),
        (SheepBreed::Dalesbred, "Dalesbred"),
        (SheepBreed::Damani, "Damani"),
        (SheepBreed::Damara, "Damara"),
        (SheepBreed::DanishLandrace, "Danish Landrace"),
        (SheepBreed::Dartmoor, "Dartmoor"),
        (SheepBreed::Debouillet, "Debouillet"),
        (SheepBreed::DelaineMerino, "Delaine Merino"),
        (SheepBreed::DerbyshireGritstone, "Derbyshire Gritstone"),
        (SheepBreed::Dorper, "Dorper"),
        (SheepBreed::DevonClosewool, "Devon Closewool"),
        (SheepBreed::DeutschesBlaukoepfigesFleischschaf, "Deutsches Blaukoepfiges Fleischschaf"),
        (SheepBreed::DorsetDown, "Dorset Down"),
        (SheepBreed::Dorset, "Dorset"),
        (SheepBreed::Drysdale, "Drysdale"),
        (SheepBreed::Elliottdale, "Elliottdale"),
        (SheepBreed::ExmoorHorn, "Exmoor Horn"),
        (SheepBreed::Fabrianese, "Fabrianese"),
        (SheepBreed::Faeroes, "Faeroes"),
        (SheepBreed::Finnsheep, "Finnsheep"),
        (SheepBreed::FonthillMerino, "Fonthill Merino"),
        (SheepBreed::FriesianMilk, "Friesian Milk"),
        (SheepBreed::Galway, "Galway"),
        (SheepBreed::GansuAlpineFineWool, "Gansu Alpine Fine-Wool"),
        (SheepBreed::GentileDiPuglia, "Gentile Di Puglia"),
        (SheepBreed::GermanBlackheadedMutton, "German Blackheaded Mutton"),
        (SheepBreed::GermanMountain, "German Mountain"),
        (SheepBreed::GermanMuttonMerino, "German Mutton Merino"),
        (SheepBreed::GermanWhiteheadedMutton, "German Whiteheaded Mutton"),
        (SheepBreed::Gotland, "Gotland"),
        (SheepBreed::GraueGehoernteHeidschnucke, "Graue Gehoernte Heidschnucke"),
        (SheepBreed::Gromark, "Gromark"),
        (SheepBreed::GulfCoastNative, "Gulf Coast Native"),
        (SheepBreed::Gute, "Gute"),
        (SheepBreed::Hampshire, "Hampshire"),
        (SheepBreed::Han, "Han"),
        (SheepBreed::Harnai, "Harnai"),
        (SheepBreed::HashtNagri, "Hasht Nagri"),
        (SheepBreed::Hazaragie, "Hazaragie"),
        (SheepBreed::Hebridean, "Hebridean"),
        (SheepBreed::Herdwick, "Herdwick"),
        (SheepBreed::HillRadnor, "Hill Radnor"),
        (SheepBreed::HogIsland, "Hog Island"),
        (SheepBreed::Hu, "Hu"),
        (SheepBreed::Icelandic, "Icelandic"),
        (SheepBreed::IleDeFrance, "Ile-de-France"),
        (SheepBreed::IstrianPramenka, "Istrian Pramenka"),
        (SheepBreed::Jacob, "Jacob"),
        (SheepBreed::JezerskoSolcava, "Jezersko-Solčava"),
        (SheepBreed::Kachhi, "Kachhi"),
        (SheepBreed::Kajli, "Kajli"),
        (SheepBreed::Karakul, "Karakul"),
        (SheepBreed::Katahdin, "Katahdin"),
        (SheepBreed::KerryHill, "Kerry Hill"),
        (SheepBreed::Kooka, "Kooka"),
        (SheepBreed::Langhe, "Langhe"),
        (SheepBreed::Lati, "Lati"),
        (SheepBreed::LeicesterLongwool, "Leicester Longwool"),
        (SheepBreed::Leineschaf, "Leineschaf"),
        (SheepBreed::Lincoln, "Lincoln"),
        (SheepBreed::Llanwenog, "Llanwenog"),
        (SheepBreed::Lleyn, "Lleyn"),
        (SheepBreed::Lohi, "Lohi"),
        (SheepBreed::Lonk, "Lonk"),
        (SheepBreed::Luzein, "Luzein"),
        (SheepBreed::ManxLoaghtan, "Manx Loaghtan"),
        (SheepBreed::Masai, "Masai"),
        (SheepBreed::Massese, "Massese"),
        (SheepBreed::MediumWoolMerino, "Medium Wool Merino"),
        (SheepBreed::Mehraban, "Mehraban"),
        (SheepBreed::Merinolandschaf, "Merinolandschaf"),
        (SheepBreed::Moghani, "Moghani"),
        (SheepBreed::Montadale, "Montadale"),
        (SheepBreed::MoradaNova, "Morada Nova"),
        (SheepBreed::Mouflon, "Mouflon"),
        (SheepBreed::NavajoChurro, "Navajo-Churro"),
        (SheepBreed::NorfolkHorn, "Norfolk Horn"),
        (SheepBreed::NorthCountryCheviot, "North Country Cheviot"),
        (SheepBreed::NorwegianFur, "Norwegian Fur"),
        (SheepBreed::OldNorwegian, "Old Norwegian"),
        (SheepBreed::Orkney, "Orkney"),
        (SheepBreed::Ossimi, "Ossimi"),
        (SheepBreed::Oxford, "Oxford"),
        (SheepBreed::Pagliarola, "Pagliarola"),
        (SheepBreed::Pelibuey, "Pelibuey"),
        (SheepBreed::Perendale, "Perendale"),
        (SheepBreed::Pinzirita, "Pinzirita"),
        (SheepBreed::PittIsland, "Pitt Island"),
        (SheepBreed::PollMerino, "Poll Merino"),
        (SheepBreed::Polwarth, "Polwarth"),
        (SheepBreed::Polypay, "Polypay"),
        (SheepBreed::PomeranianCoarsewool, "Pomeranian Coarsewool"),
        (SheepBreed::Portland, "Portland"),
        (SheepBreed::Priangan, "Priangan"),
        (SheepBreed::Qashqai, "Qashqai"),
        (SheepBreed::QinghaiBlackTibetan, "Qinghai Black Tibetan"),
        (SheepBreed::QinghaiSemifinewool, "Qinghai Semifinewool"),
        (SheepBreed::Quadrella, "Quadrella"),
        (SheepBreed::QuanglinLargeTail, "Quanglin Large-Tail"),
        (SheepBreed::RaboLargo, "Rabo Largo"),
        (SheepBreed::Racka, "Racka"),
        (SheepBreed::Rambouillet, "Rambouillet"),
        (SheepBreed::RasaAragonesa, "Rasa Aragonesa"),
        (SheepBreed::RedEngadine, "Red Engadine"),
        (SheepBreed::Rhoenschaf, "Rhoenschaf"),
        (SheepBreed::RideauArcott, "Rideau Arcott"),
        (SheepBreed::Romanov, "Romanov"),
        (SheepBreed::Romney, "Romney"),
        (SheepBreed::RougeDeIQuest, "Rouge de l'Ouest"),
        (SheepBreed::RoughFell, "Rough Fell"),
        (SheepBreed::RoyalWhite, "Royal White"),
        (SheepBreed::Rya, "Rya"),
        (SheepBreed::Ryeland, "Ryeland"),
        (SheepBreed::Rygja, "Rygja"),
        (SheepBreed::Sahel, "Sahel-type"),
        (SheepBreed::SantaCruz, "Santa Cruz"),
        (SheepBreed::SantaInes, "Santa Inês"),
        (SheepBreed::Sardinian, "Sardinian"),
        (SheepBreed::SarPlanina, "Sar Planina"),
        (SheepBreed::ScottishBlackface, "Scottish Blackface"),
        (SheepBreed::SicilianBarbary, "Sicilian Barbary"),
        (SheepBreed::Shetland, "Shetland"),
        (SheepBreed::Shropshire, "Shropshire"),
        (SheepBreed::Skudde, "Skudde"),
        (SheepBreed::Soay, "Soay"),
        (SheepBreed::Somali, "Somali"),
        (SheepBreed::Sopravissana, "Sopravissana"),
        (SheepBreed::SouthAfricanMerino, "South African Merino"),
        (SheepBreed::SouthAfrianMuttonMerino, "South Afrian Mutton Merino"),
        (SheepBreed::SouthSuffolk, "South Suffolk"),
        (SheepBreed::Southdown, "Southdown"),
        (SheepBreed::SouthWalesMountain, "South Wales Mountain"),
        (SheepBreed::Spaeslau, "Spaeslau"),
        (SheepBreed::Spiegel, "Spiegel"),
        (SheepBreed::StCroix, "St. Croix (Virgin Island White)"),
        (SheepBreed::Steigar, "Steigar"),
        (SheepBreed::Steinschaf, "Steinschaf"),
        (SheepBreed::StrongWoolMerino, "Strong Wool Merino"),
        (SheepBreed::Suffolk, "Suffolk"),
        (SheepBreed::Sumavska, "Sumavska"),
        (SheepBreed::Swaledale, "Swaledale"),
        (SheepBreed::SwedishFur, "Swedish Fur"),
        (SheepBreed::Targhee, "Targhee"),
        (SheepBreed::Teeswater, "Teeswater"),
        (SheepBreed::Texel, "Texel"),
        (SheepBreed::Thalli, "Thalli"),
        (SheepBreed::Tong, "Tong"),
        (SheepBreed::Touabire, "Touabire"),
        (SheepBreed::Tsurcana, "Tsurcana"),
        (SheepBreed::Tunis, "Tunis"),
        (SheepBreed::TyrolMountain, "Tyrol Mountain"),
        (SheepBreed::Uda, "Uda"),
        (SheepBreed::Ujumqin, "Ujumqin"),
        (SheepBreed::Ushant, "Ushant"),
        (SheepBreed::ValaisBlacknose, "Valais Blacknose"),
        (SheepBreed::Vendeen, "Vendéen"),
        (SheepBreed::Walachenschaf, "Walachenschaf"),
        (SheepBreed::WallisCountry, "Wallis Country"),
        (SheepBreed::Waziri, "Waziri"),
        (SheepBreed::WeisseHornloseHeidschnucke, "Weisse Hornlose Heidschnucke"),
        (SheepBreed::WelshHillSpeckledFace, "Welsh Hill Speckled Face"),
        (SheepBreed::WelshMountain, "Welsh Mountain"),
        (SheepBreed::WelshMountainBadgerFaced, "Welsh Mountain Badger Faced"),
        (SheepBreed::Wensleydale, "Wensleydale"),
        (SheepBreed::WestAfricanDwarf, "West African Dwarf"),
        (SheepBreed::WhiteSuffolk, "White Suffolk"),
        (SheepBreed::WhitefaceDartmoor, "Whiteface Dartmoor"),
        (SheepBreed::WhitefaceWoodland, "Whiteface Woodland"),
        (SheepBreed::WiltshireHorn, "Wiltshire Horn"),
        (SheepBreed::XinjiangFinewool, "Xinjiang Finewool"),
        (SheepBreed::Yankasa, "Yankasa"),
        (SheepBreed::YemenWhite, "Yemen White"),
        (SheepBreed::Yemeni, "Yemeni"),
        (SheepBreed::Yiecheng, "Yiecheng"),
        (SheepBreed::Yoroo, "Yoroo"),
        (SheepBreed::YunnanSemifinewool, "Yunnan Semifinewool"),
        (SheepBreed::Zaghawa, "Zaghawa"),
        (SheepBreed::Zagoria, "Zagoria"),
        (SheepBreed::Zaian, "Zaian"),
        (SheepBreed::ZaireLongLegged, "Zaire Long-Legged"),
        (SheepBreed::Zakynthos, "Zakynthos"),
        (SheepBreed::ZeelandMilk, "Zeeland Milk"),
        (SheepBreed::Zel, "Zel"),
        (SheepBreed::Zelazna, "Zelazna"),
        (SheepBreed::Zemmour, "Zemmour"),
        (SheepBreed::ZetaYellow, "Zeta Yellow"),
        (SheepBreed::Zlatusha, "Zlatusha"),
        (SheepBreed::Zoulay, "Zoulay"),
    ];

    assert_eq!(breeds.len(), 247);
    for (breed, expected) in breeds.iter() {
        assert_eq!(breed.to_string(), *expected);
    }
}

#[test]
fn every_sheep_breed_has_its_identifier() {
    let breeds = [
        (SheepBreed::Acipayam, "Acipayam"),
        (SheepBreed::Adal, "Adal"),
        (SheepBreed::AfghanArabi, "AfghanArabi"),
        (SheepBreed::Africana, "Africana"),
        (SheepBreed::Alai, "Alai"),
        (SheepBreed::Alcarrena, "Alcarrena"),
        (SheepBreed::AlgarveChurro, "AlgarveChurro"),
        (SheepBreed::AlgerianArab, "AlgerianArab"),
        (SheepBreed::Altai, "Altai"),
        (SheepBreed::Altay, "Altay"),
        (SheepBreed::AmericanBlackbelly, "AmericanBlackbelly"),
        (SheepBreed::Apennine, "Apennine"),
        (SheepBreed::Arabi, "Arabi"),
        (SheepBreed::ArapawaIsland, "ArapawaIsland"),
        (SheepBreed::Awassi, "Awassi"),
        (SheepBreed::Balkhi, "Balkhi"),
        (SheepBreed::Baluchi, "Baluchi"),
        (SheepBreed::BalwenWelshMountain, "BalwenWelshMountain"),
        (SheepBreed::BarbadosBlackbelly, "BarbadosBlackbelly"),
        (SheepBreed::BavarianForest, "BavarianForest"),
        (SheepBreed::BentheimerLandschaf, "BentheimerLandschaf"),
        (SheepBreed::Bergamasca, "Bergamasca"),
        (SheepBreed::BeulahSpeckledFace, "BeulahSpeckledFace"),
        (SheepBreed::Bibrik, "Bibrik"),
        (SheepBreed::Biellese, "Biellese"),
        (SheepBreed::BlackWelshMountain, "BlackWelshMountain"),
        (SheepBreed::BlackheadPersian, "BlackheadPersian"),
        (SheepBreed::BleuDuMaine, "BleuDuMaine"),
        (SheepBreed::BluefacedLeicester, "BluefacedLeicester"),
        (SheepBreed::Bond, "Bond"),
        (SheepBreed::BooroolaMerino, "BooroolaMerino"),
        (SheepBreed::BorderLeicester, "BorderLeicester"),
        (SheepBreed::Boreray, "Boreray"),
        (SheepBreed::Bovska, "Bovska"),
        (SheepBreed::BraunesBergschaf, "BraunesBergschaf"),
        (SheepBreed::BrazilianSomali, "BrazilianSomali"),
        (SheepBreed::BrecknockHillCheviot, "BrecknockHillCheviot"),
        (SheepBreed::BritishMilk, "BritishMilk"),
        (SheepBreed::Brillenschaf, "Brillenschaf"),
        (SheepBreed::BundnerOberland, "BundnerOberland"),
        (SheepBreed::CaliforniaRed, "CaliforniaRed"),
        (SheepBreed::CaliforniaVariegatedMutant, "CaliforniaVariegatedMutant"),
        (SheepBreed::CampanianBarbary, "CampanianBarbary"),
        (SheepBreed::CastlemilkMoorit, "CastlemilkMoorit"),
        (SheepBreed::Charollais, "Charollais"),
        (SheepBreed::Cheviot, "Cheviot"),
        (SheepBreed::Chios, "Chios"),
        (SheepBreed::Cholistani, "Cholistani"),
        (SheepBreed::ClunForest, "ClunForest"),
        (SheepBreed::CoburgerFuchsschaf, "CoburgerFuchsschaf"),
        (SheepBreed::Columbia, "Columbia"),
        (SheepBreed::Comeback, "Comeback"),
        (SheepBreed::Comisana, "Comisana"),
        (SheepBreed::Coopworth, "Coopworth"),
        (SheepBreed::Cormo, "Cormo"),
        (SheepBreed::Corriedale, "Corriedale"),
        (SheepBreed::Cotswold, "Cotswold"),
        (SheepBreed::Criollo, "Criollo"),
        (SheepBreed::Daglic, "Daglic"),
        (SheepBreed::Dala, "Dala"),
        (SheepBreed::Dalesbred, "Dalesbred"),
        (SheepBreed::Damani, "Damani"),
        (SheepBreed::Damara, "Damara"),
        (SheepBreed::DanishLandrace, "DanishLandrace"),
        (SheepBreed::Dartmoor, "Dartmoor"),
        (SheepBreed::Debouillet, "Debouillet"),
        (SheepBreed::DelaineMerino, "DelaineMerino"),
        (SheepBreed::DerbyshireGritstone, "DerbyshireGritstone"),
        (SheepBreed::Dorper, "Dorper"),
        (SheepBreed::DevonClosewool, "DevonClosewool"),
        (SheepBreed::DeutschesBlaukoepfigesFleischschaf, "DeutschesBlaukoepfigesFleischschaf"),
        (SheepBreed::DorsetDown, "DorsetDown"),
        (SheepBreed::Dorset, "Dorset"),
        (SheepBreed::Drysdale, "Drysdale"),
        (SheepBreed::Elliottdale, "Elliottdale"),
        (SheepBreed::ExmoorHorn, "ExmoorHorn"),
        (SheepBreed::Fabrianese, "Fabrianese"),
        (SheepBreed::Faeroes, "Faeroes"),
        (SheepBreed::Finnsheep, "Finnsheep"),
        (SheepBreed::FonthillMerino, "FonthillMerino"),
        (SheepBreed::FriesianMilk, "FriesianMilk"),
        (SheepBreed::Galway, "Galway"),
        (SheepBreed::GansuAlpineFineWool, "GansuAlpineFineWool"),
        (SheepBreed::GentileDiPuglia, "GentileDiPuglia"),
        (SheepBreed::GermanBlackheadedMutton, "GermanBlackheadedMutton"),
        (SheepBreed::GermanMountain, "GermanMountain"),
        (SheepBreed::GermanMuttonMerino, "GermanMuttonMerino"),
        (SheepBreed::GermanWhiteheadedMutton, "GermanWhiteheadedMutton"),
        (SheepBreed::Gotland, "Gotland"),
        (SheepBreed::GraueGehoernteHeidschnucke, "GraueGehoernteHeidschnucke"),
        (SheepBreed::Gromark, "Gromark"),
        (SheepBreed::GulfCoastNative, "GulfCoastNative"),
        (SheepBreed::Gute, "Gute"),
        (SheepBreed::Hampshire, "Hampshire"),
        (SheepBreed::Han, "Han"),
        (SheepBreed::Harnai, "Harnai"),
        (SheepBreed::HashtNagri, "HashtNagri"),
        (SheepBreed::Hazaragie, "Hazaragie"),
        (SheepBreed::Hebridean, "Hebridean"),
        (SheepBreed::Herdwick, "Herdwick"),
        (SheepBreed::HillRadnor, "HillRadnor"),
        (SheepBreed::HogIsland, "HogIsland"),
        (SheepBreed::Hu, "Hu"),
        (SheepBreed::Icelandic, "Icelandic"),
        (SheepBreed::IleDeFrance, "IleDeFrance"),
        (SheepBreed::IstrianPramenka, "IstrianPramenka"),
        (SheepBreed::Jacob, "Jacob"),
        (SheepBreed::JezerskoSolcava, "JezerskoSolcava"),
        (SheepBreed::Kachhi, "Kachhi"),
        (SheepBreed::Kajli, "Kajli"),
        (SheepBreed::Karakul, "Karakul"),
        (SheepBreed::Katahdin, "Katahdin"),
        (SheepBreed::KerryHill, "KerryHill"),
        (SheepBreed::Kooka, "Kooka"),
        (SheepBreed::Langhe, "Langhe"),
        (SheepBreed::Lati, "Lati"),
        (SheepBreed::LeicesterLongwool, "LeicesterLongwool"),
        (SheepBreed::Leineschaf, "Leineschaf"),
        (SheepBreed::Lincoln, "Lincoln"),
        (SheepBreed::Llanwenog, "Llanwenog"),
        (SheepBreed::Lleyn, "Lleyn"),
        (SheepBreed::Lohi, "Lohi"),
        (SheepBreed::Lonk, "Lonk"),
        (SheepBreed::Luzein, "Luzein"),
        (SheepBreed::ManxLoaghtan, "ManxLoaghtan"),
        (SheepBreed::Masai, "Masai"),
        (SheepBreed::Massese, "Massese"),
        (SheepBreed::MediumWoolMerino, "MediumWoolMerino"),
        (SheepBreed::Mehraban, "Mehraban"),
        (SheepBreed::Merinolandschaf, "Merinolandschaf"),
        (SheepBreed::Moghani, "Moghani"),
        (SheepBreed::Montadale, "Montadale"),
        (SheepBreed::MoradaNova, "MoradaNova"),
        (SheepBreed::Mouflon, "Mouflon"),
        (SheepBreed::NavajoChurro, "NavajoChurro"),
        (SheepBreed::NorfolkHorn, "NorfolkHorn"),
        (SheepBreed::NorthCountryCheviot, "NorthCountryCheviot"),
        (SheepBreed::NorwegianFur, "NorwegianFur"),
        (SheepBreed::OldNorwegian, "OldNorwegian"),
        (SheepBreed::Orkney, "Orkney"),
        (SheepBreed::Ossimi, "Ossimi"),
        (SheepBreed::Oxford, "Oxford"),
        (SheepBreed::Pagliarola, "Pagliarola"),
        (SheepBreed::Pelibuey, "Pelibuey"),
        (SheepBreed::Perendale, "Perendale"),
        (SheepBreed::Pinzirita, "Pinzirita"),
        (SheepBreed::PittIsland, "PittIsland"),
        (SheepBreed::PollMerino, "PollMerino"),
        (SheepBreed::Polwarth, "Polwarth"),
        (SheepBreed::Polypay, "Polypay"),
        (SheepBreed::PomeranianCoarsewool, "PomeranianCoarsewool"),
        (SheepBreed::Portland, "Portland"),
        (SheepBreed::Priangan, "Priangan"),
        (SheepBreed::Qashqai, "Qashqai"),
        (SheepBreed::QinghaiBlackTibetan, "QinghaiBlackTibetan"),
        (SheepBreed::QinghaiSemifinewool, "QinghaiSemifinewool"),
        (SheepBreed::Quadrella, "Quadrella"),
        (SheepBreed::QuanglinLargeTail, "QuanglinLargeTail"),
        (SheepBreed::RaboLargo, "RaboLargo"),
        (SheepBreed::Racka, "Racka"),
        (SheepBreed::Rambouillet, "Rambouillet"),
        (SheepBreed::RasaAragonesa, "RasaAragonesa"),
        (SheepBreed::RedEngadine, "RedEngadine"),
        (SheepBreed::Rhoenschaf, "Rhoenschaf"),
        (SheepBreed::RideauArcott, "RideauArcott"),
        (SheepBreed::Romanov, "Romanov"),
        (SheepBreed::Romney, "Romney"),
        (SheepBreed::RougeDeIQuest, "RougeDeIQuest"),
        (SheepBreed::RoughFell, "RoughFell"),
        (SheepBreed::RoyalWhite, "RoyalWhite"),
        (SheepBreed::Rya, "Rya"),
        (SheepBreed::Ryeland, "Ryeland"),
        (SheepBreed::Rygja, "Rygja"),
        (SheepBreed::Sahel, "Sahel"),
        (SheepBreed::SantaCruz, "SantaCruz"),
        (SheepBreed::SantaInes, "SantaInes"),
        (SheepBreed::Sardinian, "Sardinian"),
        (SheepBreed::SarPlanina, "SarPlanina"),
        (SheepBreed::ScottishBlackface, "ScottishBlackface"),
        (SheepBreed::SicilianBarbary, "SicilianBarbary"),
        (SheepBreed::Shetland, "Shetland"),
        (SheepBreed::Shropshire, "Shropshire"),
        (SheepBreed::Skudde, "Skudde"),
        (SheepBreed::Soay, "Soay"),
        (SheepBreed::Somali, "Somali"),
        (SheepBreed::Sopravissana, "Sopravissana"),
        (SheepBreed::SouthAfricanMerino, "SouthAfricanMerino"),
        (SheepBreed::SouthAfrianMuttonMerino, "SouthAfrianMuttonMerino"),
        (SheepBreed::SouthSuffolk, "SouthSuffolk"),
        (SheepBreed::Southdown, "Southdown"),
        (SheepBreed::SouthWalesMountain, "SouthWalesMountain"),
        (SheepBreed::Spaeslau, "Spaeslau"),
        (SheepBreed::Spiegel, "Spiegel"),
        (SheepBreed::StCroix, "StCroix"),
        (SheepBreed::Steigar, "Steigar"),
        (SheepBreed::Steinschaf, "Steinschaf"),
        (SheepBreed::StrongWoolMerino, "StrongWoolMerino"),
        (SheepBreed::Suffolk, "Suffolk"),
        (SheepBreed::Sumavska, "Sumavska"),
        (SheepBreed::Swaledale, "Swaledale"),
        (SheepBreed::SwedishFur, "SwedishFur"),
        (SheepBreed::Targhee, "Targhee"),
        (SheepBreed::Teeswater, "Teeswater"),
        (SheepBreed::Texel, "Texel"),
        (SheepBreed::Thalli, "Thalli"),
        (SheepBreed::Tong, "Tong"),
        (SheepBreed::Touabire, "Touabire"),
        (SheepBreed::Tsurcana, "Tsurcana"),
        (SheepBreed::Tunis, "Tunis"),
        (SheepBreed::TyrolMountain, "TyrolMountain"),
        (SheepBreed::Uda, "Uda"),
        (SheepBreed::Ujumqin, "Ujumqin"),
        (SheepBreed::Ushant, "Ushant"),
        (SheepBreed::ValaisBlacknose, "ValaisBlacknose"),
        (SheepBreed::Vendeen, "Vendeen"),
        (SheepBreed::Walachenschaf, "Walachenschaf"),
        (SheepBreed::WallisCountry, "WallisCountry"),
        (SheepBreed::Waziri, "Waziri"),
        (SheepBreed::WeisseHornloseHeidschnucke, "WeisseHornloseHeidschnucke"),
        (SheepBreed::WelshHillSpeckledFace, "WelshHillSpeckledFace"),
        (SheepBreed::WelshMountain, "WelshMountain"),
        (SheepBreed::WelshMountainBadgerFaced, "WelshMountainBadgerFaced"),
        (SheepBreed::Wensleydale, "Wensleydale"),
        (SheepBreed::WestAfricanDwarf, "WestAfricanDwarf"),
        (SheepBreed::WhiteSuffolk, "WhiteSuffolk"),
        (SheepBreed::WhitefaceDartmoor, "WhitefaceDartmoor"),
        (SheepBreed::WhitefaceWoodland, "WhitefaceWoodland"),
        (SheepBreed::WiltshireHorn, "WiltshireHorn"),
        (SheepBreed::XinjiangFinewool, "XinjiangFinewool"),
        (SheepBreed::Yankasa, "Yankasa"),
        (SheepBreed::YemenWhite, "YemenWhite"),
        (SheepBreed::Yemeni, "Yemeni"),
        (SheepBreed::Yiecheng, "Yiecheng"),
        (SheepBreed::Yoroo, "Yoroo"),
        (SheepBreed::YunnanSemifinewool, "YunnanSemifinewool"),
        (SheepBreed::Zaghawa, "Zaghawa"),
        (SheepBreed::Zagoria, "Zagoria"),
        (SheepBreed::Zaian, "Zaian"),
        (SheepBreed::ZaireLongLegged, "ZaireLongLegged"),
        (SheepBreed::Zakynthos, "Zakynthos"),
        (SheepBreed::ZeelandMilk, "ZeelandMilk"),
        (SheepBreed::Zel, "Zel"),
        (SheepBreed::Zelazna, "Zelazna"),
        (SheepBreed::Zemmour, "Zemmour"),
        (SheepBreed::ZetaYellow, "ZetaYellow"),
        (SheepBreed::Zlatusha, "Zlatusha"),
        (SheepBreed::Zoulay, "Zoulay"),
    ];

    for (breed, expected) in breeds.iter() {
        assert_eq!(breed.identifier(), *expected);
        assert_eq!(format!("{:?}", breed), *expected);
    }
}

#[test]
fn every_swine_breed_is_shown_under_its_name() {
    let breeds = [
        (SwineBreed::AmericanLandrace, "American Landrace"),
        (SwineBreed::AmericanYorkshire, "American Yorkshire"),
        (SwineBreed::AngelnSaddleback, "Angeln Saddleback"),
        (SwineBreed::ArapawaIsland, "Arapawa Island"),
        (SwineBreed::BaXuyen, "Ba Xuyen"),
        (SwineBreed::Bantu, "Bantu"),
        (SwineBreed::BeijingBlack, "Beijing Black"),
        (SwineBreed::BelarusBlackPied, "Belarus Black Pied"),
        (SwineBreed::BelgianLandrace, "Belgian Landrace"),
        (SwineBreed::Berkshire, "Berkshire"),
        (SwineBreed::BritishLandrace, "British Landrace"),
        (SwineBreed::BritishLop, "British Lop"),
        (SwineBreed::BulgarianWhite, "Bulgarian White"),
        (SwineBreed::Cantonese, "Cantonese"),
        (SwineBreed::ChesterWhite, "Chester White"),
        (SwineBreed::ChoctawHog, "Choctaw Hog"),
        (SwineBreed::CzechImprovedWhite, "Czech Improved White"),
        (SwineBreed::DanishLandrace, "Danish Landrace"),
        (SwineBreed::Duroc, "Duroc"),
        (SwineBreed::DutchLandrace, "Dutch Landrace"),
        (SwineBreed::Fengjing, "Fengjing"),
        (SwineBreed::FinnishLandrace, "Finnish Landrace"),
        (SwineBreed::FrenchLandrace, "French Landrace"),
        (SwineBreed::GermanLandrace, "German Landrace"),
        (SwineBreed::GloucestershireOldSpot, "Gloucestershire Old Spot"),
        (SwineBreed::GuineaHog, "Guinea Hog"),
        (SwineBreed::Hampshire, "Hampshire"),
        (SwineBreed::Hereford, "Hereford"),
        (SwineBreed::Hezuo, "Hezuo"),
        (SwineBreed::Iberian, "Iberian"),
        (SwineBreed::ItalianLandrace, "Italian Landrace"),
        (SwineBreed::Jinhua, "Jinhua"),
        (SwineBreed::Kele, "Kele"),
        (SwineBreed::Krskopolje, "Krskopolje"),
        (SwineBreed::Kunekune, "Kunekune"),
        (SwineBreed::Lacombe, "Lacombe"),
        (SwineBreed::LargeBlack, "Large Black"),
        (SwineBreed::LargeBlackWhite, "Large Black-White"),
        (SwineBreed::LargeWhite, "Large White"),
        (SwineBreed::Lithuanian, "Lithuanian"),
        (SwineBreed::Mangalitza, "Mangalitza"),
        (SwineBreed::Meishan, "Meishan"),
        (SwineBreed::MiddleWhite, "Middle White"),
        (SwineBreed::MongCai, "Mong Cai"),
        (SwineBreed::Minzhu, "Minzhu"),
        (SwineBreed::MoraRomagnola, "Mora Romagnola"),
        (SwineBreed::Mukota, "Mukota"),
        (SwineBreed::Mulefoot, "Mulefoot"),
        (SwineBreed::Neijiang, "Neijiang"),
        (SwineBreed::Ningxiang, "Ningxiang"),
        (SwineBreed::NorwegianLandrace, "Norwegian Landrace"),
        (SwineBreed::OssabawIsland, "Ossabaw Island"),
        (SwineBreed::OxfordSandyAndBlack, "Oxford Sandy And Black"),
        (SwineBreed::PhilippineNative, "Philippine Native"),
        (SwineBreed::Pietrain, "Pietrain"),
        (SwineBreed::PolandChina, "Poland China"),
        (SwineBreed::RedWattle, "Red Wattle"),
        (SwineBreed::Saddleback, "Saddleback"),
        (SwineBreed::Spotted, "Spotted"),
        (SwineBreed::SwedishLandrace, "Swedish Landrace"),
        (SwineBreed::Tamworth, "Tamworth"),
        (SwineBreed::ThuocNhieu, "Thuoc Nhieu"),
        (SwineBreed::Tibetan, "Tibetan"),
        (SwineBreed::Thuropolje, "Thuropolje"),
        (SwineBreed::VietnamesePotbelly, "Vietnamese Potbelly"),
        (SwineBreed::Welsh, "Welsh"),
        (SwineBreed::Wuzhishan, "Wuzhishan"),
        (SwineBreed::Yorkshire, "Yorkshire"),
    ];

    assert_eq!(breeds.len(), 68);
    for (breed, expected) in breeds.iter() {
        assert_eq!(breed.to_string(), *expected);
    }
}

#[test]
fn every_swine_breed_has_its_identifier() {
    let breeds = [
        (SwineBreed::AmericanLandrace, "AmericanLandrace"),
        (SwineBreed::AmericanYorkshire, "AmericanYorkshire"),
        (SwineBreed::AngelnSaddleback, "AngelnSaddleback"),
        (SwineBreed::ArapawaIsland, "ArapawaIsland"),
        (SwineBreed::BaXuyen, "BaXuyen"),
        (SwineBreed::Bantu, "Bantu"),
        (SwineBreed::BeijingBlack, "BeijingBlack"),
        (SwineBreed::BelarusBlackPied, "BelarusBlackPied"),
        (SwineBreed::BelgianLandrace, "BelgianLandrace"),
        (SwineBreed::Berkshire, "Berkshire"),
        (SwineBreed::BritishLandrace, "BritishLandrace"),
        (SwineBreed::BritishLop, "BritishLop"),
        (SwineBreed::BulgarianWhite, "BulgarianWhite"),
        (SwineBreed::Cantonese, "Cantonese"),
        (SwineBreed::ChesterWhite, "ChesterWhite"),
        (SwineBreed::ChoctawHog, "ChoctawHog"),
        (SwineBreed::CzechImprovedWhite, "CzechImprovedWhite"),
        (SwineBreed::DanishLandrace, "DanishLandrace"),
        (SwineBreed::Duroc, "Duroc"),
        (SwineBreed::DutchLandrace, "DutchLandrace"),
        (SwineBreed::Fengjing, "Fengjing"),
        (SwineBreed::FinnishLandrace, "FinnishLandrace"),
        (SwineBreed::FrenchLandrace, "FrenchLandrace"),
        (SwineBreed::GermanLandrace, "GermanLandrace"),
        (SwineBreed::GloucestershireOldSpot, "GloucestershireOldSpot"),
        (SwineBreed::GuineaHog, "GuineaHog"),
        (SwineBreed::Hampshire, "Hampshire"),
        (SwineBreed::Hereford, "Hereford"),
        (SwineBreed::Hezuo, "Hezuo"),
        (SwineBreed::Iberian, "Iberian"),
        (SwineBreed::ItalianLandrace, "ItalianLandrace"),
        (SwineBreed::Jinhua, "Jinhua"),
        (SwineBreed::Kele, "Kele"),
        (SwineBreed::Krskopolje, "Krskopolje"),
        (SwineBreed::Kunekune, "Kunekune"),
        (SwineBreed::Lacombe, "Lacombe"),
        (SwineBreed::LargeBlack, "LargeBlack"),
        (SwineBreed::LargeBlackWhite, "LargeBlackWhite"),
        (SwineBreed::LargeWhite, "LargeWhite"),
        (SwineBreed::Lithuanian, "Lithuanian"),
        (SwineBreed::Mangalitza, "Mangalitza"),
        (SwineBreed::Meishan, "Meishan"),
        (SwineBreed::MiddleWhite, "MiddleWhite"),
        (SwineBreed::MongCai, "MongCai"),
        (SwineBreed::Minzhu, "Minzhu"),
        (SwineBreed::MoraRomagnola, "MoraRomagnola"),
        (SwineBreed::Mukota, "Mukota"),
        (SwineBreed::Mulefoot, "Mulefoot"),
        (SwineBreed::Neijiang, "Neijiang"),
        (SwineBreed::Ningxiang, "Ningxiang"),
        (SwineBreed::NorwegianLandrace, "NorwegianLandrace"),
        (SwineBreed::OssabawIsland, "OssabawIsland"),
        (SwineBreed::OxfordSandyAndBlack, "OxfordSandyAndBlack"),
        (SwineBreed::PhilippineNative, "PhilippineNative"),
        (SwineBreed::Pietrain, "Pietrain"),
        (SwineBreed::PolandChina, "PolandChina"),
        (SwineBreed::RedWattle, "RedWattle"),
        (SwineBreed::Saddleback, "Saddleback"),
        (SwineBreed::Spotted, "Spotted"),
        (SwineBreed::SwedishLandrace, "SwedishLandrace"),
        (SwineBreed::Tamworth, "Tamworth"),
        (SwineBreed::ThuocNhieu, "ThuocNhieu"),
        (SwineBreed::Tibetan, "Tibetan"),
        (SwineBreed::Thuropolje, "Thuropolje"),
        (SwineBreed::VietnamesePotbelly, "VietnamesePotbelly"),
        (SwineBreed::Welsh, "Welsh"),
        (SwineBreed::Wuzhishan, "Wuzhishan"),
        (SwineBreed::Yorkshire, "Yorkshire"),
    ];

    for (breed, expected) in breeds.iter() {
        assert_eq!(breed.identifier(), *expected);
        assert_eq!(format!("{:?}", breed), *expected);
    }
}

#[test]
fn asking_twice_gives_the_same_name() {
    assert_eq!(SheepBreed::Dorper.to_string(), SheepBreed::Dorper.to_string());
    assert_eq!(GoatBreed::Caninde.to_string(), GoatBreed::Caninde.to_string());
    assert_eq!(ChickenBreed::AC.to_string(), ChickenBreed::AC.to_string());
    assert_eq!(CattleBreed::RX3.to_string(), CattleBreed::RX3.to_string());
}
