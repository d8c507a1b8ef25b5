//! Breeds of chickens: the name under which each is shown, and the names by
//! which a breed is recognised in text.

use vstd::prelude::*;

use crate::error::{BreedNotFound, Species};
use crate::text::{lowercase_of, same_text};

verus! {

/// A breed of chicken.
#[derive(Debug, Clone, Copy, PartialEq, Eq, Structural)]
pub enum ChickenBreed {
    AC,
    Ameraucana,
    Ancona,
    Andalusian,
    AppenzellBeardedHen,
    AppenzellPointedHoodHen,
    Araucana,
    Aseel,
    Australorp,
    Baheij,
    Bandara,
    Barnevelders,
    Brahma,
    Buckeye,
    Buttercup,
    Campine,
    Catalana,
    Chantecler,
    Cochin,
    Cornish,
    Crevecoeur,
    Cubalaya,
    Delaware,
    Dominiques,
    Dorking,
    DutchBantam,
    Faverolles,
    Friesian,
    Frizzle,
    Gimmizah,
    GoldenMontazah,
    Hamburg,
    Holland,
    Houdan,
    Java,
    JerseyGiant,
    LaFleche,
    Lakenvelder,
    Lamona,
    Langshan,
    Legbar,
    Leghorn,
    Marans,
    Malay,
    Matrouh,
    Minorca,
    ModernGame,
    /// Also called the Turken.
    NakedNeck,
    Nankin,
    NewHampshireRed,
    OldEnglishGame,
    Orpington,
    PlymouthRock,
    Polish,
    RedCap,
    RhodeIslandRed,
    RussianOrloff,
    Sasso,
    Sebright,
    Shamo,
    SilkieBantam,
    SilverMontazah,
    Styrian,
    Sultan,
    Sumatra,
    Sussex,
    /// Also called the Schweizerhuhn.
    SwissHen,
    Welsummer,
    WhiteFacedBlackSpanish,
    Wyandotte,
    Yokohama,
}

impl ChickenBreed {
    /// The name under which the breed is shown.
    pub open spec fn canonical_name(self) -> Seq<char> {
        match self {
            ChickenBreed::AC => "AC"@,
            ChickenBreed::Ameraucana => "Ameraucana"@,
            ChickenBreed::Ancona => "Ancona"@,
            ChickenBreed::Andalusian => "Andalusian"@,
            ChickenBreed::AppenzellBeardedHen => "Appenzell Bearded Hen"@,
            ChickenBreed::AppenzellPointedHoodHen => "Appenzell Pointed Hood Hen"@,
            ChickenBreed::Araucana => "Araucana"@,
            ChickenBreed::Aseel => "Aseel"@,
            ChickenBreed::Australorp => "Australorp"@,
            ChickenBreed::Baheij => "Baheij"@,
            ChickenBreed::Bandara => "Bandara"@,
            ChickenBreed::Barnevelders => "Barnevelders"@,
            ChickenBreed::Brahma => "Brahma"@,
            ChickenBreed::Buckeye => "Buckeye"@,
            ChickenBreed::Buttercup => "Buttercup"@,
            ChickenBreed::Campine => "Campine"@,
            ChickenBreed::Catalana => "Catalana"@,
            ChickenBreed::Chantecler => "Chantecler"@,
            ChickenBreed::Cochin => "Cochin"@,
            ChickenBreed::Cornish => "Cornish"@,
            ChickenBreed::Crevecoeur => "Crevecoeur"@,
            ChickenBreed::Cubalaya => "Cubalaya"@,
            ChickenBreed::Delaware => "Delaware"@,
            ChickenBreed::Dominiques => "Dominiques"@,
            ChickenBreed::Dorking => "Dorking"@,
            ChickenBreed::DutchBantam => "Dutch Bantam"@,
            ChickenBreed::Faverolles => "Faverolles"@,
            ChickenBreed::Friesian => "Friesian"@,
            ChickenBreed::Frizzle => "Frizzle"@,
            ChickenBreed::Gimmizah => "Gimmizah"@,
            ChickenBreed::GoldenMontazah => "Golden Montazah"@,
            ChickenBreed::Hamburg => "Hamburg"@,
            ChickenBreed::Holland => "Holland"@,
            ChickenBreed::Houdan => "Houdan"@,
            ChickenBreed::Java => "Java"@,
            ChickenBreed::JerseyGiant => "Jersey Giant"@,
            ChickenBreed::LaFleche => "La Fleche"@,
            ChickenBreed::Lakenvelder => "Lakenvelder"@,
            ChickenBreed::Lamona => "Lamona"@,
            ChickenBreed::Langshan => "Langshan"@,
            ChickenBreed::Legbar => "Legbar"@,
            ChickenBreed::Leghorn => "Leghorn"@,
            ChickenBreed::Marans => "Marans"@,
            ChickenBreed::Malay => "Malay"@,
            ChickenBreed::Matrouh => "Matrouh"@,
            ChickenBreed::Minorca => "Minorca"@,
            ChickenBreed::ModernGame => "Modern Game"@,
            ChickenBreed::NakedNeck => "Naked Neck"@,
            ChickenBreed::Nankin => "Nankin"@,
            ChickenBreed::NewHampshireRed => "New Hampshire Red"@,
            ChickenBreed::OldEnglishGame => "Old English Game"@,
            ChickenBreed::Orpington => "Orpington"@,
            ChickenBreed::PlymouthRock => "Plymouth Rock"@,
            ChickenBreed::Polish => "Polish"@,
            ChickenBreed::RedCap => "Red Cap"@,
            ChickenBreed::RhodeIslandRed => "Rhode Island Red"@,
            ChickenBreed::RussianOrloff => "Russian Orloff"@,
            ChickenBreed::Sasso => "Sasso"@,
            ChickenBreed::Sebright => "Sebright"@,
            ChickenBreed::Shamo => "Shamo"@,
            ChickenBreed::SilkieBantam => "Silkie Bantam"@,
            ChickenBreed::SilverMontazah => "Silver Montazah"@,
            ChickenBreed::Styrian => "Styrian"@,
            ChickenBreed::Sultan => "Sultan"@,
            ChickenBreed::Sumatra => "Sumatra"@,
            ChickenBreed::Sussex => "Sussex"@,
            ChickenBreed::SwissHen => "Swiss Hen"@,
            ChickenBreed::Welsummer => "Welsummer"@,
            ChickenBreed::WhiteFacedBlackSpanish => "White Faced Black Spanish"@,
            ChickenBreed::Wyandotte => "Wyandotte"@,
            ChickenBreed::Yokohama => "Yokohama"@,
        }
    }

    /// The form in which a text is compared with the listed names: lower
    /// case.
    pub open spec fn normal_form(text: Seq<char>) -> Seq<char> {
        lowercase_of(text)
    }

    /// Whether `name` is one of the names listed for the breed. The listed
    /// names are written in lower case.
    pub open spec fn has_name(self, name: Seq<char>) -> bool {
        match self {
            ChickenBreed::AC => name == "ac"@,
            ChickenBreed::Ameraucana => name == "ameraucana"@,
            ChickenBreed::Ancona => name == "ancona"@,
            ChickenBreed::Andalusian => name == "andalusian"@,
            ChickenBreed::AppenzellBeardedHen => name == "appenzell bearded hen"@,
            ChickenBreed::AppenzellPointedHoodHen => name == "appenzell pointed hood hen"@,
            ChickenBreed::Araucana => name == "araucana"@,
            ChickenBreed::Aseel => name == "aseel"@,
            ChickenBreed::Australorp => name == "australorp"@,
            ChickenBreed::Baheij => name == "baheij"@,
            ChickenBreed::Bandara => name == "bandara"@,
            ChickenBreed::Barnevelders => name == "barnevelders"@,
            ChickenBreed::Brahma => name == "brahma"@,
            ChickenBreed::Buckeye => name == "buckeye"@,
            ChickenBreed::Buttercup => name == "buttercup"@,
            ChickenBreed::Campine => name == "campine"@,
            ChickenBreed::Catalana => name == "catalana"@,
            ChickenBreed::Chantecler => name == "chantecler"@,
            ChickenBreed::Cochin => name == "cochin"@,
            ChickenBreed::Cornish => name == "cornish"@,
            ChickenBreed::Crevecoeur => name == "crevecoeur"@,
            ChickenBreed::Cubalaya => name == "cubalaya"@,
            ChickenBreed::Delaware => name == "delaware"@,
            ChickenBreed::Dominiques => name == "dominiques"@,
            ChickenBreed::Dorking => name == "dorking"@,
            ChickenBreed::DutchBantam => name == "dutch bantam"@,
            ChickenBreed::Faverolles => name == "faverolles"@,
            ChickenBreed::Friesian => name == "friesian"@,
            ChickenBreed::Frizzle => name == "frizzle"@,
            ChickenBreed::Gimmizah => name == "gimmizah"@,
            ChickenBreed::GoldenMontazah => name == "golden montazah"@,
            ChickenBreed::Hamburg => name == "hamburg"@,
            ChickenBreed::Holland => name == "holland"@,
            ChickenBreed::Houdan => name == "houdan"@,
            ChickenBreed::Java => name == "java"@,
            ChickenBreed::JerseyGiant => name == "jersey giant"@,
            ChickenBreed::LaFleche => name == "la fleche"@,
            ChickenBreed::Lakenvelder => name == "lakenvelder"@,
            ChickenBreed::Lamona => name == "lamona"@,
            ChickenBreed::Langshan => name == "langshan"@,
            ChickenBreed::Legbar => name == "legbar"@,
            ChickenBreed::Leghorn => name == "leghorn"@,
            ChickenBreed::Marans => name == "marans"@,
            ChickenBreed::Malay => name == "malay"@,
            ChickenBreed::Matrouh => name == "matrouh"@,
            ChickenBreed::Minorca => name == "minorca"@,
            ChickenBreed::ModernGame => name == "modern game"@,
            ChickenBreed::NakedNeck => {
                ||| name == "naked neck"@
                ||| name == "turken"@
            },
            ChickenBreed::Nankin => name == "nankin"@,
            ChickenBreed::NewHampshireRed => name == "new hampshire red"@,
            ChickenBreed::OldEnglishGame => name == "old english game"@,
            ChickenBreed::Orpington => {
                ||| name == "orpington"@
                ||| name == "buff orpington"@
                ||| name == "lavender orpington"@
                ||| name == "buff"@
            },
            ChickenBreed::PlymouthRock => name == "plymouth rock"@,
            ChickenBreed::Polish => name == "polish"@,
            ChickenBreed::RedCap => name == "red cap"@,
            ChickenBreed::RhodeIslandRed => name == "rhode island red"@,
            ChickenBreed::RussianOrloff => name == "russian orloff"@,
            ChickenBreed::Sasso => name == "sasso"@,
            ChickenBreed::Sebright => name == "sebright"@,
            ChickenBreed::Shamo => name == "shamo"@,
            ChickenBreed::SilkieBantam => name == "silkie bantam"@,
            ChickenBreed::SilverMontazah => name == "silver montazah"@,
            ChickenBreed::Styrian => name == "styrian"@,
            ChickenBreed::Sultan => name == "sultan"@,
            ChickenBreed::Sumatra => name == "sumatra"@,
            ChickenBreed::Sussex => name == "sussex"@,
            ChickenBreed::SwissHen => {
                ||| name == "swiss hen"@
                ||| name == "schweizerhuhn"@
            },
            ChickenBreed::Welsummer => name == "welsummer"@,
            ChickenBreed::WhiteFacedBlackSpanish => name == "white faced black spanish"@,
            ChickenBreed::Wyandotte => name == "wyandotte"@,
            ChickenBreed::Yokohama => name == "yokohama"@,
        }
    }

    /// The breed for which `name` is listed, if it is listed at all.
    pub open spec fn listed_as(name: Seq<char>) -> Option<ChickenBreed> {
        if exists|breed: ChickenBreed| breed.has_name(name) {
            Some(choose|breed: ChickenBreed| breed.has_name(name))
        } else {
            None
        }
    }

    /// The breed that `text` names: the one for which the normal form of
    /// `text` is listed.
    pub open spec fn named_by(text: Seq<char>) -> Option<ChickenBreed> {
        Self::listed_as(Self::normal_form(text))
    }

    /// The name under which the breed is shown.
    pub fn to_string(&self) -> (shown: String)
        ensures
            shown@ == self.canonical_name(),
    {
        match self {
            ChickenBreed::AC => "AC".to_string(),
            ChickenBreed::Ameraucana => "Ameraucana".to_string(),
            ChickenBreed::Ancona => "Ancona".to_string(),
            ChickenBreed::Andalusian => "Andalusian".to_string(),
            ChickenBreed::AppenzellBeardedHen => "Appenzell Bearded Hen".to_string(),
            ChickenBreed::AppenzellPointedHoodHen => "Appenzell Pointed Hood Hen".to_string(),
            ChickenBreed::Araucana => "Araucana".to_string(),
            ChickenBreed::Aseel => "Aseel".to_string(),
            ChickenBreed::Australorp => "Australorp".to_string(),
            ChickenBreed::Baheij => "Baheij".to_string(),
            ChickenBreed::Bandara => "Bandara".to_string(),
            ChickenBreed::Barnevelders => "Barnevelders".to_string(),
            ChickenBreed::Brahma => "Brahma".to_string(),
            ChickenBreed::Buckeye => "Buckeye".to_string(),
            ChickenBreed::Buttercup => "Buttercup".to_string(),
            ChickenBreed::Campine => "Campine".to_string(),
            ChickenBreed::Catalana => "Catalana".to_string(),
            ChickenBreed::Chantecler => "Chantecler".to_string(),
            ChickenBreed::Cochin => "Cochin".to_string(),
            ChickenBreed::Cornish => "Cornish".to_string(),
            ChickenBreed::Crevecoeur => "Crevecoeur".to_string(),
            ChickenBreed::Cubalaya => "Cubalaya".to_string(),
            ChickenBreed::Delaware => "Delaware".to_string(),
            ChickenBreed::Dominiques => "Dominiques".to_string(),
            ChickenBreed::Dorking => "Dorking".to_string(),
            ChickenBreed::DutchBantam => "Dutch Bantam".to_string(),
            ChickenBreed::Faverolles => "Faverolles".to_string(),
            ChickenBreed::Friesian => "Friesian".to_string(),
            ChickenBreed::Frizzle => "Frizzle".to_string(),
            ChickenBreed::Gimmizah => "Gimmizah".to_string(),
            ChickenBreed::GoldenMontazah => "Golden Montazah".to_string(),
            ChickenBreed::Hamburg => "Hamburg".to_string(),
            ChickenBreed::Holland => "Holland".to_string(),
            ChickenBreed::Houdan => "Houdan".to_string(),
            ChickenBreed::Java => "Java".to_string(),
            ChickenBreed::JerseyGiant => "Jersey Giant".to_string(),
            ChickenBreed::LaFleche => "La Fleche".to_string(),
            ChickenBreed::Lakenvelder => "Lakenvelder".to_string(),
            ChickenBreed::Lamona => "Lamona".to_string(),
            ChickenBreed::Langshan => "Langshan".to_string(),
            ChickenBreed::Legbar => "Legbar".to_string(),
            ChickenBreed::Leghorn => "Leghorn".to_string(),
            ChickenBreed::Marans => "Marans".to_string(),
            ChickenBreed::Malay => "Malay".to_string(),
            ChickenBreed::Matrouh => "Matrouh".to_string(),
            ChickenBreed::Minorca => "Minorca".to_string(),
            ChickenBreed::ModernGame => "Modern Game".to_string(),
            ChickenBreed::NakedNeck => "Naked Neck".to_string(),
            ChickenBreed::Nankin => "Nankin".to_string(),
            ChickenBreed::NewHampshireRed => "New Hampshire Red".to_string(),
            ChickenBreed::OldEnglishGame => "Old English Game".to_string(),
            ChickenBreed::Orpington => "Orpington".to_string(),
            ChickenBreed::PlymouthRock => "Plymouth Rock".to_string(),
            ChickenBreed::Polish => "Polish".to_string(),
            ChickenBreed::RedCap => "Red Cap".to_string(),
            ChickenBreed::RhodeIslandRed => "Rhode Island Red".to_string(),
            ChickenBreed::RussianOrloff => "Russian Orloff".to_string(),
            ChickenBreed::Sasso => "Sasso".to_string(),
            ChickenBreed::Sebright => "Sebright".to_string(),
            ChickenBreed::Shamo => "Shamo".to_string(),
            ChickenBreed::SilkieBantam => "Silkie Bantam".to_string(),
            ChickenBreed::SilverMontazah => "Silver Montazah".to_string(),
            ChickenBreed::Styrian => "Styrian".to_string(),
            ChickenBreed::Sultan => "Sultan".to_string(),
            ChickenBreed::Sumatra => "Sumatra".to_string(),
            ChickenBreed::Sussex => "Sussex".to_string(),
            ChickenBreed::SwissHen => "Swiss Hen".to_string(),
            ChickenBreed::Welsummer => "Welsummer".to_string(),
            ChickenBreed::WhiteFacedBlackSpanish => "White Faced Black Spanish".to_string(),
            ChickenBreed::Wyandotte => "Wyandotte".to_string(),
            ChickenBreed::Yokohama => "Yokohama".to_string(),
        }
    }

    /// Looks `name` up among the listed names. The comparison is exact, so
    /// `name` is expected in normal form.
    pub fn from_normalized(name: &str) -> (found: Option<ChickenBreed>)
        ensures
            found == Self::listed_as(name@),
    {
        let found = Self::search(name);
        proof {
            if let Some(breed) = found {
                Self::lemma_listed_name_is_found(name@, breed);
            }
        }
        found
    }

    /// Goes through the listed names in order and stops at the first that
    /// equals `name`.
    fn search(name: &str) -> (found: Option<ChickenBreed>)
        ensures
            match found {
                Some(breed) => breed.has_name(name@),
                None => forall|breed: ChickenBreed| !breed.has_name(name@),
            },
    {
        if same_text(name, "ac") {
            return Some(ChickenBreed::AC);
        }
        if same_text(name, "ameraucana") {
            return Some(ChickenBreed::Ameraucana);
        }
        if same_text(name, "ancona") {
            return Some(ChickenBreed::Ancona);
        }
        if same_text(name, "andalusian") {
            return Some(ChickenBreed::Andalusian);
        }
        if same_text(name, "appenzell bearded hen") {
            return Some(ChickenBreed::AppenzellBeardedHen);
        }
        if same_text(name, "appenzell pointed hood hen") {
            return Some(ChickenBreed::AppenzellPointedHoodHen);
        }
        if same_text(name, "araucana") {
            return Some(ChickenBreed::Araucana);
        }
        if same_text(name, "aseel") {
            return Some(ChickenBreed::Aseel);
        }
        if same_text(name, "australorp") {
            return Some(ChickenBreed::Australorp);
        }
        if same_text(name, "baheij") {
            return Some(ChickenBreed::Baheij);
        }
        if same_text(name, "bandara") {
            return Some(ChickenBreed::Bandara);
        }
        if same_text(name, "barnevelders") {
            return Some(ChickenBreed::Barnevelders);
        }
        if same_text(name, "brahma") {
            return Some(ChickenBreed::Brahma);
        }
        if same_text(name, "buckeye") {
            return Some(ChickenBreed::Buckeye);
        }
        if same_text(name, "buttercup") {
            return Some(ChickenBreed::Buttercup);
        }
        if same_text(name, "campine") {
            return Some(ChickenBreed::Campine);
        }
        if same_text(name, "catalana") {
            return Some(ChickenBreed::Catalana);
        }
        if same_text(name, "chantecler") {
            return Some(ChickenBreed::Chantecler);
        }
        if same_text(name, "cochin") {
            return Some(ChickenBreed::Cochin);
        }
        if same_text(name, "cornish") {
            return Some(ChickenBreed::Cornish);
        }
        if same_text(name, "crevecoeur") {
            return Some(ChickenBreed::Crevecoeur);
        }
        if same_text(name, "cubalaya") {
            return Some(ChickenBreed::Cubalaya);
        }
        if same_text(name, "delaware") {
            return Some(ChickenBreed::Delaware);
        }
        if same_text(name, "dominiques") {
            return Some(ChickenBreed::Dominiques);
        }
        if same_text(name, "dorking") {
            return Some(ChickenBreed::Dorking);
        }
        if same_text(name, "dutch bantam") {
            return Some(ChickenBreed::DutchBantam);
        }
        if same_text(name, "faverolles") {
            return Some(ChickenBreed::Faverolles);
        }
        if same_text(name, "friesian") {
            return Some(ChickenBreed::Friesian);
        }
        if same_text(name, "frizzle") {
            return Some(ChickenBreed::Frizzle);
        }
        if same_text(name, "gimmizah") {
            return Some(ChickenBreed::Gimmizah);
        }
        if same_text(name, "golden montazah") {
            return Some(ChickenBreed::GoldenMontazah);
        }
        if same_text(name, "hamburg") {
            return Some(ChickenBreed::Hamburg);
        }
        if same_text(name, "holland") {
            return Some(ChickenBreed::Holland);
        }
        if same_text(name, "houdan") {
            return Some(ChickenBreed::Houdan);
        }
        if same_text(name, "java") {
            return Some(ChickenBreed::Java);
        }
        if same_text(name, "jersey giant") {
            return Some(ChickenBreed::JerseyGiant);
        }
        if same_text(name, "la fleche") {
            return Some(ChickenBreed::LaFleche);
        }
        if same_text(name, "lakenvelder") {
            return Some(ChickenBreed::Lakenvelder);
        }
        if same_text(name, "lamona") {
            return Some(ChickenBreed::Lamona);
        }
        if same_text(name, "langshan") {
            return Some(ChickenBreed::Langshan);
        }
        if same_text(name, "legbar") {
            return Some(ChickenBreed::Legbar);
        }
        if same_text(name, "leghorn") {
            return Some(ChickenBreed::Leghorn);
        }
        if same_text(name, "marans") {
            return Some(ChickenBreed::Marans);
        }
        if same_text(name, "malay") {
            return Some(ChickenBreed::Malay);
        }
        if same_text(name, "matrouh") {
            return Some(ChickenBreed::Matrouh);
        }
        if same_text(name, "minorca") {
            return Some(ChickenBreed::Minorca);
        }
        if same_text(name, "modern game") {
            return Some(ChickenBreed::ModernGame);
        }
        if same_text(name, "naked neck") || same_text(name, "turken") {
            return Some(ChickenBreed::NakedNeck);
        }
        if same_text(name, "nankin") {
            return Some(ChickenBreed::Nankin);
        }
        if same_text(name, "new hampshire red") {
            return Some(ChickenBreed::NewHampshireRed);
        }
        if same_text(name, "old english game") {
            return Some(ChickenBreed::OldEnglishGame);
        }
        if same_text(name, "orpington")
            || same_text(name, "buff orpington")
            || same_text(name, "lavender orpington")
            || same_text(name, "buff")
        {
            return Some(ChickenBreed::Orpington);
        }
        if same_text(name, "plymouth rock") {
            return Some(ChickenBreed::PlymouthRock);
        }
        if same_text(name, "polish") {
            return Some(ChickenBreed::Polish);
        }
        if same_text(name, "red cap") {
            return Some(ChickenBreed::RedCap);
        }
        if same_text(name, "rhode island red") {
            return Some(ChickenBreed::RhodeIslandRed);
        }
        if same_text(name, "russian orloff") {
            return Some(ChickenBreed::RussianOrloff);
        }
        if same_text(name, "sasso") {
            return Some(ChickenBreed::Sasso);
        }
        if same_text(name, "sebright") {
            return Some(ChickenBreed::Sebright);
        }
        if same_text(name, "shamo") {
            return Some(ChickenBreed::Shamo);
        }
        if same_text(name, "silkie bantam") {
            return Some(ChickenBreed::SilkieBantam);
        }
        if same_text(name, "silver montazah") {
            return Some(ChickenBreed::SilverMontazah);
        }
        if same_text(name, "styrian") {
            return Some(ChickenBreed::Styrian);
        }
        if same_text(name, "sultan") {
            return Some(ChickenBreed::Sultan);
        }
        if same_text(name, "sumatra") {
            return Some(ChickenBreed::Sumatra);
        }
        if same_text(name, "sussex") {
            return Some(ChickenBreed::Sussex);
        }
        if same_text(name, "swiss hen") || same_text(name, "schweizerhuhn") {
            return Some(ChickenBreed::SwissHen);
        }
        if same_text(name, "welsummer") {
            return Some(ChickenBreed::Welsummer);
        }
        if same_text(name, "white faced black spanish") {
            return Some(ChickenBreed::WhiteFacedBlackSpanish);
        }
        if same_text(name, "wyandotte") {
            return Some(ChickenBreed::Wyandotte);
        }
        if same_text(name, "yokohama") {
            return Some(ChickenBreed::Yokohama);
        }
        None
    }

    /// Reads a breed from text. Case is ignored.
    ///
    /// Returns the breed that `s` names. Where `s` names none, the error
    /// carries `s` as it was given.
    pub fn from_str(s: &str) -> (parsed: Result<ChickenBreed, BreedNotFound>)
        ensures
            match parsed {
                Ok(breed) => Self::named_by(s@) == Some(breed),
                Err(e) => {
                    &&& Self::named_by(s@) is None
                    &&& e.species == Species::Chicken
                    &&& e.name@ == s@
                },
            },
    {
        let lowered = s.to_lowercase();
        let found = Self::from_normalized(lowered.as_str());
        match found {
            Some(breed) => Ok(breed),
            None => Err(BreedNotFound { species: Species::Chicken, name: s.to_string() }),
        }
    }

    /// No name is listed for two breeds: a name decides the breed.
    pub proof fn lemma_name_decides_breed(name: Seq<char>, a: ChickenBreed, b: ChickenBreed)
        requires
            a.has_name(name),
            b.has_name(name),
        ensures
            a == b,
    {
        reveal_strlit("ac");
        reveal_strlit("ameraucana");
        reveal_strlit("ancona");
        reveal_strlit("andalusian");
        reveal_strlit("appenzell bearded hen");
        reveal_strlit("appenzell pointed hood hen");
        reveal_strlit("araucana");
        reveal_strlit("aseel");
        reveal_strlit("australorp");
        reveal_strlit("baheij");
        reveal_strlit("bandara");
        reveal_strlit("barnevelders");
        reveal_strlit("brahma");
        reveal_strlit("buckeye");
        reveal_strlit("buttercup");
        reveal_strlit("campine");
        reveal_strlit("catalana");
        reveal_strlit("chantecler");
        reveal_strlit("cochin");
        reveal_strlit("cornish");
        reveal_strlit("crevecoeur");
        reveal_strlit("cubalaya");
        reveal_strlit("delaware");
        reveal_strlit("dominiques");
        reveal_strlit("dorking");
        reveal_strlit("dutch bantam");
        reveal_strlit("faverolles");
        reveal_strlit("friesian");
        reveal_strlit("frizzle");
        reveal_strlit("gimmizah");
        reveal_strlit("golden montazah");
        reveal_strlit("hamburg");
        reveal_strlit("holland");
        reveal_strlit("houdan");
        reveal_strlit("java");
        reveal_strlit("jersey giant");
        reveal_strlit("la fleche");
        reveal_strlit("lakenvelder");
        reveal_strlit("lamona");
        reveal_strlit("langshan");
        reveal_strlit("legbar");
        reveal_strlit("leghorn");
        reveal_strlit("marans");
        reveal_strlit("malay");
        reveal_strlit("matrouh");
        reveal_strlit("minorca");
        reveal_strlit("modern game");
        reveal_strlit("naked neck");
        reveal_strlit("turken");
        reveal_strlit("nankin");
        reveal_strlit("new hampshire red");
        reveal_strlit("old english game");
        reveal_strlit("orpington");
        reveal_strlit("buff orpington");
        reveal_strlit("lavender orpington");
        reveal_strlit("buff");
        reveal_strlit("plymouth rock");
        reveal_strlit("polish");
        reveal_strlit("red cap");
        reveal_strlit("rhode island red");
        reveal_strlit("russian orloff");
        reveal_strlit("sasso");
        reveal_strlit("sebright");
        reveal_strlit("shamo");
        reveal_strlit("silkie bantam");
        reveal_strlit("silver montazah");
        reveal_strlit("styrian");
        reveal_strlit("sultan");
        reveal_strlit("sumatra");
        reveal_strlit("sussex");
        reveal_strlit("swiss hen");
        reveal_strlit("schweizerhuhn");
        reveal_strlit("welsummer");
        reveal_strlit("white faced black spanish");
        reveal_strlit("wyandotte");
        reveal_strlit("yokohama");
        // Two listed names differ in their length or in one of their characters.
        let spelling = (
            name.len(), name[0], name[1], name[2], name[3], name[4], name[5], name[6], name[7],
            name[8], name[9], name[10], name[11], name[12], name[13], name[14], name[15],
            name[16], name[17], name[18], name[19], name[20], name[21], name[22], name[23],
            name[24], name[25],
        );
    }

    /// A name that is listed for a breed is found, and gives that breed.
    pub proof fn lemma_listed_name_is_found(name: Seq<char>, breed: ChickenBreed)
        requires
            breed.has_name(name),
        ensures
            Self::listed_as(name) == Some(breed),
    {
        Self::lemma_name_decides_breed(name, breed, choose|other: ChickenBreed| other.has_name(name));
    }

    /// Every breed is listed under a name, so that a lookup can give it.
    pub proof fn lemma_every_breed_is_listed(breed: ChickenBreed)
        ensures
            exists|name: Seq<char>| Self::listed_as(name) == Some(breed),
    {
        let name = match breed {
            ChickenBreed::AC => "ac"@,
            ChickenBreed::Ameraucana => "ameraucana"@,
            ChickenBreed::Ancona => "ancona"@,
            ChickenBreed::Andalusian => "andalusian"@,
            ChickenBreed::AppenzellBeardedHen => "appenzell bearded hen"@,
            ChickenBreed::AppenzellPointedHoodHen => "appenzell pointed hood hen"@,
            ChickenBreed::Araucana => "araucana"@,
            ChickenBreed::Aseel => "aseel"@,
            ChickenBreed::Australorp => "australorp"@,
            ChickenBreed::Baheij => "baheij"@,
            ChickenBreed::Bandara => "bandara"@,
            ChickenBreed::Barnevelders => "barnevelders"@,
            ChickenBreed::Brahma => "brahma"@,
            ChickenBreed::Buckeye => "buckeye"@,
            ChickenBreed::Buttercup => "buttercup"@,
            ChickenBreed::Campine => "campine"@,
            ChickenBreed::Catalana => "catalana"@,
            ChickenBreed::Chantecler => "chantecler"@,
            ChickenBreed::Cochin => "cochin"@,
            ChickenBreed::Cornish => "cornish"@,
            ChickenBreed::Crevecoeur => "crevecoeur"@,
            ChickenBreed::Cubalaya => "cubalaya"@,
            ChickenBreed::Delaware => "delaware"@,
            ChickenBreed::Dominiques => "dominiques"@,
            ChickenBreed::Dorking => "dorking"@,
            ChickenBreed::DutchBantam => "dutch bantam"@,
            ChickenBreed::Faverolles => "faverolles"@,
            ChickenBreed::Friesian => "friesian"@,
            ChickenBreed::Frizzle => "frizzle"@,
            ChickenBreed::Gimmizah => "gimmizah"@,
            ChickenBreed::GoldenMontazah => "golden montazah"@,
            ChickenBreed::Hamburg => "hamburg"@,
            ChickenBreed::Holland => "holland"@,
            ChickenBreed::Houdan => "houdan"@,
            ChickenBreed::Java => "java"@,
            ChickenBreed::JerseyGiant => "jersey giant"@,
            ChickenBreed::LaFleche => "la fleche"@,
            ChickenBreed::Lakenvelder => "lakenvelder"@,
            ChickenBreed::Lamona => "lamona"@,
            ChickenBreed::Langshan => "langshan"@,
            ChickenBreed::Legbar => "legbar"@,
            ChickenBreed::Leghorn => "leghorn"@,
            ChickenBreed::Marans => "marans"@,
            ChickenBreed::Malay => "malay"@,
            ChickenBreed::Matrouh => "matrouh"@,
            ChickenBreed::Minorca => "minorca"@,
            ChickenBreed::ModernGame => "modern game"@,
            ChickenBreed::NakedNeck => "naked neck"@,
            ChickenBreed::Nankin => "nankin"@,
            ChickenBreed::NewHampshireRed => "new hampshire red"@,
            ChickenBreed::OldEnglishGame => "old english game"@,
            ChickenBreed::Orpington => "orpington"@,
            ChickenBreed::PlymouthRock => "plymouth rock"@,
            ChickenBreed::Polish => "polish"@,
            ChickenBreed::RedCap => "red cap"@,
            ChickenBreed::RhodeIslandRed => "rhode island red"@,
            ChickenBreed::RussianOrloff => "russian orloff"@,
            ChickenBreed::Sasso => "sasso"@,
            ChickenBreed::Sebright => "sebright"@,
            ChickenBreed::Shamo => "shamo"@,
            ChickenBreed::SilkieBantam => "silkie bantam"@,
            ChickenBreed::SilverMontazah => "silver montazah"@,
            ChickenBreed::Styrian => "styrian"@,
            ChickenBreed::Sultan => "sultan"@,
            ChickenBreed::Sumatra => "sumatra"@,
            ChickenBreed::Sussex => "sussex"@,
            ChickenBreed::SwissHen => "swiss hen"@,
            ChickenBreed::Welsummer => "welsummer"@,
            ChickenBreed::WhiteFacedBlackSpanish => "white faced black spanish"@,
            ChickenBreed::Wyandotte => "wyandotte"@,
            ChickenBreed::Yokohama => "yokohama"@,
        };
        Self::lemma_listed_name_is_found(name, breed);
    }

    /// A text whose normal form is listed for a breed names that breed.
    pub proof fn lemma_listed_text_names_breed(text: Seq<char>, breed: ChickenBreed)
        requires
            breed.has_name(Self::normal_form(text)),
        ensures
            Self::named_by(text) == Some(breed),
    {
        Self::lemma_listed_name_is_found(Self::normal_form(text), breed);
    }

    /// Two texts that are alike in lower case name the same breed, or both
    /// name none.
    pub proof fn lemma_case_is_ignored(s: Seq<char>, t: Seq<char>)
        requires
            lowercase_of(s) == lowercase_of(t),
        ensures
            Self::named_by(s) == Self::named_by(t),
    {
    }

    /// The shown name depends on the breed alone: asking twice gives the
    /// same text.
    pub proof fn lemma_shown_name_is_fixed(a: ChickenBreed, b: ChickenBreed)
        requires
            a == b,
        ensures
            a.canonical_name() == b.canonical_name(),
    {
    }
}

} // verus!
