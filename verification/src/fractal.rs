use crate::text::str_eq;
use crate::text::Render;
use vstd::prelude::*;

verus! {

/// A fractal. `Nightmare`, `ShatteredObservatory` and `SunquaPeak` are the three
/// that have a fixed slot every day.
#[derive(Debug, Copy, Clone, PartialEq, Eq, Structural)]
pub enum Fractal {
    Aetherblade,
    AquaticRuins,
    CaptainMaiTrinBoss,
    ChaosIsles,
    Cliffside,
    Deepstone,
    MoltenBoss,
    MoltenFurnace,
    Nightmare,
    ShatteredObservatory,
    SirensReef,
    Snowblind,
    SolidOcean,
    Swampland,
    ThaumanovaReactor,
    TwilightOasis,
    Uncategorized,
    UndergroundFacility,
    UrbanBattleground,
    Volcanic,
    SunquaPeak,
}

impl Fractal {
    /// The code byte of a fractal in the schedule text: the capital letters
    /// `A` to `U`, in the order of the variants.
    pub open spec fn spec_code(self) -> u8 {
        match self {
            Fractal::Aetherblade => 65u8,
            Fractal::AquaticRuins => 66u8,
            Fractal::CaptainMaiTrinBoss => 67u8,
            Fractal::ChaosIsles => 68u8,
            Fractal::Cliffside => 69u8,
            Fractal::Deepstone => 70u8,
            Fractal::MoltenBoss => 71u8,
            Fractal::MoltenFurnace => 72u8,
            Fractal::Nightmare => 73u8,
            Fractal::ShatteredObservatory => 74u8,
            Fractal::SirensReef => 75u8,
            Fractal::Snowblind => 76u8,
            Fractal::SolidOcean => 77u8,
            Fractal::Swampland => 78u8,
            Fractal::ThaumanovaReactor => 79u8,
            Fractal::TwilightOasis => 80u8,
            Fractal::Uncategorized => 81u8,
            Fractal::UndergroundFacility => 82u8,
            Fractal::UrbanBattleground => 83u8,
            Fractal::Volcanic => 84u8,
            Fractal::SunquaPeak => 85u8,
        }
    }

    /// The fractal that a code byte stands for, if any.
    pub open spec fn spec_from_u8(n: u8) -> Option<Fractal> {
        if n == 65u8 {
            Some(Fractal::Aetherblade)
        } else if n == 66u8 {
            Some(Fractal::AquaticRuins)
        } else if n == 67u8 {
            Some(Fractal::CaptainMaiTrinBoss)
        } else if n == 68u8 {
            Some(Fractal::ChaosIsles)
        } else if n == 69u8 {
            Some(Fractal::Cliffside)
        } else if n == 70u8 {
            Some(Fractal::Deepstone)
        } else if n == 71u8 {
            Some(Fractal::MoltenBoss)
        } else if n == 72u8 {
            Some(Fractal::MoltenFurnace)
        } else if n == 73u8 {
            Some(Fractal::Nightmare)
        } else if n == 74u8 {
            Some(Fractal::ShatteredObservatory)
        } else if n == 75u8 {
            Some(Fractal::SirensReef)
        } else if n == 76u8 {
            Some(Fractal::Snowblind)
        } else if n == 77u8 {
            Some(Fractal::SolidOcean)
        } else if n == 78u8 {
            Some(Fractal::Swampland)
        } else if n == 79u8 {
            Some(Fractal::ThaumanovaReactor)
        } else if n == 80u8 {
            Some(Fractal::TwilightOasis)
        } else if n == 81u8 {
            Some(Fractal::Uncategorized)
        } else if n == 82u8 {
            Some(Fractal::UndergroundFacility)
        } else if n == 83u8 {
            Some(Fractal::UrbanBattleground)
        } else if n == 84u8 {
            Some(Fractal::Volcanic)
        } else if n == 85u8 {
            Some(Fractal::SunquaPeak)
        } else {
            None
        }
    }

    /// Whether the fractal is one of the three with a fixed slot every day.
    pub open spec fn is_fixed(self) -> bool {
        self == Fractal::Nightmare || self == Fractal::ShatteredObservatory || self
            == Fractal::SunquaPeak
    }

    /// Decodes a code byte. Exactly the letters `A` to `U` are known.
    pub fn from_u8(n: u8) -> (r: Option<Fractal>)
        ensures
            r == Self::spec_from_u8(n),
            r is Some <==> 65 <= n <= 85,
            r matches Some(f) ==> f.spec_code() == n,
    {
        match n {
            65 => Some(Fractal::Aetherblade),
            66 => Some(Fractal::AquaticRuins),
            67 => Some(Fractal::CaptainMaiTrinBoss),
            68 => Some(Fractal::ChaosIsles),
            69 => Some(Fractal::Cliffside),
            70 => Some(Fractal::Deepstone),
            71 => Some(Fractal::MoltenBoss),
            72 => Some(Fractal::MoltenFurnace),
            73 => Some(Fractal::Nightmare),
            74 => Some(Fractal::ShatteredObservatory),
            75 => Some(Fractal::SirensReef),
            76 => Some(Fractal::Snowblind),
            77 => Some(Fractal::SolidOcean),
            78 => Some(Fractal::Swampland),
            79 => Some(Fractal::ThaumanovaReactor),
            80 => Some(Fractal::TwilightOasis),
            81 => Some(Fractal::Uncategorized),
            82 => Some(Fractal::UndergroundFacility),
            83 => Some(Fractal::UrbanBattleground),
            84 => Some(Fractal::Volcanic),
            85 => Some(Fractal::SunquaPeak),
            _ => None,
        }
    }

    /// The display name, as a sequence of characters.
    pub open spec fn spec_name(self) -> Seq<char> {
        match self {
            Fractal::Aetherblade => "Aetherblade"@,
            Fractal::AquaticRuins => "Aquatic Ruins"@,
            Fractal::CaptainMaiTrinBoss => "Captain Mai Trin Boss"@,
            Fractal::ChaosIsles => "Chaos Isles"@,
            Fractal::Cliffside => "Cliffside"@,
            Fractal::Deepstone => "Deepstone"@,
            Fractal::MoltenBoss => "Molten Boss"@,
            Fractal::MoltenFurnace => "Molten Furnace"@,
            Fractal::Nightmare => "Nightmare"@,
            Fractal::ShatteredObservatory => "Shattered Observatory"@,
            Fractal::SirensReef => "Sirens Reef"@,
            Fractal::Snowblind => "Snowblind"@,
            Fractal::SolidOcean => "Solid Ocean"@,
            Fractal::Swampland => "Swampland"@,
            Fractal::ThaumanovaReactor => "Thaumanova Reactor"@,
            Fractal::TwilightOasis => "Twilight Oasis"@,
            Fractal::Uncategorized => "Uncategorized"@,
            Fractal::UndergroundFacility => "Underground Facility"@,
            Fractal::UrbanBattleground => "Urban Battleground"@,
            Fractal::Volcanic => "Volcanic"@,
            Fractal::SunquaPeak => "Sunqua Peak"@,
        }
    }

    /// The display name.
    pub fn name(&self) -> (r: &'static str)
        ensures
            r@ == self.spec_name(),
    {
        match self {
            Fractal::Aetherblade => "Aetherblade",
            Fractal::AquaticRuins => "Aquatic Ruins",
            Fractal::CaptainMaiTrinBoss => "Captain Mai Trin Boss",
            Fractal::ChaosIsles => "Chaos Isles",
            Fractal::Cliffside => "Cliffside",
            Fractal::Deepstone => "Deepstone",
            Fractal::MoltenBoss => "Molten Boss",
            Fractal::MoltenFurnace => "Molten Furnace",
            Fractal::Nightmare => "Nightmare",
            Fractal::ShatteredObservatory => "Shattered Observatory",
            Fractal::SirensReef => "Sirens Reef",
            Fractal::Snowblind => "Snowblind",
            Fractal::SolidOcean => "Solid Ocean",
            Fractal::Swampland => "Swampland",
            Fractal::ThaumanovaReactor => "Thaumanova Reactor",
            Fractal::TwilightOasis => "Twilight Oasis",
            Fractal::Uncategorized => "Uncategorized",
            Fractal::UndergroundFacility => "Underground Facility",
            Fractal::UrbanBattleground => "Urban Battleground",
            Fractal::Volcanic => "Volcanic",
            Fractal::SunquaPeak => "Sunqua Peak",
        }
    }

    /// The fractal that a short name on the command line stands for, if any.
    /// `SolidOcean` has no short name.
    pub open spec fn spec_from_str(s: Seq<char>) -> Option<Fractal> {
        if s == "aetherblade"@ {
            Some(Fractal::Aetherblade)
        } else if s == "aquatic"@ {
            Some(Fractal::AquaticRuins)
        } else if s == "mai"@ {
            Some(Fractal::CaptainMaiTrinBoss)
        } else if s == "chaos"@ {
            Some(Fractal::ChaosIsles)
        } else if s == "cliff"@ {
            Some(Fractal::Cliffside)
        } else if s == "deepstone"@ {
            Some(Fractal::Deepstone)
        } else if s == "molten boss"@ {
            Some(Fractal::MoltenBoss)
        } else if s == "furnace"@ {
            Some(Fractal::MoltenFurnace)
        } else if s == "nightmare"@ {
            Some(Fractal::Nightmare)
        } else if s == "shattered"@ {
            Some(Fractal::ShatteredObservatory)
        } else if s == "reef"@ {
            Some(Fractal::SirensReef)
        } else if s == "snowblind"@ {
            Some(Fractal::Snowblind)
        } else if s == "swamp"@ {
            Some(Fractal::Swampland)
        } else if s == "thauma"@ {
            Some(Fractal::ThaumanovaReactor)
        } else if s == "twilight"@ {
            Some(Fractal::TwilightOasis)
        } else if s == "uncat"@ {
            Some(Fractal::Uncategorized)
        } else if s == "dredge"@ {
            Some(Fractal::UndergroundFacility)
        } else if s == "urban"@ {
            Some(Fractal::UrbanBattleground)
        } else if s == "volcanic"@ {
            Some(Fractal::Volcanic)
        } else if s == "sunqua"@ {
            Some(Fractal::SunquaPeak)
        } else {
            None
        }
    }

    /// Reads a short name: the first one in the list that equals `s`.
    pub fn from_str(s: &str) -> (r: Option<Fractal>)
        ensures
            r == Self::spec_from_str(s@),
    {
        if str_eq(s, "aetherblade") {
            Some(Fractal::Aetherblade)
        } else if str_eq(s, "aquatic") {
            Some(Fractal::AquaticRuins)
        } else if str_eq(s, "mai") {
            Some(Fractal::CaptainMaiTrinBoss)
        } else if str_eq(s, "chaos") {
            Some(Fractal::ChaosIsles)
        } else if str_eq(s, "cliff") {
            Some(Fractal::Cliffside)
        } else if str_eq(s, "deepstone") {
            Some(Fractal::Deepstone)
        } else if str_eq(s, "molten boss") {
            Some(Fractal::MoltenBoss)
        } else if str_eq(s, "furnace") {
            Some(Fractal::MoltenFurnace)
        } else if str_eq(s, "nightmare") {
            Some(Fractal::Nightmare)
        } else if str_eq(s, "shattered") {
            Some(Fractal::ShatteredObservatory)
        } else if str_eq(s, "reef") {
            Some(Fractal::SirensReef)
        } else if str_eq(s, "snowblind") {
            Some(Fractal::Snowblind)
        } else if str_eq(s, "swamp") {
            Some(Fractal::Swampland)
        } else if str_eq(s, "thauma") {
            Some(Fractal::ThaumanovaReactor)
        } else if str_eq(s, "twilight") {
            Some(Fractal::TwilightOasis)
        } else if str_eq(s, "uncat") {
            Some(Fractal::Uncategorized)
        } else if str_eq(s, "dredge") {
            Some(Fractal::UndergroundFacility)
        } else if str_eq(s, "urban") {
            Some(Fractal::UrbanBattleground)
        } else if str_eq(s, "volcanic") {
            Some(Fractal::Volcanic)
        } else if str_eq(s, "sunqua") {
            Some(Fractal::SunquaPeak)
        } else {
            None
        }
    }
}

impl Render for Fractal {
    open spec fn spec_render(&self) -> Seq<char> {
        self.spec_name()
    }

    fn render(&self) -> (r: String) {
        String::from_str(self.name())
    }
}

} // verus!
