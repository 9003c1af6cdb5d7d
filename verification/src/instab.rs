use crate::text::Render;
use vstd::prelude::*;

verus! {

/// One of the eighteen instabilities that can be active on a fractal.
#[derive(Debug, Copy, Clone, PartialEq, Eq, Structural)]
pub enum Instability {
    AdrenalineRush,
    Afflicted,
    BoonOverload,
    FluxBomb,
    FractalVindicators,
    Frailty,
    Hamstrung,
    LastLaugh,
    MistsConvergence,
    NoPainNoGain,
    Outflanked,
    SocialAwkwardness,
    StickTogether,
    SugarRush,
    ToxicTrail,
    Vengeance,
    WeBleedFire,
    ToxicSickness,
}

impl Instability {
    /// The numeric code of an instability in the schedule text, 1 to 18.
    pub open spec fn spec_code(self) -> int {
        match self {
            Instability::AdrenalineRush => 1,
            Instability::Afflicted => 2,
            Instability::BoonOverload => 3,
            Instability::FluxBomb => 4,
            Instability::FractalVindicators => 5,
            Instability::Frailty => 6,
            Instability::Hamstrung => 7,
            Instability::LastLaugh => 8,
            Instability::MistsConvergence => 9,
            Instability::NoPainNoGain => 10,
            Instability::Outflanked => 11,
            Instability::SocialAwkwardness => 12,
            Instability::StickTogether => 13,
            Instability::SugarRush => 14,
            Instability::ToxicTrail => 15,
            Instability::Vengeance => 16,
            Instability::WeBleedFire => 17,
            Instability::ToxicSickness => 18,
        }
    }

    /// The instability that a numeric code stands for, if any.
    pub open spec fn spec_from_u8(n: u8) -> Option<Instability> {
        if n == 1 {
            Some(Instability::AdrenalineRush)
        } else if n == 2 {
            Some(Instability::Afflicted)
        } else if n == 3 {
            Some(Instability::BoonOverload)
        } else if n == 4 {
            Some(Instability::FluxBomb)
        } else if n == 5 {
            Some(Instability::FractalVindicators)
        } else if n == 6 {
            Some(Instability::Frailty)
        } else if n == 7 {
            Some(Instability::Hamstrung)
        } else if n == 8 {
            Some(Instability::LastLaugh)
        } else if n == 9 {
            Some(Instability::MistsConvergence)
        } else if n == 10 {
            Some(Instability::NoPainNoGain)
        } else if n == 11 {
            Some(Instability::Outflanked)
        } else if n == 12 {
            Some(Instability::SocialAwkwardness)
        } else if n == 13 {
            Some(Instability::StickTogether)
        } else if n == 14 {
            Some(Instability::SugarRush)
        } else if n == 15 {
            Some(Instability::ToxicTrail)
        } else if n == 16 {
            Some(Instability::Vengeance)
        } else if n == 17 {
            Some(Instability::WeBleedFire)
        } else if n == 18 {
            Some(Instability::ToxicSickness)
        } else {
            None
        }
    }

    /// Decodes a numeric code. Exactly the codes 1 to 18 are known.
    pub fn from_u8(n: u8) -> (r: Option<Instability>)
        ensures
            r == Self::spec_from_u8(n),
            r is Some <==> 1 <= n <= 18,
            r matches Some(i) ==> i.spec_code() == n,
    {
        match n {
            1 => Some(Instability::AdrenalineRush),
            2 => Some(Instability::Afflicted),
            3 => Some(Instability::BoonOverload),
            4 => Some(Instability::FluxBomb),
            5 => Some(Instability::FractalVindicators),
            6 => Some(Instability::Frailty),
            7 => Some(Instability::Hamstrung),
            8 => Some(Instability::LastLaugh),
            9 => Some(Instability::MistsConvergence),
            10 => Some(Instability::NoPainNoGain),
            11 => Some(Instability::Outflanked),
            12 => Some(Instability::SocialAwkwardness),
            13 => Some(Instability::StickTogether),
            14 => Some(Instability::SugarRush),
            15 => Some(Instability::ToxicTrail),
            16 => Some(Instability::Vengeance),
            17 => Some(Instability::WeBleedFire),
            18 => Some(Instability::ToxicSickness),
            _ => None,
        }
    }

    /// The display name, as a sequence of characters.
    pub open spec fn spec_name(self) -> Seq<char> {
        match self {
            Instability::AdrenalineRush => "Adrenaline Rush"@,
            Instability::Afflicted => "Afflicted"@,
            Instability::BoonOverload => "Boon Overload"@,
            Instability::FluxBomb => "Flux Bomb"@,
            Instability::FractalVindicators => "Fractal Vindicators"@,
            Instability::Frailty => "Frailty"@,
            Instability::Hamstrung => "Hamstrung"@,
            Instability::LastLaugh => "Last Laugh"@,
            Instability::MistsConvergence => "Mists Convergence"@,
            Instability::NoPainNoGain => "No Pain, No Gain"@,
            Instability::Outflanked => "Outflanked"@,
            Instability::SocialAwkwardness => "Social Awkwardness"@,
            Instability::StickTogether => "Stick Together"@,
            Instability::SugarRush => "Sugar Rush"@,
            Instability::ToxicTrail => "Toxic Trail"@,
            Instability::Vengeance => "Vengeance"@,
            Instability::WeBleedFire => "We Bleed Fire"@,
            Instability::ToxicSickness => "Toxic Sickness"@,
        }
    }

    /// The display name.
    pub fn name(&self) -> (r: &'static str)
        ensures
            r@ == self.spec_name(),
    {
        match self {
            Instability::AdrenalineRush => "Adrenaline Rush",
            Instability::Afflicted => "Afflicted",
            Instability::BoonOverload => "Boon Overload",
            Instability::FluxBomb => "Flux Bomb",
            Instability::FractalVindicators => "Fractal Vindicators",
            Instability::Frailty => "Frailty",
            Instability::Hamstrung => "Hamstrung",
            Instability::LastLaugh => "Last Laugh",
            Instability::MistsConvergence => "Mists Convergence",
            Instability::NoPainNoGain => "No Pain, No Gain",
            Instability::Outflanked => "Outflanked",
            Instability::SocialAwkwardness => "Social Awkwardness",
            Instability::StickTogether => "Stick Together",
            Instability::SugarRush => "Sugar Rush",
            Instability::ToxicTrail => "Toxic Trail",
            Instability::Vengeance => "Vengeance",
            Instability::WeBleedFire => "We Bleed Fire",
            Instability::ToxicSickness => "Toxic Sickness",
        }
    }
}

impl Render for Instability {
    open spec fn spec_render(&self) -> Seq<char> {
        self.spec_name()
    }

    fn render(&self) -> (r: String) {
        String::from_str(self.name())
    }
}

} // verus!
