use crate::fractal::Fractal;
use crate::instab::Instability;
use crate::set::HasInstabs;
use crate::set::Nightmare;
use crate::set::ShatteredObservatory;
use crate::text::str_eq;
use crate::text::Render;
use vstd::prelude::*;

verus! {

/// How playable something is, from worst to best.
#[derive(Debug, Copy, Clone, PartialEq, Eq, PartialOrd, Ord, Structural)]
pub enum Rating {
    Unplayable,
    Bad,
    Playable,
    Good,
    Perfect,
}

impl Rating {
    /// The place of a rating in the order, 0 for `Unplayable` up to 4 for
    /// `Perfect`.
    pub open spec fn rank(self) -> int {
        match self {
            Rating::Unplayable => 0,
            Rating::Bad => 1,
            Rating::Playable => 2,
            Rating::Good => 3,
            Rating::Perfect => 4,
        }
    }

    /// The worse of two ratings, except that `Perfect` together with `Good`
    /// gives `Perfect`.
    pub open spec fn spec_combine(self, other: Rating) -> Rating {
        if (self == Rating::Perfect && other == Rating::Good) || (self == Rating::Good && other
            == Rating::Perfect) {
            Rating::Perfect
        } else if self.rank() <= other.rank() {
            self
        } else {
            other
        }
    }

    /// The place of the rating in the order, as a number.
    pub fn level(self) -> (r: u8)
        ensures
            r == self.rank(),
    {
        match self {
            Rating::Unplayable => 0,
            Rating::Bad => 1,
            Rating::Playable => 2,
            Rating::Good => 3,
            Rating::Perfect => 4,
        }
    }

    /// Combines two ratings: the worse one wins, but `Perfect` outweighs `Good`.
    pub fn combine(self, other: Rating) -> (r: Rating)
        ensures
            r == self.spec_combine(other),
    {
        match (self, other) {
            (Rating::Perfect, Rating::Good) => Rating::Perfect,
            (Rating::Good, Rating::Perfect) => Rating::Perfect,
            _ => {
                if self.level() <= other.level() {
                    self
                } else {
                    other
                }
            },
        }
    }
}

impl Rating {
    /// The rating that a lower-case name stands for, if any.
    pub open spec fn spec_from_str(s: Seq<char>) -> Option<Rating> {
        if s == "perfect"@ {
            Some(Rating::Perfect)
        } else if s == "good"@ {
            Some(Rating::Good)
        } else if s == "playable"@ {
            Some(Rating::Playable)
        } else if s == "bad"@ {
            Some(Rating::Bad)
        } else if s == "unplayable"@ {
            Some(Rating::Unplayable)
        } else {
            None
        }
    }

    /// Reads a rating from its lower-case name.
    pub fn from_str(s: &str) -> (r: Option<Rating>)
        ensures
            r == Self::spec_from_str(s@),
    {
        if str_eq(s, "perfect") {
            Some(Rating::Perfect)
        } else if str_eq(s, "good") {
            Some(Rating::Good)
        } else if str_eq(s, "playable") {
            Some(Rating::Playable)
        } else if str_eq(s, "bad") {
            Some(Rating::Bad)
        } else if str_eq(s, "unplayable") {
            Some(Rating::Unplayable)
        } else {
            None
        }
    }

    /// The display name, as a sequence of characters.
    pub open spec fn spec_name(self) -> Seq<char> {
        match self {
            Rating::Perfect => "Perfect"@,
            Rating::Good => "Good"@,
            Rating::Playable => "Playable"@,
            Rating::Bad => "Bad"@,
            Rating::Unplayable => "Unplayable"@,
        }
    }

    /// The display name.
    pub fn name(&self) -> (r: &'static str)
        ensures
            r@ == self.spec_name(),
    {
        match self {
            Rating::Perfect => "Perfect",
            Rating::Good => "Good",
            Rating::Playable => "Playable",
            Rating::Bad => "Bad",
            Rating::Unplayable => "Unplayable",
        }
    }

    /// Whether this rating is at least as good as `threshold`.
    pub fn at_least(self, threshold: Rating) -> (r: bool)
        ensures
            r == (self.rank() >= threshold.rank()),
    {
        self.level() >= threshold.level()
    }
}

impl core::ops::Add for Rating {
    type Output = Rating;

    /// `a + b` combines the two ratings.
    fn add(self, rhs: Rating) -> (r: Rating) {
        self.combine(rhs)
    }
}

impl vstd::std_specs::ops::AddSpecImpl for Rating {
    open spec fn obeys_add_spec() -> bool {
        true
    }

    open spec fn add_req(self, rhs: Rating) -> bool {
        true
    }

    open spec fn add_spec(self, rhs: Rating) -> Rating {
        self.spec_combine(rhs)
    }
}

/// The rating of three single ratings together: they are combined one after
/// the other, starting from `Good`.
pub open spec fn spec_sum3(a: Rating, b: Rating, c: Rating) -> Rating {
    Rating::Good.spec_combine(a).spec_combine(b).spec_combine(c)
}

/// Combines three ratings one after the other, starting from `Good`.
pub fn sum3(a: Rating, b: Rating, c: Rating) -> (r: Rating)
    ensures
        r == spec_sum3(a, b, c),
{
    Rating::Good.combine(a).combine(b).combine(c)
}

impl Instability {
    /// The rating of an instability by itself, whatever the fractal.
    pub open spec fn spec_rate(self) -> Rating {
        match self {
            Instability::AdrenalineRush => Rating::Good,
            Instability::Afflicted => Rating::Good,
            Instability::BoonOverload => Rating::Perfect,
            Instability::FluxBomb => Rating::Unplayable,
            Instability::FractalVindicators => Rating::Good,
            Instability::Frailty => Rating::Good,
            Instability::Hamstrung => Rating::Playable,
            Instability::LastLaugh => Rating::Bad,
            Instability::MistsConvergence => Rating::Playable,
            Instability::NoPainNoGain => Rating::Unplayable,
            Instability::Outflanked => Rating::Good,
            Instability::SocialAwkwardness => Rating::Unplayable,
            Instability::StickTogether => Rating::Good,
            Instability::SugarRush => Rating::Good,
            Instability::ToxicTrail => Rating::Bad,
            Instability::Vengeance => Rating::Bad,
            Instability::WeBleedFire => Rating::Unplayable,
            Instability::ToxicSickness => Rating::Playable,
        }
    }

    /// The rating of the instability by itself.
    pub fn rate(&self) -> (r: Rating)
        ensures
            r == self.spec_rate(),
    {
        match self {
            Instability::AdrenalineRush => Rating::Good,
            Instability::Afflicted => Rating::Good,
            Instability::BoonOverload => Rating::Perfect,
            Instability::FluxBomb => Rating::Unplayable,
            Instability::FractalVindicators => Rating::Good,
            Instability::Frailty => Rating::Good,
            Instability::Hamstrung => Rating::Playable,
            Instability::LastLaugh => Rating::Bad,
            Instability::MistsConvergence => Rating::Playable,
            Instability::NoPainNoGain => Rating::Unplayable,
            Instability::Outflanked => Rating::Good,
            Instability::SocialAwkwardness => Rating::Unplayable,
            Instability::StickTogether => Rating::Good,
            Instability::SugarRush => Rating::Good,
            Instability::ToxicTrail => Rating::Bad,
            Instability::Vengeance => Rating::Bad,
            Instability::WeBleedFire => Rating::Unplayable,
            Instability::ToxicSickness => Rating::Playable,
        }
    }
}

/// A boss of one of the fractals with a fixed slot.
#[derive(Debug, Copy, Clone, PartialEq, Eq, Structural)]
pub enum Boss {
    Mama,
    Siax,
    Ensolyss,
    Skorvald,
    Artsariiv,
    Arkk,
    Ai,
}

impl Boss {
    /// The fractal in which the boss is fought.
    pub open spec fn spec_home(self) -> Fractal {
        match self {
            Boss::Mama | Boss::Siax | Boss::Ensolyss => Fractal::Nightmare,
            Boss::Skorvald | Boss::Artsariiv | Boss::Arkk => Fractal::ShatteredObservatory,
            Boss::Ai => Fractal::SunquaPeak,
        }
    }

    /// The fractal in which the boss is fought.
    pub fn home(&self) -> (r: Fractal)
        ensures
            r == self.spec_home(),
    {
        match self {
            Boss::Mama => Fractal::Nightmare,
            Boss::Siax => Fractal::Nightmare,
            Boss::Ensolyss => Fractal::Nightmare,
            Boss::Skorvald => Fractal::ShatteredObservatory,
            Boss::Artsariiv => Fractal::ShatteredObservatory,
            Boss::Arkk => Fractal::ShatteredObservatory,
            Boss::Ai => Fractal::SunquaPeak,
        }
    }

    /// The boss that a short name on the command line stands for, if any.
    pub open spec fn spec_from_str(s: Seq<char>) -> Option<Boss> {
        if s == "mama"@ {
            Some(Boss::Mama)
        } else if s == "siax"@ {
            Some(Boss::Siax)
        } else if s == "enso"@ {
            Some(Boss::Ensolyss)
        } else if s == "skorv"@ {
            Some(Boss::Skorvald)
        } else if s == "arts"@ {
            Some(Boss::Artsariiv)
        } else if s == "arkk"@ {
            Some(Boss::Arkk)
        } else if s == "ai"@ {
            Some(Boss::Ai)
        } else {
            None
        }
    }

    /// Reads a boss from its short name.
    pub fn from_str(s: &str) -> (r: Option<Boss>)
        ensures
            r == Self::spec_from_str(s@),
    {
        if str_eq(s, "mama") {
            Some(Boss::Mama)
        } else if str_eq(s, "siax") {
            Some(Boss::Siax)
        } else if str_eq(s, "enso") {
            Some(Boss::Ensolyss)
        } else if str_eq(s, "skorv") {
            Some(Boss::Skorvald)
        } else if str_eq(s, "arts") {
            Some(Boss::Artsariiv)
        } else if str_eq(s, "arkk") {
            Some(Boss::Arkk)
        } else if str_eq(s, "ai") {
            Some(Boss::Ai)
        } else {
            None
        }
    }

    /// The rating of one instability at this boss: the instability's own
    /// rating, but for the pairs of boss and instability listed here.
    pub open spec fn spec_rate(self, instab: Instability) -> Rating {
        if self == Boss::Mama && instab == Instability::LastLaugh {
            Rating::Unplayable
        } else if (self == Boss::Ensolyss || self == Boss::Skorvald || self == Boss::Artsariiv)
            && instab == Instability::LastLaugh {
            Rating::Good
        } else if self == Boss::Arkk && instab == Instability::Hamstrung {
            Rating::Bad
        } else {
            instab.spec_rate()
        }
    }
}

/// The rating of one instability for a fractal: for `Nightmare` and
/// `ShatteredObservatory` the ratings at their three bosses together, for any
/// other fractal the instability's own rating.
pub open spec fn spec_rate_for_fractal(fractal: Fractal, instab: Instability) -> Rating {
    match fractal {
        Fractal::Nightmare => spec_sum3(
            Boss::Mama.spec_rate(instab),
            Boss::Siax.spec_rate(instab),
            Boss::Ensolyss.spec_rate(instab),
        ),
        Fractal::ShatteredObservatory => spec_sum3(
            Boss::Skorvald.spec_rate(instab),
            Boss::Artsariiv.spec_rate(instab),
            Boss::Arkk.spec_rate(instab),
        ),
        _ => instab.spec_rate(),
    }
}

/// Something that rates single instabilities: a boss, or a fractal.
pub trait Rater {
    /// The rating that this rater gives to one instability.
    spec fn spec_rate_one(&self, instab: Instability) -> Rating;

    /// Rates one instability.
    fn rate_one(&self, instab: &Instability) -> (r: Rating)
        ensures
            r == self.spec_rate_one(*instab),
    ;
}

impl Rater for Boss {
    open spec fn spec_rate_one(&self, instab: Instability) -> Rating {
        self.spec_rate(instab)
    }

    fn rate_one(&self, instab: &Instability) -> (r: Rating) {
        let last_laugh = *instab == Instability::LastLaugh;
        assert(self.spec_rate_one(*instab) == self.spec_rate(*instab));
        match self {
            Boss::Mama if last_laugh => Rating::Unplayable,
            Boss::Ensolyss if last_laugh => Rating::Good,
            Boss::Skorvald if last_laugh => Rating::Good,
            Boss::Artsariiv if last_laugh => Rating::Good,
            Boss::Arkk if *instab == Instability::Hamstrung => Rating::Bad,
            _ => instab.rate(),
        }
    }
}

impl Rater for Fractal {
    open spec fn spec_rate_one(&self, instab: Instability) -> Rating {
        spec_rate_for_fractal(*self, instab)
    }

    fn rate_one(&self, instab: &Instability) -> (r: Rating) {
        match self {
            Fractal::Nightmare => sum3(
                Boss::Mama.rate_one(instab),
                Boss::Siax.rate_one(instab),
                Boss::Ensolyss.rate_one(instab),
            ),
            Fractal::ShatteredObservatory => sum3(
                Boss::Skorvald.rate_one(instab),
                Boss::Artsariiv.rate_one(instab),
                Boss::Arkk.rate_one(instab),
            ),
            _ => instab.rate(),
        }
    }
}

impl Rater for Nightmare {
    open spec fn spec_rate_one(&self, instab: Instability) -> Rating {
        spec_rate_for_fractal(Fractal::Nightmare, instab)
    }

    fn rate_one(&self, instab: &Instability) -> (r: Rating) {
        Fractal::Nightmare.rate_one(instab)
    }
}

impl Rater for ShatteredObservatory {
    open spec fn spec_rate_one(&self, instab: Instability) -> Rating {
        spec_rate_for_fractal(Fractal::ShatteredObservatory, instab)
    }

    fn rate_one(&self, instab: &Instability) -> (r: Rating) {
        Fractal::ShatteredObservatory.rate_one(instab)
    }
}

/// The rating of three instabilities by a rater: the single ratings combined
/// one after the other, starting from `Good`.
pub open spec fn spec_rate<R: Rater>(instabs: Seq<Instability>, rater: &R) -> Rating {
    spec_sum3(
        rater.spec_rate_one(instabs[0]),
        rater.spec_rate_one(instabs[1]),
        rater.spec_rate_one(instabs[2]),
    )
}

/// Whatever has three instabilities can be rated.
pub trait Rateable: HasInstabs {
    /// Rates the three instabilities by `rater`.
    fn rate<R: Rater>(&self, rater: &R) -> (r: Rating)
        ensures
            r == spec_rate(self.spec_instabs(), rater),
    {
        let instabs = self.instabs();
        sum3(
            rater.rate_one(&instabs.get(0)),
            rater.rate_one(&instabs.get(1)),
            rater.rate_one(&instabs.get(2)),
        )
    }
}

impl<T: HasInstabs> Rateable for T {

}

/// `Good` is neutral on the left: combined with any rating it gives that
/// rating.
pub proof fn lemma_good_is_left_neutral(x: Rating)
    ensures
        Rating::Good.spec_combine(x) == x,
{
}

/// `Perfect` and `Good` combine to `Perfect`, in either order.
pub proof fn lemma_perfect_outweighs_good()
    ensures
        Rating::Perfect.spec_combine(Rating::Good) == Rating::Perfect,
        Rating::Good.spec_combine(Rating::Perfect) == Rating::Perfect,
{
}

/// Apart from `Perfect` with `Good`, combining gives the worse of the two.
pub proof fn lemma_combine_is_worse_of_two(a: Rating, b: Rating)
    requires
        !(a == Rating::Perfect && b == Rating::Good),
        !(a == Rating::Good && b == Rating::Perfect),
    ensures
        a.spec_combine(b).rank() == if a.rank() <= b.rank() {
            a.rank()
        } else {
            b.rank()
        },
        a.spec_combine(b) == a || a.spec_combine(b) == b,
{
}

/// Combining does not depend on the order of the two ratings.
pub proof fn lemma_combine_commutes(a: Rating, b: Rating)
    ensures
        a.spec_combine(b) == b.spec_combine(a),
{
}

impl Render for Rating {
    open spec fn spec_render(&self) -> Seq<char> {
        self.spec_name()
    }

    fn render(&self) -> (r: String) {
        String::from_str(self.name())
    }
}

/// Combining three ratings gives the same whichever two are combined first.
pub proof fn lemma_combine_associates(a: Rating, b: Rating, c: Rating)
    ensures
        a.spec_combine(b).spec_combine(c) == a.spec_combine(b.spec_combine(c)),
{
}

/// The rating of three together does not depend on their order.
pub proof fn lemma_sum3_ignores_order(a: Rating, b: Rating, c: Rating)
    ensures
        spec_sum3(a, b, c) == spec_sum3(a, c, b),
        spec_sum3(a, b, c) == spec_sum3(b, a, c),
        spec_sum3(a, b, c) == spec_sum3(b, c, a),
        spec_sum3(a, b, c) == spec_sum3(c, a, b),
        spec_sum3(a, b, c) == spec_sum3(c, b, a),
{
}

} // verus!
