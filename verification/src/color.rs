use crate::fractal::Fractal;
use crate::instab::Instability;
use crate::rating::spec_rate;
use crate::rating::Rateable;
use crate::rating::Rater;
use crate::rating::Rating;
use crate::set::DailyOrCm;
use crate::set::Dailylike;
use crate::set::HasInstabs;
use crate::set::Instabs;
use crate::set::RotationSet;
use crate::set::RotationView;
use crate::set::SlotView;
use crate::text::decimal;
use crate::text::spec_decimal;
use crate::text::Render;
use vstd::prelude::*;

verus! {

/// A colour or weight of text on a terminal.
#[derive(Debug, Copy, Clone, PartialEq, Eq, Structural)]
pub enum Color {
    Normal,
    Bold,
    Faint,
    Black,
    Red,
    Green,
    Yellow,
    Blue,
    Magenta,
    Cyan,
    White,
    BrightBlack,
    BrightRed,
    BrightGreen,
    BrightYellow,
    BrightBlue,
    BrightMagenta,
    BrightCyan,
    BrightWhite,
}

impl Color {
    /// The number of the colour in a terminal's escape sequence.
    pub open spec fn spec_code(self) -> u8 {
        match self {
            Color::Normal => 0,
            Color::Bold => 1,
            Color::Faint => 2,
            Color::Black => 30,
            Color::Red => 31,
            Color::Green => 32,
            Color::Yellow => 33,
            Color::Blue => 34,
            Color::Magenta => 35,
            Color::Cyan => 36,
            Color::White => 37,
            Color::BrightBlack => 90,
            Color::BrightRed => 91,
            Color::BrightGreen => 92,
            Color::BrightYellow => 93,
            Color::BrightBlue => 94,
            Color::BrightMagenta => 95,
            Color::BrightCyan => 96,
            Color::BrightWhite => 97,
        }
    }

    /// The number of the colour in a terminal's escape sequence.
    pub fn code(&self) -> (r: u8)
        ensures
            r == self.spec_code(),
    {
        match self {
            Color::Normal => 0,
            Color::Bold => 1,
            Color::Faint => 2,
            Color::Black => 30,
            Color::Red => 31,
            Color::Green => 32,
            Color::Yellow => 33,
            Color::Blue => 34,
            Color::Magenta => 35,
            Color::Cyan => 36,
            Color::White => 37,
            Color::BrightBlack => 90,
            Color::BrightRed => 91,
            Color::BrightGreen => 92,
            Color::BrightYellow => 93,
            Color::BrightBlue => 94,
            Color::BrightMagenta => 95,
            Color::BrightCyan => 96,
            Color::BrightWhite => 97,
        }
    }
}

/// A choice of colour for each rating.
pub trait CustomColors {
    /// The colour of a rating.
    spec fn spec_map(rating: Rating) -> Color;

    /// Chooses the colour of a rating.
    fn map(rating: Rating) -> (c: Color)
        ensures
            c == Self::spec_map(rating),
    ;
}

/// The colours in which a fractal is shown.
pub struct DefaultColors {}

impl CustomColors for DefaultColors {
    open spec fn spec_map(rating: Rating) -> Color {
        match rating {
            Rating::Perfect => Color::Yellow,
            Rating::Good => Color::Blue,
            Rating::Playable => Color::Normal,
            Rating::Bad => Color::BrightBlack,
            Rating::Unplayable => Color::Red,
        }
    }

    fn map(rating: Rating) -> (c: Color) {
        match rating {
            Rating::Perfect => Color::Yellow,
            Rating::Good => Color::Blue,
            Rating::Playable => Color::Normal,
            Rating::Bad => Color::BrightBlack,
            Rating::Unplayable => Color::Red,
        }
    }
}

/// The colours in which a single instability is shown.
pub struct StandaloneInstabColors {}

impl CustomColors for StandaloneInstabColors {
    open spec fn spec_map(rating: Rating) -> Color {
        match rating {
            Rating::Perfect => Color::Yellow,
            Rating::Unplayable => Color::BrightBlack,
            _ => Color::Normal,
        }
    }

    fn map(rating: Rating) -> (c: Color) {
        match rating {
            Rating::Perfect => Color::Yellow,
            Rating::Unplayable => Color::BrightBlack,
            _ => Color::Normal,
        }
    }
}

/// A text in a colour: the escape sequence that switches the colour on, the
/// text, and the escape sequence that switches all colours off.
pub open spec fn spec_paint(color: Color, text: Seq<char>) -> Seq<char> {
    "\x1b["@ + spec_decimal(color.spec_code() as nat) + "m"@ + text + "\x1b[0m"@
}

/// Writes a text in a colour.
pub fn paint(color: Color, text: &str) -> (r: String)
    ensures
        r@ == spec_paint(color, text@),
{
    let mut r = String::from_str("\x1b[");
    r.append(decimal(color.code() as u16).as_str());
    r.append("m");
    r.append(text);
    r.append("\x1b[0m");
    r
}

/// Something together with the colour in which it is shown.
pub struct WithColor<'a, T: ?Sized> {
    inner: &'a T,
    color: Color,
}

impl<'a, T: ?Sized> WithColor<'a, T> {
    /// What is shown.
    pub closed spec fn spec_inner(&self) -> &'a T {
        self.inner
    }

    /// The colour in which it is shown.
    pub closed spec fn spec_color(&self) -> Color {
        self.color
    }

    /// What is shown.
    pub fn inner(&self) -> (r: &'a T)
        ensures
            r == self.spec_inner(),
    {
        self.inner
    }

    /// The colour in which it is shown.
    pub fn color(&self) -> (r: Color)
        ensures
            r == self.spec_color(),
    {
        self.color
    }
}

impl<'a, T: Render> Render for WithColor<'a, T> {
    open spec fn spec_render(&self) -> Seq<char> {
        spec_paint(self.spec_color(), self.spec_inner().spec_render())
    }

    fn render(&self) -> (r: String) {
        paint(self.color, self.inner.render().as_str())
    }
}

/// Anything can be given a colour.
pub trait Colored {
    /// Pairs a value with a colour.
    fn colored(&self, color: Color) -> (r: WithColor<'_, Self>)
        ensures
            r.spec_inner() == self,
            r.spec_color() == color,
    {
        WithColor { inner: self, color }
    }
}

impl<T> Colored for T {

}

/// Anything that can be given a colour can be given the colour of a rating.
pub trait ColorRating<T: CustomColors> {
    /// Pairs a value with the colour that `T` chooses for a rating.
    fn color_by_rating(&self, rating: Rating) -> (r: WithColor<'_, Self>) where Self: Colored
        ensures
            r.spec_inner() == self,
            r.spec_color() == T::spec_map(rating),
    {
        self.colored(T::map(rating))
    }
}

impl<T: Colored, U: CustomColors> ColorRating<U> for T {

}

/// Something together with the rater by whose ratings it is coloured.
pub struct ColoredByRater<'a, T: ?Sized, U: Rater> {
    inner: &'a T,
    rater: U,
}

impl<'a, T: ?Sized, U: Rater> ColoredByRater<'a, T, U> {
    /// What is shown.
    pub closed spec fn spec_inner(&self) -> &'a T {
        self.inner
    }

    /// The rater that decides the colours.
    pub closed spec fn spec_rater(&self) -> U {
        self.rater
    }

    /// What is shown.
    pub fn inner(&self) -> (r: &'a T)
        ensures
            r == self.spec_inner(),
    {
        self.inner
    }

    /// The rater that decides the colours.
    pub fn rater(&self) -> (r: &U)
        ensures
            *r == self.spec_rater(),
    {
        &self.rater
    }
}

/// What can be coloured by the ratings of a rater.
pub trait ColorByRater<T: Rater> {
    /// Pairs a value with a rater that decides its colours.
    fn color_by_rater(&self, rater: T) -> (r: ColoredByRater<'_, Self, T>)
        ensures
            r.spec_inner() == self,
            r.spec_rater() == rater,
    {
        ColoredByRater { inner: self, rater }
    }
}

impl<T: Rater> ColorByRater<T> for Instability {

}

impl<T: Rater> ColorByRater<T> for Instabs {

}

impl<T: Rater, U: Dailylike> ColorByRater<T> for U {

}

/// What can be coloured by the ratings of a rater of its own.
pub trait DailyColored<T: Rater> {
    /// The rater that decides the colours.
    spec fn spec_own_rater(&self) -> T;

    /// Pairs a value with its own rater.
    fn daily_colored(&self) -> (r: ColoredByRater<'_, Self, T>)
        ensures
            r.spec_inner() == self,
            r.spec_rater() == self.spec_own_rater(),
    ;
}

/// Whatever has a fractal can be coloured by the ratings of that fractal.
impl<T: Dailylike> DailyColored<Fractal> for T {
    open spec fn spec_own_rater(&self) -> Fractal {
        self.spec_fractal()
    }

    fn daily_colored(&self) -> (r: ColoredByRater<'_, Self, Fractal>) {
        ColoredByRater { inner: self, rater: self.fractal() }
    }
}

/// An instability in the colour of its rating by a rater.
pub open spec fn spec_render_instab_rated<R: Rater>(instab: Instability, rater: &R) -> Seq<char> {
    spec_paint(
        StandaloneInstabColors::spec_map(rater.spec_rate_one(instab)),
        instab.spec_name(),
    )
}

/// Three instabilities, each in the colour of its rating by a rater, with
/// `; ` between them.
pub open spec fn spec_render_instabs_rated<R: Rater>(
    instabs: Seq<Instability>,
    rater: &R,
) -> Seq<char> {
    spec_render_instab_rated(instabs[0], rater) + "; "@ + spec_render_instab_rated(
        instabs[1],
        rater,
    ) + "; "@ + spec_render_instab_rated(instabs[2], rater)
}

/// A fractal in the colour of the rating of its three instabilities by a
/// rater, `: `, and the instabilities in their own colours.
pub open spec fn spec_render_daily_rated<R: Rater>(
    fractal: Fractal,
    instabs: Seq<Instability>,
    rater: &R,
) -> Seq<char> {
    spec_paint(DefaultColors::spec_map(spec_rate(instabs, rater)), fractal.spec_name()) + ": "@
        + spec_render_instabs_rated(instabs, rater)
}

impl<'a, T: Rater> Render for ColoredByRater<'a, Instability, T> {
    open spec fn spec_render(&self) -> Seq<char> {
        spec_render_instab_rated(*self.spec_inner(), &self.spec_rater())
    }

    fn render(&self) -> (r: String) {
        let rating = self.rater.rate_one(self.inner);
        paint(StandaloneInstabColors::map(rating), self.inner.name())
    }
}

impl<'a, T: Rater + Copy> Render for ColoredByRater<'a, Instabs, T> {
    open spec fn spec_render(&self) -> Seq<char> {
        spec_render_instabs_rated(self.spec_inner()@, &self.spec_rater())
    }

    fn render(&self) -> (r: String) {
        let array = self.inner.raw();
        let mut r = array[0].color_by_rater(self.rater).render();
        r.append("; ");
        r.append(array[1].color_by_rater(self.rater).render().as_str());
        r.append("; ");
        r.append(array[2].color_by_rater(self.rater).render().as_str());
        r
    }
}

impl<'a, T: Rater + Copy, U: Dailylike> Render for ColoredByRater<'a, U, T> {
    open spec fn spec_render(&self) -> Seq<char> {
        spec_render_daily_rated(
            self.spec_inner().spec_fractal(),
            self.spec_inner().spec_instabs(),
            &self.spec_rater(),
        )
    }

    fn render(&self) -> (r: String) {
        let rating = self.inner.rate(&self.rater);
        let mut r = paint(DefaultColors::map(rating), self.inner.fractal().name());
        r.append(": ");
        r.append(self.inner.instabs().color_by_rater(self.rater).render().as_str());
        r
    }
}

/// The line of a daily position: a rotating daily coloured by the ratings of
/// its own fractal and a line end; nothing for a marker.
pub open spec fn spec_render_slot_rated(slot: SlotView) -> Seq<char> {
    match slot {
        SlotView::Daily(d) => spec_render_daily_rated(d.fractal, d.instabs, &d.fractal) + "\n"@,
        _ => Seq::empty(),
    }
}

/// A day in colours: a line for each of the three fixed fractals, each
/// coloured by its own ratings, and the lines of the first `n` daily
/// positions.
pub open spec fn spec_render_set_rated(set: RotationView, n: nat) -> Seq<char>
    decreases n,
{
    if n == 0 {
        spec_render_daily_rated(Fractal::Nightmare, set.nightmare, &Fractal::Nightmare) + "\n"@
            + spec_render_daily_rated(
            Fractal::ShatteredObservatory,
            set.shattered_observatory,
            &Fractal::ShatteredObservatory,
        ) + "\n"@ + spec_render_daily_rated(
            Fractal::SunquaPeak,
            set.sunqua_peak,
            &Fractal::SunquaPeak,
        ) + "\n"@
    } else {
        spec_render_set_rated(set, (n - 1) as nat) + spec_render_slot_rated(set.dailies[n - 1])
    }
}

/// A day that is shown in colours.
pub struct ColoredSet<'a>(&'a RotationSet);

impl<'a> ColoredSet<'a> {
    /// The day that is shown.
    pub closed spec fn spec_inner(&self) -> &'a RotationSet {
        self.0
    }

    /// The day that is shown.
    pub fn inner(&self) -> (r: &'a RotationSet)
        ensures
            r == self.spec_inner(),
    {
        self.0
    }
}

/// What can be shown in colours as a whole day.
pub trait SetColored {
    /// The day that is shown.
    spec fn spec_set(&self) -> &RotationSet;

    /// Marks a day to be shown in colours.
    fn colored(&self) -> (r: ColoredSet<'_>)
        ensures
            r.spec_inner() == self.spec_set(),
    ;
}

impl SetColored for RotationSet {
    open spec fn spec_set(&self) -> &RotationSet {
        self
    }

    fn colored(&self) -> (r: ColoredSet<'_>) {
        ColoredSet(self)
    }
}

impl<'a> Render for ColoredSet<'a> {
    open spec fn spec_render(&self) -> Seq<char> {
        spec_render_set_rated(self.spec_inner()@, 3)
    }

    fn render(&self) -> (r: String) {
        let set = self.0;
        let mut r = set.nightmare().daily_colored().render();
        r.append("\n");
        r.append(set.shattered_observatory().daily_colored().render().as_str());
        r.append("\n");
        r.append(set.sunqua_peak().daily_colored().render().as_str());
        r.append("\n");
        let mut i: usize = 0;
        while i < 3
            invariant
                i <= 3,
                r@ == spec_render_set_rated(set@, i as nat),
            decreases 3 - i,
        {
            let ghost before = r@;
            if let DailyOrCm::Daily(daily) = set.daily_slot(i) {
                r.append(daily.daily_colored().render().as_str());
                r.append("\n");
                assert(r@ =~= before + spec_render_slot_rated(set@.dailies[i as int]));
            } else {
                assert(r@ =~= before + spec_render_slot_rated(set@.dailies[i as int]));
            }
            i += 1;
        }
        r
    }
}

} // verus!
