use crate::fractal::Fractal;
use crate::instab::Instability;
use crate::text::Render;
use vstd::prelude::*;

verus! {

/// The three instabilities of one fractal on one day, in display order.
#[derive(Debug, PartialEq)]
pub struct Instabs([Instability; 3]);

impl View for Instabs {
    type V = Seq<Instability>;

    /// The three instabilities as a sequence of length 3.
    open spec fn view(&self) -> Seq<Instability> {
        Seq::new(3, |i: int| self.at(i))
    }
}

impl Instabs {
    /// The instability at position `i`, for `i` from 0 to 2.
    pub closed spec fn at(&self, i: int) -> Instability {
        self.0@[i]
    }

    /// Three instabilities in the given order.
    pub fn new(one: Instability, two: Instability, three: Instability) -> (r: Self)
        ensures
            r@ == seq![one, two, three],
    {
        let r = Self([one, two, three]);
        assert(r@ =~= seq![one, two, three]);
        r
    }

    /// The instabilities as a slice of length 3.
    pub fn as_slice(&self) -> (r: &[Instability])
        ensures
            r@ == self@,
    {
        let r = self.0.as_slice();
        assert(r@ =~= self@);
        r
    }

    /// The instabilities as an array.
    pub fn raw(&self) -> (r: &[Instability; 3])
        ensures
            r@ == self@,
    {
        assert(self.0@ =~= self@);
        &self.0
    }

    /// An iterator over the three instabilities in their order.
    pub fn iter(&self) -> (r: core::slice::Iter<'_, Instability>)
        ensures
            vstd::std_specs::slice::into_iter_elts(r) == self@,
    {
        broadcast use vstd::std_specs::slice::axiom_spec_slice_iter;

        let slice = self.as_slice();
        let r = slice.iter();
        assert(vstd::std_specs::slice::into_iter_elts(r) =~= slice@);
        r
    }

    /// The instability at position `i`.
    pub fn get(&self, i: usize) -> (r: Instability)
        requires
            i < 3,
        ensures
            r == self@[i as int],
    {
        self.0[i]
    }
}

impl Clone for Instabs {
    fn clone(&self) -> (r: Self)
        ensures
            r@ == self@,
    {
        Instabs::new(self.0[0], self.0[1], self.0[2])
    }
}

/// What a type with three instabilities gives access to.
pub trait HasInstabs {
    /// The instabilities, as a sequence of length 3.
    spec fn spec_instabs(&self) -> Seq<Instability>;

    /// The three instabilities.
    fn instabs(&self) -> (r: &Instabs)
        ensures
            r@ == self.spec_instabs(),
    ;
}

impl HasInstabs for Instabs {
    open spec fn spec_instabs(&self) -> Seq<Instability> {
        self@
    }

    fn instabs(&self) -> (r: &Instabs) {
        self
    }
}

/// The mathematical content of a daily: its fractal, its instabilities (a
/// sequence of length 3) and, on some days, a second set of instabilities.
pub struct DailyView {
    pub fractal: Fractal,
    pub instabs: Seq<Instability>,
    pub alt: Option<Seq<Instability>>,
}

impl DailyView {
    /// A daily is well formed if it has three instabilities, and three more
    /// where it has a second set.
    pub open spec fn wf(self) -> bool {
        self.instabs.len() == 3 && (self.alt matches Some(alt) ==> alt.len() == 3)
    }
}

/// The view of an optional set of instabilities.
pub open spec fn spec_alt_view(alt: Option<Instabs>) -> Option<Seq<Instability>> {
    match alt {
        Some(a) => Some(a@),
        None => None,
    }
}

/// The view of an optional borrowed set of instabilities.
pub open spec fn spec_alt_ref_view(alt: Option<&Instabs>) -> Option<Seq<Instability>> {
    match alt {
        Some(a) => Some(a@),
        None => None,
    }
}

/// A rotating fractal of one day with its instabilities.
#[derive(Debug, PartialEq)]
pub struct Daily {
    fractal: Fractal,
    instabs: Instabs,
    alt: Option<Instabs>,
}

impl View for Daily {
    type V = DailyView;

    closed spec fn view(&self) -> DailyView {
        DailyView {
            fractal: self.fractal,
            instabs: self.instabs@,
            alt: spec_alt_view(self.alt),
        }
    }
}

impl Clone for Daily {
    fn clone(&self) -> (r: Self)
        ensures
            r@ == self@,
    {
        let alt = match &self.alt {
            Some(a) => Some(a.clone()),
            None => None,
        };
        Daily { fractal: self.fractal, instabs: self.instabs.clone(), alt }
    }
}

impl Daily {
    /// Every daily is well formed.
    pub proof fn lemma_view_wf(&self)
        ensures
            self@.wf(),
    {
    }

    /// A daily without a second set of instabilities.
    pub fn new(fractal: Fractal, instabs: Instabs) -> (r: Self)
        ensures
            r@ == (DailyView { fractal, instabs: instabs@, alt: None }),
    {
        Self { fractal, instabs, alt: None }
    }

    /// A daily with a second set of instabilities, or without one.
    pub fn new_with_alt(fractal: Fractal, instabs: Instabs, alt: Option<Instabs>) -> (r: Self)
        ensures
            r@ == (DailyView { fractal, instabs: instabs@, alt: spec_alt_view(alt) }),
    {
        Self { fractal, instabs, alt }
    }

    /// The fractal.
    pub fn fractal(&self) -> (r: &Fractal)
        ensures
            *r == self@.fractal,
    {
        &self.fractal
    }

    /// The second set of instabilities, on the days that have one.
    pub fn alt(&self) -> (r: Option<&Instabs>)
        ensures
            spec_alt_ref_view(r) == self@.alt,
    {
        self.alt.as_ref()
    }

    /// A borrowed form with the same content.
    pub fn borrow(&self) -> (r: DailyBorrow<'_>)
        ensures
            r@ == self@,
    {
        DailyBorrow::new(self.fractal, &self.instabs).with_alt(self.alt.as_ref())
    }

    /// The same daily with its second set of instabilities replaced.
    pub fn with_alt(self, alt: Option<Instabs>) -> (r: Self)
        ensures
            r@ == (DailyView { fractal: self@.fractal, instabs: self@.instabs, alt: spec_alt_view(alt) }),
    {
        let mut r = self;
        r.alt = alt;
        r
    }
}

impl HasInstabs for Daily {
    open spec fn spec_instabs(&self) -> Seq<Instability> {
        self@.instabs
    }

    fn instabs(&self) -> (r: &Instabs) {
        &self.instabs
    }
}

/// A daily that borrows its instabilities.
pub struct DailyBorrow<'a> {
    fractal: Fractal,
    instabs: &'a Instabs,
    alt: Option<&'a Instabs>,
}

impl<'a> View for DailyBorrow<'a> {
    type V = DailyView;

    closed spec fn view(&self) -> DailyView {
        DailyView {
            fractal: self.fractal,
            instabs: self.instabs@,
            alt: spec_alt_ref_view(self.alt),
        }
    }
}

impl<'a> DailyBorrow<'a> {
    /// A borrowed daily without a second set of instabilities.
    pub(crate) fn new(fractal: Fractal, instabs: &'a Instabs) -> (r: Self)
        ensures
            r@ == (DailyView { fractal, instabs: instabs@, alt: None }),
    {
        Self { fractal, instabs, alt: None }
    }

    /// The fractal.
    pub fn fractal(&self) -> (r: &Fractal)
        ensures
            *r == self@.fractal,
    {
        &self.fractal
    }

    /// The second set of instabilities, on the days that have one.
    pub fn alt(&self) -> (r: Option<&'a Instabs>)
        ensures
            spec_alt_ref_view(r) == self@.alt,
    {
        self.alt
    }

    /// The same daily with its second set of instabilities replaced.
    pub fn with_alt(self, alt: Option<&'a Instabs>) -> (r: Self)
        ensures
            r@ == (DailyView {
                fractal: self@.fractal,
                instabs: self@.instabs,
                alt: spec_alt_ref_view(alt),
            }),
    {
        let mut r = self;
        r.alt = alt;
        r
    }

    /// An owned daily with the same content.
    pub fn into_owned(self) -> (r: Daily)
        ensures
            r@ == self@,
    {
        let alt = match self.alt {
            Some(a) => Some(a.clone()),
            None => None,
        };
        Daily { fractal: self.fractal, instabs: self.instabs.clone(), alt }
    }
}

impl<'a> HasInstabs for DailyBorrow<'a> {
    open spec fn spec_instabs(&self) -> Seq<Instability> {
        self@.instabs
    }

    fn instabs(&self) -> (r: &Instabs) {
        self.instabs
    }
}

/// Something that has a fractal and its three instabilities.
pub trait Dailylike: HasInstabs {
    /// The fractal.
    spec fn spec_fractal(&self) -> Fractal;

    /// The fractal.
    fn fractal(&self) -> (r: Fractal)
        ensures
            r == self.spec_fractal(),
    ;
}

impl Dailylike for Daily {
    open spec fn spec_fractal(&self) -> Fractal {
        self@.fractal
    }

    fn fractal(&self) -> (r: Fractal) {
        self.fractal
    }
}

impl<'a> Dailylike for DailyBorrow<'a> {
    open spec fn spec_fractal(&self) -> Fractal {
        self@.fractal
    }

    fn fractal(&self) -> (r: Fractal) {
        self.fractal
    }
}

/// The instabilities of the fixed Nightmare slot of one day.
#[derive(Debug, PartialEq)]
pub struct Nightmare(pub(crate) Instabs);

impl View for Nightmare {
    type V = Seq<Instability>;

    closed spec fn view(&self) -> Seq<Instability> {
        self.0@
    }
}

impl Clone for Nightmare {
    fn clone(&self) -> (r: Self)
        ensures
            r@ == self@,
    {
        Nightmare(self.0.clone())
    }
}

impl Nightmare {
    /// The slot with three instabilities in the given order.
    pub fn new(one: Instability, two: Instability, three: Instability) -> (r: Self)
        ensures
            r@ == seq![one, two, three],
    {
        Self(Instabs::new(one, two, three))
    }

    /// The slot with the given instabilities.
    pub fn from_instabs(instabs: Instabs) -> (r: Self)
        ensures
            r@ == instabs@,
    {
        Self(instabs)
    }

    /// The slot as a borrowed daily of the fractal Nightmare.
    pub fn as_daily(&self) -> (r: DailyBorrow<'_>)
        ensures
            r@ == (DailyView { fractal: Fractal::Nightmare, instabs: self@, alt: None }),
    {
        DailyBorrow::new(Fractal::Nightmare, &self.0)
    }

    /// The slot as an owned daily of the fractal Nightmare.
    pub fn to_daily(&self) -> (r: Daily)
        ensures
            r@ == (DailyView { fractal: Fractal::Nightmare, instabs: self@, alt: None }),
    {
        Daily::new(Fractal::Nightmare, self.0.clone())
    }

    /// The slot turned into a daily of the fractal Nightmare.
    pub fn into_daily(self) -> (r: Daily)
        ensures
            r@ == (DailyView { fractal: Fractal::Nightmare, instabs: self@, alt: None }),
    {
        let Self(instabs) = self;
        Daily::new(Fractal::Nightmare, instabs)
    }
}

impl HasInstabs for Nightmare {
    open spec fn spec_instabs(&self) -> Seq<Instability> {
        self@
    }

    fn instabs(&self) -> (r: &Instabs) {
        &self.0
    }
}

impl Dailylike for Nightmare {
    open spec fn spec_fractal(&self) -> Fractal {
        Fractal::Nightmare
    }

    fn fractal(&self) -> (r: Fractal) {
        Fractal::Nightmare
    }
}

/// The instabilities of the fixed Shattered Observatory slot of one day.
#[derive(Debug, PartialEq)]
pub struct ShatteredObservatory(pub(crate) Instabs);

impl View for ShatteredObservatory {
    type V = Seq<Instability>;

    closed spec fn view(&self) -> Seq<Instability> {
        self.0@
    }
}

impl Clone for ShatteredObservatory {
    fn clone(&self) -> (r: Self)
        ensures
            r@ == self@,
    {
        ShatteredObservatory(self.0.clone())
    }
}

impl ShatteredObservatory {
    /// The slot with three instabilities in the given order.
    pub fn new(one: Instability, two: Instability, three: Instability) -> (r: Self)
        ensures
            r@ == seq![one, two, three],
    {
        Self(Instabs::new(one, two, three))
    }

    /// The slot with the given instabilities.
    pub fn from_instabs(instabs: Instabs) -> (r: Self)
        ensures
            r@ == instabs@,
    {
        Self(instabs)
    }

    /// The slot as a borrowed daily of the fractal Shattered Observatory.
    pub fn as_daily(&self) -> (r: DailyBorrow<'_>)
        ensures
            r@ == (DailyView { fractal: Fractal::ShatteredObservatory, instabs: self@, alt: None }),
    {
        DailyBorrow::new(Fractal::ShatteredObservatory, &self.0)
    }

    /// The slot as an owned daily of the fractal Shattered Observatory.
    pub fn to_daily(&self) -> (r: Daily)
        ensures
            r@ == (DailyView { fractal: Fractal::ShatteredObservatory, instabs: self@, alt: None }),
    {
        Daily::new(Fractal::ShatteredObservatory, self.0.clone())
    }

    /// The slot turned into a daily of the fractal Shattered Observatory.
    pub fn into_daily(self) -> (r: Daily)
        ensures
            r@ == (DailyView { fractal: Fractal::ShatteredObservatory, instabs: self@, alt: None }),
    {
        let Self(instabs) = self;
        Daily::new(Fractal::ShatteredObservatory, instabs)
    }
}

impl HasInstabs for ShatteredObservatory {
    open spec fn spec_instabs(&self) -> Seq<Instability> {
        self@
    }

    fn instabs(&self) -> (r: &Instabs) {
        &self.0
    }
}

impl Dailylike for ShatteredObservatory {
    open spec fn spec_fractal(&self) -> Fractal {
        Fractal::ShatteredObservatory
    }

    fn fractal(&self) -> (r: Fractal) {
        Fractal::ShatteredObservatory
    }
}

/// The instabilities of the fixed Sunqua Peak slot of one day.
#[derive(Debug, PartialEq)]
pub struct SunquaPeak(pub(crate) Instabs);

impl View for SunquaPeak {
    type V = Seq<Instability>;

    closed spec fn view(&self) -> Seq<Instability> {
        self.0@
    }
}

impl Clone for SunquaPeak {
    fn clone(&self) -> (r: Self)
        ensures
            r@ == self@,
    {
        SunquaPeak(self.0.clone())
    }
}

impl SunquaPeak {
    /// The slot with three instabilities in the given order.
    pub fn new(one: Instability, two: Instability, three: Instability) -> (r: Self)
        ensures
            r@ == seq![one, two, three],
    {
        Self(Instabs::new(one, two, three))
    }

    /// The slot with the given instabilities.
    pub fn from_instabs(instabs: Instabs) -> (r: Self)
        ensures
            r@ == instabs@,
    {
        Self(instabs)
    }

    /// The slot as a borrowed daily of the fractal Sunqua Peak.
    pub fn as_daily(&self) -> (r: DailyBorrow<'_>)
        ensures
            r@ == (DailyView { fractal: Fractal::SunquaPeak, instabs: self@, alt: None }),
    {
        DailyBorrow::new(Fractal::SunquaPeak, &self.0)
    }

    /// The slot as an owned daily of the fractal Sunqua Peak.
    pub fn to_daily(&self) -> (r: Daily)
        ensures
            r@ == (DailyView { fractal: Fractal::SunquaPeak, instabs: self@, alt: None }),
    {
        Daily::new(Fractal::SunquaPeak, self.0.clone())
    }

    /// The slot turned into a daily of the fractal Sunqua Peak.
    pub fn into_daily(self) -> (r: Daily)
        ensures
            r@ == (DailyView { fractal: Fractal::SunquaPeak, instabs: self@, alt: None }),
    {
        let Self(instabs) = self;
        Daily::new(Fractal::SunquaPeak, instabs)
    }
}

impl HasInstabs for SunquaPeak {
    open spec fn spec_instabs(&self) -> Seq<Instability> {
        self@
    }

    fn instabs(&self) -> (r: &Instabs) {
        &self.0
    }
}

impl Dailylike for SunquaPeak {
    open spec fn spec_fractal(&self) -> Fractal {
        Fractal::SunquaPeak
    }

    fn fractal(&self) -> (r: Fractal) {
        Fractal::SunquaPeak
    }
}

/// One of the three daily positions of a day: a rotating fractal, or a marker
/// saying that the position is taken by one of the three fixed fractals.
#[derive(Debug)]
pub enum DailyOrCm {
    Daily(Daily),
    Nightmare,
    ShatteredObservatory,
    SunquaPeak,
}

/// The mathematical content of a daily position.
pub enum SlotView {
    Daily(DailyView),
    Nightmare,
    ShatteredObservatory,
    SunquaPeak,
}

impl SlotView {
    /// A daily position is well formed if the daily in it, if any, is.
    pub open spec fn wf(self) -> bool {
        self matches SlotView::Daily(d) ==> d.wf()
    }

    /// Whether the position holds a rotating daily of the fractal `fractal`.
    pub open spec fn holds(self, fractal: Fractal) -> bool {
        self matches SlotView::Daily(d) && d.fractal == fractal
    }
}

impl View for DailyOrCm {
    type V = SlotView;

    open spec fn view(&self) -> SlotView {
        match self {
            DailyOrCm::Daily(d) => SlotView::Daily(d@),
            DailyOrCm::Nightmare => SlotView::Nightmare,
            DailyOrCm::ShatteredObservatory => SlotView::ShatteredObservatory,
            DailyOrCm::SunquaPeak => SlotView::SunquaPeak,
        }
    }
}

impl Clone for DailyOrCm {
    fn clone(&self) -> (r: Self)
        ensures
            r@ == self@,
    {
        match self {
            DailyOrCm::Daily(d) => DailyOrCm::Daily(d.clone()),
            DailyOrCm::Nightmare => DailyOrCm::Nightmare,
            DailyOrCm::ShatteredObservatory => DailyOrCm::ShatteredObservatory,
            DailyOrCm::SunquaPeak => DailyOrCm::SunquaPeak,
        }
    }
}

/// A reference to one of the six slots of a day: one of the three fixed
/// fractals, or a daily position counted from 0.
#[derive(Debug, Copy, Clone, PartialEq, Eq, Structural)]
pub enum SearchResult {
    Nightmare,
    ShatteredObservatory,
    SunquaPeak,
    Daily(usize),
}

/// The mathematical content of a day: three daily positions and the
/// instabilities of the three fixed fractals.
pub struct RotationView {
    pub dailies: Seq<SlotView>,
    pub nightmare: Seq<Instability>,
    pub shattered_observatory: Seq<Instability>,
    pub sunqua_peak: Seq<Instability>,
}

impl RotationView {
    /// A day is well formed if it has three daily positions, each well
    /// formed, and three instabilities for each of the three fixed fractals.
    pub open spec fn wf(self) -> bool {
        &&& self.dailies.len() == 3
        &&& forall|i: int| 0 <= i < 3 ==> (#[trigger] self.dailies[i]).wf()
        &&& self.nightmare.len() == 3
        &&& self.shattered_observatory.len() == 3
        &&& self.sunqua_peak.len() == 3
    }

    /// The rotating dailies among the first `n` positions, in their order.
    pub open spec fn active(self, n: nat) -> Seq<DailyView>
        decreases n,
    {
        if n == 0 {
            Seq::empty()
        } else {
            let before = self.active((n - 1) as nat);
            match self.dailies[n - 1] {
                SlotView::Daily(d) => before.push(d),
                _ => before,
            }
        }
    }

    /// What a slot reference resolves to. A fixed fractal always resolves; a
    /// daily position resolves if it is 0, 1 or 2 and holds a rotating daily.
    pub open spec fn get(self, slot: SearchResult) -> Option<DailyView> {
        match slot {
            SearchResult::Nightmare => Some(
                DailyView { fractal: Fractal::Nightmare, instabs: self.nightmare, alt: None },
            ),
            SearchResult::ShatteredObservatory => Some(
                DailyView {
                    fractal: Fractal::ShatteredObservatory,
                    instabs: self.shattered_observatory,
                    alt: None,
                },
            ),
            SearchResult::SunquaPeak => Some(
                DailyView { fractal: Fractal::SunquaPeak, instabs: self.sunqua_peak, alt: None },
            ),
            SearchResult::Daily(i) => if i < 3 {
                match self.dailies[i as int] {
                    SlotView::Daily(d) => Some(d),
                    _ => None,
                }
            } else {
                None
            },
        }
    }

    /// Where a fractal is found. `Nightmare` and `ShatteredObservatory` are
    /// found in their fixed slots; any other fractal in the first daily
    /// position that holds a rotating daily of it.
    pub open spec fn find_fractal(self, fractal: Fractal) -> Option<SearchResult> {
        if fractal == Fractal::Nightmare {
            Some(SearchResult::Nightmare)
        } else if fractal == Fractal::ShatteredObservatory {
            Some(SearchResult::ShatteredObservatory)
        } else if self.dailies[0].holds(fractal) {
            Some(SearchResult::Daily(0))
        } else if self.dailies[1].holds(fractal) {
            Some(SearchResult::Daily(1))
        } else if self.dailies[2].holds(fractal) {
            Some(SearchResult::Daily(2))
        } else {
            None
        }
    }
}

/// The full rotation of one day: three daily positions and the three fixed
/// fractals.
#[derive(Debug)]
pub struct RotationSet {
    dailies: [DailyOrCm; 3],
    nm: Nightmare,
    so: ShatteredObservatory,
    sp: SunquaPeak,
}

impl View for RotationSet {
    type V = RotationView;

    open spec fn view(&self) -> RotationView {
        RotationView {
            dailies: Seq::new(3, |i: int| self.spec_slot(i)),
            nightmare: self.spec_nightmare(),
            shattered_observatory: self.spec_shattered_observatory(),
            sunqua_peak: self.spec_sunqua_peak(),
        }
    }
}

impl Clone for RotationSet {
    fn clone(&self) -> (r: Self)
        ensures
            r@ == self@,
    {
        let r = RotationSet {
            dailies: [self.dailies[0].clone(), self.dailies[1].clone(), self.dailies[2].clone()],
            nm: self.nm.clone(),
            so: self.so.clone(),
            sp: self.sp.clone(),
        };
        assert(r@.dailies =~= self@.dailies);
        r
    }
}

impl RotationSet {
    /// The content of daily position `i`, for `i` from 0 to 2.
    pub closed spec fn spec_slot(&self, i: int) -> SlotView {
        self.dailies@[i]@
    }

    /// The instabilities of the fixed Nightmare slot.
    pub closed spec fn spec_nightmare(&self) -> Seq<Instability> {
        self.nm@
    }

    /// The instabilities of the fixed Shattered Observatory slot.
    pub closed spec fn spec_shattered_observatory(&self) -> Seq<Instability> {
        self.so@
    }

    /// The instabilities of the fixed Sunqua Peak slot.
    pub closed spec fn spec_sunqua_peak(&self) -> Seq<Instability> {
        self.sp@
    }

    /// Every day is well formed: it has its three daily positions and the
    /// instabilities of all three fixed fractals.
    pub proof fn lemma_view_wf(&self)
        ensures
            self@.wf(),
    {
        assert forall|i: int| 0 <= i < 3 implies (#[trigger] self@.dailies[i]).wf() by {
            match self.dailies@[i] {
                DailyOrCm::Daily(d) => {
                    d.lemma_view_wf();
                },
                _ => {},
            }
        }
    }

    /// A day from its three daily positions and the instabilities of
    /// Nightmare, of Shattered Observatory and of Sunqua Peak.
    pub fn new(
        d1: DailyOrCm,
        d2: DailyOrCm,
        d3: DailyOrCm,
        nm: Instabs,
        so: Instabs,
        sp: Instabs,
    ) -> (r: Self)
        ensures
            r@ == (RotationView {
                dailies: seq![d1@, d2@, d3@],
                nightmare: nm@,
                shattered_observatory: so@,
                sunqua_peak: sp@,
            }),
    {
        let r = Self {
            dailies: [d1, d2, d3],
            nm: Nightmare::from_instabs(nm),
            so: ShatteredObservatory::from_instabs(so),
            sp: SunquaPeak::from_instabs(sp),
        };
        assert(r@.dailies =~= seq![d1@, d2@, d3@]);
        r
    }

    /// The rotating dailies of the day, in the order of their positions;
    /// positions taken by a fixed fractal are left out.
    pub fn dailies_iter(&self) -> (r: Vec<&Daily>)
        ensures
            r@.len() == self@.active(3).len(),
            forall|k: int| 0 <= k < r@.len() ==> (#[trigger] r@[k])@ == self@.active(3)[k],
    {
        let mut found: Vec<&Daily> = Vec::new();
        let mut i: usize = 0;
        while i < 3
            invariant
                i <= 3,
                found@.len() == self@.active(i as nat).len(),
                forall|k: int|
                    0 <= k < found@.len() ==> (#[trigger] found@[k])@ == self@.active(i as nat)[k],
            decreases 3 - i,
        {
            if let DailyOrCm::Daily(daily) = &self.dailies[i] {
                found.push(daily);
            }
            i += 1;
        }
        found
    }

    /// The slot at one of the three daily positions.
    pub fn daily_slot(&self, i: usize) -> (r: &DailyOrCm)
        requires
            i < 3,
        ensures
            r@ == self@.dailies[i as int],
    {
        &self.dailies[i]
    }

    /// The fixed Nightmare slot.
    pub fn nightmare(&self) -> (r: &Nightmare)
        ensures
            r@ == self@.nightmare,
    {
        &self.nm
    }

    /// The fixed Shattered Observatory slot.
    pub fn shattered_observatory(&self) -> (r: &ShatteredObservatory)
        ensures
            r@ == self@.shattered_observatory,
    {
        &self.so
    }

    /// The fixed Sunqua Peak slot.
    pub fn sunqua_peak(&self) -> (r: &SunquaPeak)
        ensures
            r@ == self@.sunqua_peak,
    {
        &self.sp
    }
}

/// The view of an optional borrowed daily.
pub open spec fn spec_borrow_view(b: Option<DailyBorrow<'_>>) -> Option<DailyView> {
    match b {
        Some(d) => Some(d@),
        None => None,
    }
}

/// Looking up slots in the rotation of a day.
pub trait Searchable {
    /// The day in which slots are looked up.
    spec fn spec_rotation(&self) -> RotationView;

    /// The slot that a reference resolves to, if it holds a fractal.
    fn get(&self, search_result: &SearchResult) -> (r: Option<DailyBorrow<'_>>)
        ensures
            spec_borrow_view(r) == self.spec_rotation().get(*search_result),
    ;

    /// The slot in which a fractal is found, if it is scheduled.
    fn find_fractal(&self, fractal: &Fractal) -> (r: Option<SearchResult>)
        ensures
            r == self.spec_rotation().find_fractal(*fractal),
    ;
}

impl Searchable for RotationSet {
    open spec fn spec_rotation(&self) -> RotationView {
        self@
    }

    fn get(&self, search_result: &SearchResult) -> (r: Option<DailyBorrow<'_>>) {
        match search_result {
            SearchResult::Nightmare => Some(self.nm.as_daily()),
            SearchResult::ShatteredObservatory => Some(self.so.as_daily()),
            SearchResult::SunquaPeak => Some(self.sp.as_daily()),
            SearchResult::Daily(idx) => {
                if *idx < 3 {
                    match &self.dailies[*idx] {
                        DailyOrCm::Daily(daily) => Some(daily.borrow()),
                        _ => None,
                    }
                } else {
                    None
                }
            },
        }
    }

    fn find_fractal(&self, fractal: &Fractal) -> (r: Option<SearchResult>) {
        match fractal {
            Fractal::Nightmare => Some(SearchResult::Nightmare),
            Fractal::ShatteredObservatory => Some(SearchResult::ShatteredObservatory),
            _ => {
                let mut i: usize = 0;
                while i < 3
                    invariant
                        i <= 3,
                        *fractal != Fractal::Nightmare,
                        *fractal != Fractal::ShatteredObservatory,
                        forall|k: int| 0 <= k < i ==> !(#[trigger] self@.dailies[k]).holds(*fractal),
                    decreases 3 - i,
                {
                    if let DailyOrCm::Daily(daily) = &self.dailies[i] {
                        if daily.fractal == *fractal {
                            return Some(SearchResult::Daily(i));
                        }
                    }
                    i += 1;
                }
                None
            },
        }
    }
}

/// A fixed slot resolves on every day, and a daily position resolves exactly
/// when it is one of the three and holds a rotating daily.
pub proof fn lemma_get_resolves(set: RotationSet, slot: SearchResult)
    ensures
        set@.dailies.len() == 3,
        !(slot is Daily) ==> set@.get(slot) is Some,
        slot matches SearchResult::Daily(i) ==> (set@.get(slot) is Some <==> i < 3
            && set@.dailies[i as int] is Daily),
{
}

/// `Nightmare` and `ShatteredObservatory` are found on every day, each in its
/// own fixed slot.
pub proof fn lemma_groups_always_found(set: RotationView, fractal: Fractal)
    requires
        fractal == Fractal::Nightmare || fractal == Fractal::ShatteredObservatory,
    ensures
        set.find_fractal(fractal) is Some,
        fractal == Fractal::Nightmare ==> set.find_fractal(fractal) == Some(
            SearchResult::Nightmare,
        ),
        fractal == Fractal::ShatteredObservatory ==> set.find_fractal(fractal) == Some(
            SearchResult::ShatteredObservatory,
        ),
{
}

/// The slot in which a fractal is found resolves, to a daily of that fractal.
pub proof fn lemma_found_slot_holds_fractal(set: RotationView, fractal: Fractal)
    requires
        set.find_fractal(fractal) is Some,
    ensures
        set.get(set.find_fractal(fractal).unwrap()) is Some,
        set.get(set.find_fractal(fractal).unwrap()).unwrap().fractal == fractal,
{
}

/// Three instabilities in text: their names with `; ` between them.
pub open spec fn spec_render_instabs(instabs: Seq<Instability>) -> Seq<char> {
    instabs[0].spec_name() + "; "@ + instabs[1].spec_name() + "; "@ + instabs[2].spec_name()
}

/// A daily in text: the name of the fractal, `: `, the instabilities and,
/// where there is a second set, ` | ` and that set.
pub open spec fn spec_render_daily(daily: DailyView) -> Seq<char> {
    let head = daily.fractal.spec_name() + ": "@ + spec_render_instabs(daily.instabs);
    match daily.alt {
        Some(alt) => head + " | "@ + spec_render_instabs(alt),
        None => head,
    }
}

/// A day in text: a line for each of the three fixed fractals, and one for
/// the first daily position that holds a rotating daily, if there is one.
pub open spec fn spec_render_set(set: RotationView) -> Seq<char> {
    let fixed = spec_render_daily(set.get(SearchResult::Nightmare).unwrap()) + "\n"@
        + spec_render_daily(set.get(SearchResult::ShatteredObservatory).unwrap()) + "\n"@
        + spec_render_daily(set.get(SearchResult::SunquaPeak).unwrap()) + "\n"@;
    if set.dailies[0] is Daily {
        fixed + spec_render_daily(set.dailies[0]->Daily_0) + "\n"@
    } else if set.dailies[1] is Daily {
        fixed + spec_render_daily(set.dailies[1]->Daily_0) + "\n"@
    } else if set.dailies[2] is Daily {
        fixed + spec_render_daily(set.dailies[2]->Daily_0) + "\n"@
    } else {
        fixed
    }
}

impl Render for Instabs {
    open spec fn spec_render(&self) -> Seq<char> {
        spec_render_instabs(self@)
    }

    fn render(&self) -> (r: String) {
        let mut r = String::from_str(self.0[0].name());
        r.append("; ");
        r.append(self.0[1].name());
        r.append("; ");
        r.append(self.0[2].name());
        r
    }
}

/// Writes a fractal with its instabilities and, where there is one, the
/// second set.
fn render_daily(fractal: Fractal, instabs: &Instabs, alt: Option<&Instabs>) -> (r: String)
    ensures
        r@ == spec_render_daily(
            DailyView { fractal, instabs: instabs@, alt: spec_alt_ref_view(alt) },
        ),
{
    let mut r = String::from_str(fractal.name());
    r.append(": ");
    r.append(instabs.render().as_str());
    if let Some(alt) = alt {
        r.append(" | ");
        r.append(alt.render().as_str());
    }
    r
}

impl Render for Daily {
    open spec fn spec_render(&self) -> Seq<char> {
        spec_render_daily(self@)
    }

    fn render(&self) -> (r: String) {
        render_daily(self.fractal, &self.instabs, self.alt.as_ref())
    }
}

impl<'a> Render for DailyBorrow<'a> {
    open spec fn spec_render(&self) -> Seq<char> {
        spec_render_daily(self@)
    }

    fn render(&self) -> (r: String) {
        render_daily(self.fractal, self.instabs, self.alt)
    }
}

impl Render for Nightmare {
    open spec fn spec_render(&self) -> Seq<char> {
        spec_render_daily(DailyView { fractal: Fractal::Nightmare, instabs: self@, alt: None })
    }

    fn render(&self) -> (r: String) {
        render_daily(Fractal::Nightmare, &self.0, None)
    }
}

impl Render for ShatteredObservatory {
    open spec fn spec_render(&self) -> Seq<char> {
        spec_render_daily(
            DailyView { fractal: Fractal::ShatteredObservatory, instabs: self@, alt: None },
        )
    }

    fn render(&self) -> (r: String) {
        render_daily(Fractal::ShatteredObservatory, &self.0, None)
    }
}

impl Render for SunquaPeak {
    open spec fn spec_render(&self) -> Seq<char> {
        spec_render_daily(DailyView { fractal: Fractal::SunquaPeak, instabs: self@, alt: None })
    }

    fn render(&self) -> (r: String) {
        render_daily(Fractal::SunquaPeak, &self.0, None)
    }
}

impl Render for RotationSet {
    open spec fn spec_render(&self) -> Seq<char> {
        spec_render_set(self@)
    }

    fn render(&self) -> (r: String) {
        let mut r = self.nm.render();
        r.append("\n");
        r.append(self.so.render().as_str());
        r.append("\n");
        r.append(self.sp.render().as_str());
        r.append("\n");
        if let DailyOrCm::Daily(daily) = &self.dailies[0] {
            r.append(daily.render().as_str());
            r.append("\n");
        } else if let DailyOrCm::Daily(daily) = &self.dailies[1] {
            r.append(daily.render().as_str());
            r.append("\n");
        } else if let DailyOrCm::Daily(daily) = &self.dailies[2] {
            r.append(daily.render().as_str());
            r.append("\n");
        }
        r
    }
}

} // verus!
