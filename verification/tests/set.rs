use stab::set::{
    Daily, DailyOrCm, Dailylike, Instabs, Nightmare, SearchResult, ShatteredObservatory,
    SunquaPeak,
};
use stab::Instability::{
    Afflicted, BoonOverload, FluxBomb, Frailty, Hamstrung, LastLaugh, Outflanked, SugarRush,
    ToxicTrail, Vengeance,
};
use stab::{Fractal, HasInstabs, RotationSet, Searchable};

fn triple_a() -> Instabs {
    Instabs::new(Afflicted, BoonOverload, FluxBomb)
}

fn triple_b() -> Instabs {
    Instabs::new(Frailty, Hamstrung, LastLaugh)
}

fn triple_c() -> Instabs {
    Instabs::new(Outflanked, SugarRush, ToxicTrail)
}

fn sample_set() -> RotationSet {
    RotationSet::new(
        DailyOrCm::Nightmare,
        DailyOrCm::Daily(Daily::new(Fractal::Swampland, triple_a())),
        DailyOrCm::Daily(Daily::new_with_alt(Fractal::Volcanic, triple_b(), Some(triple_c()))),
        triple_c(),
        triple_b(),
        triple_a(),
    )
}

#[test]
fn instabs_keep_their_order() {
    let t = triple_a();
    assert_eq!(t.as_slice(), &[Afflicted, BoonOverload, FluxBomb]);
    assert_eq!(t.raw(), &[Afflicted, BoonOverload, FluxBomb]);
    assert_eq!(t.get(0), Afflicted);
    assert_eq!(t.get(1), BoonOverload);
    assert_eq!(t.get(2), FluxBomb);
    let walked: Vec<_> = t.iter().copied().collect();
    assert_eq!(walked, vec![Afflicted, BoonOverload, FluxBomb]);
    assert_eq!(t.instabs(), &t);
    assert_eq!(t.clone(), t);
    assert_ne!(t, triple_b());
}

#[test]
fn dailies_are_built_and_borrowed() {
    let plain = Daily::new(Fractal::Cliffside, triple_a());
    assert_eq!(*plain.fractal(), Fractal::Cliffside);
    assert_eq!(plain.instabs(), &triple_a());
    assert_eq!(plain.alt(), None);
    assert_eq!(plain, Daily::new_with_alt(Fractal::Cliffside, triple_a(), None));

    let with_alt = plain.clone().with_alt(Some(triple_b()));
    assert_eq!(with_alt.alt(), Some(&triple_b()));
    assert_eq!(*with_alt.fractal(), Fractal::Cliffside);
    assert_eq!(with_alt.instabs(), &triple_a());
    assert_eq!(with_alt.clone().with_alt(None), plain);

    let borrowed = with_alt.borrow();
    assert_eq!(*borrowed.fractal(), Fractal::Cliffside);
    assert_eq!(borrowed.instabs(), &triple_a());
    assert_eq!(borrowed.alt(), Some(&triple_b()));
    assert_eq!(Dailylike::fractal(&borrowed), Fractal::Cliffside);
    assert_eq!(borrowed.into_owned(), with_alt);

    let other = triple_c();
    let changed = plain.borrow().with_alt(Some(&other));
    assert_eq!(changed.alt(), Some(&other));
    assert_eq!(changed.into_owned(), plain.clone().with_alt(Some(triple_c())));
    assert_eq!(with_alt.borrow().with_alt(None).into_owned(), plain);
}

#[test]
fn fixed_slots_turn_into_dailies_of_their_fractal() {
    let nm = Nightmare::new(Afflicted, BoonOverload, FluxBomb);
    assert_eq!(nm, Nightmare::from_instabs(triple_a()));
    assert_eq!(nm.instabs(), &triple_a());
    assert_eq!(Dailylike::fractal(&nm), Fractal::Nightmare);
    assert_eq!(nm.to_daily(), Daily::new(Fractal::Nightmare, triple_a()));
    assert_eq!(nm.as_daily().into_owned(), Daily::new(Fractal::Nightmare, triple_a()));
    assert_eq!(nm.clone().into_daily(), Daily::new(Fractal::Nightmare, triple_a()));

    let so = ShatteredObservatory::new(Frailty, Hamstrung, LastLaugh);
    assert_eq!(so, ShatteredObservatory::from_instabs(triple_b()));
    assert_eq!(Dailylike::fractal(&so), Fractal::ShatteredObservatory);
    assert_eq!(so.to_daily(), Daily::new(Fractal::ShatteredObservatory, triple_b()));
    assert_eq!(so.as_daily().into_owned(), so.to_daily());
    assert_eq!(so.clone().into_daily(), so.to_daily());

    let sp = SunquaPeak::new(Outflanked, SugarRush, ToxicTrail);
    assert_eq!(sp, SunquaPeak::from_instabs(triple_c()));
    assert_eq!(Dailylike::fractal(&sp), Fractal::SunquaPeak);
    assert_eq!(sp.to_daily(), Daily::new(Fractal::SunquaPeak, triple_c()));
    assert_eq!(sp.as_daily().into_owned(), sp.to_daily());
    assert_eq!(sp.clone().into_daily(), sp.to_daily());
}

#[test]
fn a_set_holds_what_it_was_built_from() {
    let set = sample_set();
    assert_eq!(set.nightmare(), &Nightmare::from_instabs(triple_c()));
    assert_eq!(set.shattered_observatory(), &ShatteredObservatory::from_instabs(triple_b()));
    assert_eq!(set.sunqua_peak(), &SunquaPeak::from_instabs(triple_a()));
    assert!(matches!(set.daily_slot(0), DailyOrCm::Nightmare));
    assert!(matches!(set.daily_slot(1), DailyOrCm::Daily(d) if *d.fractal() == Fractal::Swampland));
    let copy = set.clone();
    assert_eq!(copy.nightmare(), set.nightmare());
    assert_eq!(copy.dailies_iter(), set.dailies_iter());
}

#[test]
fn active_dailies_leave_out_the_markers() {
    let set = sample_set();
    let active = set.dailies_iter();
    assert_eq!(active.len(), 2);
    assert_eq!(*active[0], Daily::new(Fractal::Swampland, triple_a()));
    assert_eq!(
        *active[1],
        Daily::new_with_alt(Fractal::Volcanic, triple_b(), Some(triple_c()))
    );

    let none = RotationSet::new(
        DailyOrCm::Nightmare,
        DailyOrCm::ShatteredObservatory,
        DailyOrCm::SunquaPeak,
        triple_a(),
        triple_b(),
        triple_c(),
    );
    assert!(none.dailies_iter().is_empty());
}

#[test]
fn get_resolves_the_six_references() {
    let set = sample_set();
    let nm = set.get(&SearchResult::Nightmare).unwrap();
    assert_eq!(*nm.fractal(), Fractal::Nightmare);
    assert_eq!(nm.instabs(), &triple_c());
    assert_eq!(nm.alt(), None);
    let so = set.get(&SearchResult::ShatteredObservatory).unwrap();
    assert_eq!(*so.fractal(), Fractal::ShatteredObservatory);
    assert_eq!(so.instabs(), &triple_b());
    let sp = set.get(&SearchResult::SunquaPeak).unwrap();
    assert_eq!(*sp.fractal(), Fractal::SunquaPeak);
    assert_eq!(sp.instabs(), &triple_a());

    assert!(set.get(&SearchResult::Daily(0)).is_none());
    let one = set.get(&SearchResult::Daily(1)).unwrap();
    assert_eq!(*one.fractal(), Fractal::Swampland);
    assert_eq!(one.instabs(), &triple_a());
    assert_eq!(one.alt(), None);
    let two = set.get(&SearchResult::Daily(2)).unwrap();
    assert_eq!(*two.fractal(), Fractal::Volcanic);
    assert_eq!(two.instabs(), &triple_b());
    assert_eq!(two.alt(), Some(&triple_c()));
    assert!(set.get(&SearchResult::Daily(3)).is_none());
    assert!(set.get(&SearchResult::Daily(usize::MAX)).is_none());
}

#[test]
fn find_fractal_gives_the_position_of_the_first_match() {
    let set = sample_set();
    assert_eq!(set.find_fractal(&Fractal::Swampland), Some(SearchResult::Daily(1)));
    assert_eq!(set.find_fractal(&Fractal::Volcanic), Some(SearchResult::Daily(2)));
    assert_eq!(set.find_fractal(&Fractal::Cliffside), None);
    assert_eq!(set.find_fractal(&Fractal::SunquaPeak), None);

    let twice = RotationSet::new(
        DailyOrCm::Daily(Daily::new(Fractal::Deepstone, triple_a())),
        DailyOrCm::Daily(Daily::new(Fractal::Deepstone, triple_b())),
        DailyOrCm::Daily(Daily::new(Fractal::SunquaPeak, triple_c())),
        triple_a(),
        triple_b(),
        triple_c(),
    );
    assert_eq!(twice.find_fractal(&Fractal::Deepstone), Some(SearchResult::Daily(0)));
    assert_eq!(twice.find_fractal(&Fractal::SunquaPeak), Some(SearchResult::Daily(2)));
    let found = twice.find_fractal(&Fractal::Deepstone).unwrap();
    assert_eq!(twice.get(&found).unwrap().instabs(), &triple_a());
}

#[test]
fn the_two_groups_are_found_on_every_day() {
    let sets = [
        sample_set(),
        RotationSet::new(
            DailyOrCm::Nightmare,
            DailyOrCm::ShatteredObservatory,
            DailyOrCm::SunquaPeak,
            triple_a(),
            triple_b(),
            triple_c(),
        ),
        RotationSet::new(
            DailyOrCm::Daily(Daily::new(Fractal::Nightmare, triple_a())),
            DailyOrCm::Daily(Daily::new(Fractal::ShatteredObservatory, triple_b())),
            DailyOrCm::Daily(Daily::new(Fractal::Aetherblade, triple_c())),
            Instabs::new(Vengeance, Vengeance, Vengeance),
            triple_b(),
            triple_c(),
        ),
    ];
    for set in &sets {
        assert_eq!(set.find_fractal(&Fractal::Nightmare), Some(SearchResult::Nightmare));
        assert_eq!(
            set.find_fractal(&Fractal::ShatteredObservatory),
            Some(SearchResult::ShatteredObservatory)
        );
        let nm = set.find_fractal(&Fractal::Nightmare).unwrap();
        assert_eq!(set.get(&nm).unwrap().instabs(), set.nightmare().instabs());
        let so = set.find_fractal(&Fractal::ShatteredObservatory).unwrap();
        assert_eq!(set.get(&so).unwrap().instabs(), set.shattered_observatory().instabs());
    }
}

#[test]
fn a_found_slot_holds_the_fractal_that_was_looked_for() {
    let set = sample_set();
    let all = [
        Fractal::Aetherblade,
        Fractal::Nightmare,
        Fractal::ShatteredObservatory,
        Fractal::SunquaPeak,
        Fractal::Swampland,
        Fractal::Volcanic,
    ];
    for f in all {
        if let Some(slot) = set.find_fractal(&f) {
            assert_eq!(*set.get(&slot).unwrap().fractal(), f);
        }
    }
}
