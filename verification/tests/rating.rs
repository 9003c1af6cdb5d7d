use stab::rating::sum3;
use stab::set::{Daily, Instabs, Nightmare, ShatteredObservatory};
use stab::Boss::{Ai, Arkk, Artsariiv, Ensolyss, Mama, Siax, Skorvald};
use stab::Instability::{
    AdrenalineRush, Afflicted, BoonOverload, FluxBomb, FractalVindicators, Frailty, Hamstrung,
    LastLaugh, MistsConvergence, NoPainNoGain, Outflanked, SocialAwkwardness, StickTogether,
    SugarRush, ToxicSickness, ToxicTrail, Vengeance, WeBleedFire,
};
use stab::Rating::{Bad, Good, Perfect, Playable, Unplayable};
use stab::{Boss, Fractal, Instability, Rateable, Rater, Rating};

const RATINGS: [Rating; 5] =
    [Rating::Unplayable, Rating::Bad, Rating::Playable, Rating::Good, Rating::Perfect];

const INSTABILITIES: [Instability; 18] = [
    Instability::AdrenalineRush,
    Instability::Afflicted,
    Instability::BoonOverload,
    Instability::FluxBomb,
    Instability::FractalVindicators,
    Instability::Frailty,
    Instability::Hamstrung,
    Instability::LastLaugh,
    Instability::MistsConvergence,
    Instability::NoPainNoGain,
    Instability::Outflanked,
    Instability::SocialAwkwardness,
    Instability::StickTogether,
    Instability::SugarRush,
    Instability::ToxicTrail,
    Instability::Vengeance,
    Instability::WeBleedFire,
    Instability::ToxicSickness,
];

#[test]
fn rating_addition() {
    assert_eq!(Unplayable + Good, Unplayable);
    assert_eq!(Good + Good, Good);
    assert_eq!(Bad + Good, Bad);
    assert_eq!(Playable + Good, Playable);
}

#[test]
fn rating_summation() {

    let sets = [
        (Siax, Instabs::new(ToxicTrail, BoonOverload, SocialAwkwardness), Unplayable),
        (Arkk, Instabs::new(BoonOverload, Afflicted, Frailty), Perfect),
        (Arkk, Instabs::new(BoonOverload, Afflicted, Vengeance), Bad),
    ];

    for (boss, instabs, expected) in &sets {
        assert_eq!(instabs.rate(boss), *expected);
    }
}

#[test]
fn good_is_neutral_on_the_left() {
    for x in RATINGS {
        assert_eq!(Rating::Good.combine(x), x);
        assert_eq!(Rating::Good + x, x);
    }
}

#[test]
fn perfect_outweighs_good() {
    assert_eq!(Rating::Perfect.combine(Rating::Good), Rating::Perfect);
    assert_eq!(Rating::Good.combine(Rating::Perfect), Rating::Perfect);
}

#[test]
fn combine_is_the_worse_of_two_otherwise() {
    for a in RATINGS {
        for b in RATINGS {
            let got = a.combine(b);
            assert_eq!(got, b.combine(a));
            let perfect_good = (a == Rating::Perfect && b == Rating::Good)
                || (a == Rating::Good && b == Rating::Perfect);
            if perfect_good {
                assert_eq!(got, Rating::Perfect);
            } else {
                assert_eq!(got, std::cmp::min(a, b));
            }
        }
    }
    assert_eq!(Rating::Perfect.combine(Rating::Playable), Rating::Playable);
    assert_eq!(Rating::Perfect.combine(Rating::Perfect), Rating::Perfect);
}

#[test]
fn ratings_are_ordered() {
    assert!(Rating::Unplayable < Rating::Bad);
    assert!(Rating::Bad < Rating::Playable);
    assert!(Rating::Playable < Rating::Good);
    assert!(Rating::Good < Rating::Perfect);
    assert_eq!(Rating::Unplayable.level(), 0);
    assert_eq!(Rating::Perfect.level(), 4);
    assert!(Rating::Good.at_least(Rating::Good));
    assert!(Rating::Perfect.at_least(Rating::Unplayable));
    assert!(!Rating::Bad.at_least(Rating::Playable));
}

#[test]
fn sum3_starts_from_good() {
    assert_eq!(sum3(Rating::Good, Rating::Good, Rating::Good), Rating::Good);
    assert_eq!(sum3(Rating::Perfect, Rating::Good, Rating::Good), Rating::Perfect);
    assert_eq!(sum3(Rating::Good, Rating::Good, Rating::Perfect), Rating::Perfect);
    assert_eq!(sum3(Rating::Perfect, Rating::Bad, Rating::Perfect), Rating::Bad);
    assert_eq!(sum3(Rating::Bad, Rating::Unplayable, Rating::Perfect), Rating::Unplayable);
}

#[test]
fn baseline_ratings() {
    let expected = [
        Good, Good, Perfect, Unplayable, Good, Good, Playable, Bad, Playable, Unplayable, Good,
        Unplayable, Good, Good, Bad, Bad, Unplayable, Playable,
    ];
    for (i, e) in INSTABILITIES.iter().zip(expected.iter()) {
        assert_eq!(i.rate(), *e);
    }
}

#[test]
fn boss_overrides() {
    assert_eq!(Mama.rate_one(&LastLaugh), Rating::Unplayable);
    assert_eq!(Siax.rate_one(&LastLaugh), Rating::Bad);
    assert_eq!(Ensolyss.rate_one(&LastLaugh), Rating::Good);
    assert_eq!(Skorvald.rate_one(&LastLaugh), Rating::Good);
    assert_eq!(Artsariiv.rate_one(&LastLaugh), Rating::Good);
    assert_eq!(Arkk.rate_one(&LastLaugh), Rating::Bad);
    assert_eq!(Arkk.rate_one(&Hamstrung), Rating::Bad);
    assert_eq!(Ai.rate_one(&Hamstrung), Rating::Playable);
    assert_eq!(Ai.rate_one(&LastLaugh), Rating::Bad);
    for boss in [Mama, Siax, Ensolyss, Skorvald, Artsariiv, Arkk, Ai] {
        for i in INSTABILITIES {
            let overridden = matches!(
                (boss, i),
                (Mama, LastLaugh)
                    | (Ensolyss, LastLaugh)
                    | (Skorvald, LastLaugh)
                    | (Artsariiv, LastLaugh)
                    | (Arkk, Hamstrung)
            );
            if !overridden {
                assert_eq!(boss.rate_one(&i), i.rate());
            }
        }
    }
}

#[test]
fn fractals_rate_by_their_bosses() {
    // Mama: Unplayable, Siax: Bad, Ensolyss: Good
    assert_eq!(Fractal::Nightmare.rate_one(&LastLaugh), Rating::Unplayable);
    // Skorvald: Good, Artsariiv: Good, Arkk: Bad
    assert_eq!(Fractal::ShatteredObservatory.rate_one(&LastLaugh), Rating::Bad);
    assert_eq!(Fractal::ShatteredObservatory.rate_one(&Hamstrung), Rating::Bad);
    assert_eq!(Fractal::Nightmare.rate_one(&Hamstrung), Rating::Playable);
    assert_eq!(Fractal::Nightmare.rate_one(&BoonOverload), Rating::Perfect);
    assert_eq!(Fractal::SunquaPeak.rate_one(&LastLaugh), Rating::Bad);
    for i in INSTABILITIES {
        assert_eq!(Fractal::Swampland.rate_one(&i), i.rate());
        assert_eq!(Fractal::SunquaPeak.rate_one(&i), i.rate());
        let nm = Nightmare::new(i, i, i);
        let so = ShatteredObservatory::new(i, i, i);
        assert_eq!(nm.rate_one(&i), Fractal::Nightmare.rate_one(&i));
        assert_eq!(so.rate_one(&i), Fractal::ShatteredObservatory.rate_one(&i));
    }
}

#[test]
fn anything_with_instabilities_can_be_rated() {
    let daily = Daily::new(Fractal::Swampland, Instabs::new(BoonOverload, Afflicted, Hamstrung));
    assert_eq!(daily.rate(&Fractal::Swampland), Rating::Playable);
    assert_eq!(daily.rate(&Boss::Arkk), Rating::Bad);
    assert_eq!(daily.borrow().rate(&Boss::Arkk), Rating::Bad);
    let nm = Nightmare::new(LastLaugh, Afflicted, Frailty);
    assert_eq!(nm.rate(&Fractal::Nightmare), Rating::Unplayable);
    assert_eq!(nm.rate(&Boss::Ensolyss), Rating::Good);
    assert_eq!(nm.rate(&nm), Rating::Unplayable);
}

#[test]
fn the_order_of_the_three_does_not_change_the_rating() {
    let triple = [ToxicTrail, BoonOverload, Afflicted];
    let orders = [[0, 1, 2], [0, 2, 1], [1, 0, 2], [1, 2, 0], [2, 0, 1], [2, 1, 0]];
    for o in orders {
        let instabs = Instabs::new(triple[o[0]], triple[o[1]], triple[o[2]]);
        assert_eq!(instabs.rate(&Boss::Siax), Rating::Bad);
    }
}

#[test]
fn names_are_read_and_shown() {
    assert_eq!(Rating::from_str("perfect"), Some(Rating::Perfect));
    assert_eq!(Rating::from_str("good"), Some(Rating::Good));
    assert_eq!(Rating::from_str("playable"), Some(Rating::Playable));
    assert_eq!(Rating::from_str("bad"), Some(Rating::Bad));
    assert_eq!(Rating::from_str("unplayable"), Some(Rating::Unplayable));
    assert_eq!(Rating::from_str("Perfect"), None);
    assert_eq!(Rating::from_str(""), None);
    assert_eq!(Rating::Unplayable.name(), "Unplayable");
    assert_eq!(Rating::Perfect.name(), "Perfect");
    assert_eq!(Boss::from_str("mama"), Some(Boss::Mama));
    assert_eq!(Boss::from_str("siax"), Some(Boss::Siax));
    assert_eq!(Boss::from_str("enso"), Some(Boss::Ensolyss));
    assert_eq!(Boss::from_str("skorv"), Some(Boss::Skorvald));
    assert_eq!(Boss::from_str("arts"), Some(Boss::Artsariiv));
    assert_eq!(Boss::from_str("arkk"), Some(Boss::Arkk));
    assert_eq!(Boss::from_str("ai"), Some(Boss::Ai));
    assert_eq!(Boss::from_str("ensolyss"), None);
    assert_eq!(Boss::Mama.home(), Fractal::Nightmare);
    assert_eq!(Boss::Arkk.home(), Fractal::ShatteredObservatory);
    assert_eq!(Boss::Ai.home(), Fractal::SunquaPeak);
}
