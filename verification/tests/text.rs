use stab::set::{Daily, DailyOrCm, Instabs, Nightmare, ShatteredObservatory, SunquaPeak};
use stab::text::{decimal, pad2, parse_u16, Render};
use stab::Instability::{Afflicted, BoonOverload, FluxBomb, Frailty, NoPainNoGain};
use stab::{Date, Fractal, Instability, Rating, RotationSet};

#[test]
fn numbers_are_written_in_decimal() {
    assert_eq!(decimal(0), "0");
    assert_eq!(decimal(7), "7");
    assert_eq!(decimal(10), "10");
    assert_eq!(decimal(2021), "2021");
    assert_eq!(decimal(65535), "65535");
    assert_eq!(pad2(0), "00");
    assert_eq!(pad2(9), "09");
    assert_eq!(pad2(10), "10");
    assert_eq!(pad2(31), "31");
    assert_eq!(pad2(255), "255");
    for n in [0u16, 1, 9, 10, 99, 100, 999, 1000, 12345, 65535] {
        assert_eq!(decimal(n), n.to_string());
    }
}

#[test]
fn numbers_are_read_from_decimal() {
    assert_eq!(parse_u16("0"), Some(0));
    assert_eq!(parse_u16("7"), Some(7));
    assert_eq!(parse_u16("007"), Some(7));
    assert_eq!(parse_u16("+12"), Some(12));
    assert_eq!(parse_u16("65535"), Some(65535));
    assert_eq!(parse_u16("0000065535"), Some(65535));
    assert_eq!(parse_u16("65536"), None);
    assert_eq!(parse_u16("99999999999999999999"), None);
    assert_eq!(parse_u16(""), None);
    assert_eq!(parse_u16("+"), None);
    assert_eq!(parse_u16("-1"), None);
    assert_eq!(parse_u16("++1"), None);
    assert_eq!(parse_u16("1+"), None);
    assert_eq!(parse_u16(" 1"), None);
    assert_eq!(parse_u16("1 "), None);
    assert_eq!(parse_u16("12a"), None);
    assert_eq!(parse_u16("١٢"), None);
    for s in ["0", "+0", "42", "+65535", "65536", "", "+", "x", "00012", "1_0"] {
        assert_eq!(parse_u16(s), s.parse::<u16>().ok());
    }
}

#[test]
fn dates_are_written_with_two_digits_for_month_and_day() {
    assert_eq!(Date::from_ymd(2021, 3, 1).unwrap().render(), "2021-03-01");
    assert_eq!(Date::from_ymd(2020, 2, 29).unwrap().render(), "2020-02-29");
    assert_eq!(Date::from_ymd(2020, 12, 31).unwrap().render(), "2020-12-31");
    assert_eq!(Date::from_ymd(123, 10, 9).unwrap().render(), "123-10-09");
}

#[test]
fn names_are_the_text_of_the_enumerations() {
    assert_eq!(Instability::NoPainNoGain.render(), "No Pain, No Gain");
    assert_eq!(Fractal::ThaumanovaReactor.render(), "Thaumanova Reactor");
    assert_eq!(Rating::Playable.render(), "Playable");
}

#[test]
fn dailies_are_written_with_their_instabilities() {
    let instabs = Instabs::new(Afflicted, BoonOverload, FluxBomb);
    assert_eq!(instabs.render(), "Afflicted; Boon Overload; Flux Bomb");
    let daily = Daily::new(Fractal::Snowblind, instabs.clone());
    assert_eq!(daily.render(), "Snowblind: Afflicted; Boon Overload; Flux Bomb");
    assert_eq!(daily.borrow().render(), daily.render());
    let alt = Instabs::new(Frailty, NoPainNoGain, Frailty);
    let both = daily.with_alt(Some(alt));
    assert_eq!(
        both.render(),
        "Snowblind: Afflicted; Boon Overload; Flux Bomb | Frailty; No Pain, No Gain; Frailty"
    );
    assert_eq!(both.borrow().render(), both.render());
    assert_eq!(
        Nightmare::from_instabs(instabs.clone()).render(),
        "Nightmare: Afflicted; Boon Overload; Flux Bomb"
    );
    assert_eq!(
        ShatteredObservatory::from_instabs(instabs.clone()).render(),
        "Shattered Observatory: Afflicted; Boon Overload; Flux Bomb"
    );
    assert_eq!(
        SunquaPeak::from_instabs(instabs).render(),
        "Sunqua Peak: Afflicted; Boon Overload; Flux Bomb"
    );
}

#[test]
fn a_day_is_written_with_its_first_daily() {
    let a = Instabs::new(Afflicted, Afflicted, Afflicted);
    let set = RotationSet::new(
        DailyOrCm::SunquaPeak,
        DailyOrCm::Daily(Daily::new(Fractal::Volcanic, a.clone())),
        DailyOrCm::Daily(Daily::new(Fractal::Cliffside, a.clone())),
        a.clone(),
        a.clone(),
        a.clone(),
    );
    assert_eq!(
        set.render(),
        "Nightmare: Afflicted; Afflicted; Afflicted\n\
         Shattered Observatory: Afflicted; Afflicted; Afflicted\n\
         Sunqua Peak: Afflicted; Afflicted; Afflicted\n\
         Volcanic: Afflicted; Afflicted; Afflicted\n"
    );
    let bare = RotationSet::new(
        DailyOrCm::SunquaPeak,
        DailyOrCm::Nightmare,
        DailyOrCm::ShatteredObservatory,
        a.clone(),
        a.clone(),
        a,
    );
    assert_eq!(bare.render().lines().count(), 3);
}
