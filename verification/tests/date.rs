use stab::date::{
    days_per_month, future_days, is_leap_year, normalize_leap_year, year_length, Date, DateError,
};

fn ymd(year: u16, month: u8, day: u8) -> Date {
    Date::from_ymd(year, month, day).unwrap()
}

#[test]
fn successor_is_successor() {
    let date = ymd(2021, 2, 28);
    let succ = date.successor();
    assert_eq!(succ.day(), 60);

    let date = ymd(2020, 2, 28);
    let succ = date.successor();
    assert_eq!(succ.day(), 59);

    let succ = succ.successor();
    assert_eq!(succ.day(), 60);

    let date = ymd(2020, 12, 31);
    let succ = date.successor();
    assert_eq!(succ.day(), 0);

    let date = ymd(2021, 12, 31);
    let succ = date.successor();
    assert_eq!(succ.day(), 0);
}

#[test]
fn months_and_days_match() {
    let date = ymd(2020, 2, 28);
    let (month, day) = date.month_day();
    assert_eq!(month, 2);
    assert_eq!(day, 28);

    let (month, day) = date.successor().month_day();
    assert_eq!(month, 2);
    assert_eq!(day, 29);

    let date = ymd(2021, 2, 28);
    let (month, day) = date.month_day();
    assert_eq!(month, 2);
    assert_eq!(day, 28);

    let (month, day) = date.successor().month_day();
    assert_eq!(month, 3);
    assert_eq!(day, 1);
}

#[test]
fn leap_years_follow_the_gregorian_rule() {
    assert!(is_leap_year(2020));
    assert!(is_leap_year(2000));
    assert!(!is_leap_year(1900));
    assert!(!is_leap_year(2021));
    assert!(is_leap_year(0));
    assert_eq!(year_length(2021), 31_536_000);
    assert_eq!(year_length(2020), 31_622_400);
}

#[test]
fn month_lengths() {
    let common = [31u8, 28, 31, 30, 31, 30, 31, 31, 30, 31, 30, 31];
    for (m, len) in common.iter().enumerate() {
        assert_eq!(days_per_month(2021, m as u8), *len);
    }
    assert_eq!(days_per_month(2020, 1), 29);
    assert_eq!(days_per_month(2020, 12), 0);
    assert_eq!(days_per_month(2020, 255), 0);
}

#[test]
fn normalising_skips_slot_59_in_common_years() {
    assert_eq!(normalize_leap_year(2021, 58), 58);
    assert_eq!(normalize_leap_year(2021, 59), 60);
    assert_eq!(normalize_leap_year(2021, 364), 365);
    assert_eq!(normalize_leap_year(2020, 59), 59);
    assert_eq!(normalize_leap_year(2020, 365), 365);
}

#[test]
fn from_ymd_gives_the_slot() {
    assert_eq!(ymd(2021, 1, 1).day(), 0);
    assert_eq!(ymd(2021, 1, 1).year(), 2021);
    assert_eq!(ymd(2021, 2, 28).day(), 58);
    assert_eq!(ymd(2021, 3, 1).day(), 60);
    assert_eq!(ymd(2020, 2, 29).day(), 59);
    assert_eq!(ymd(2020, 3, 1).day(), 60);
    assert_eq!(ymd(2021, 12, 31).day(), 365);
    assert_eq!(ymd(2020, 12, 31).day(), 365);
    assert_eq!(ymd(2021, 7, 4).day(), 185);
    assert_eq!(ymd(2021, 7, 4).ymd(), (2021, 7, 4));
}

#[test]
fn from_ymd_refuses_what_is_no_day() {
    assert_eq!(Date::from_ymd(2021, 0, 1), Err(DateError::InvalidMonth));
    assert_eq!(Date::from_ymd(2021, 13, 1), Err(DateError::InvalidMonth));
    assert_eq!(Date::from_ymd(2021, 13, 0), Err(DateError::InvalidMonth));
    assert_eq!(Date::from_ymd(2021, 1, 0), Err(DateError::InvalidDay));
    assert_eq!(Date::from_ymd(2021, 1, 32), Err(DateError::InvalidDay));
    assert_eq!(Date::from_ymd(2021, 2, 29), Err(DateError::InvalidDay));
    assert_eq!(Date::from_ymd(2020, 2, 30), Err(DateError::InvalidDay));
    assert_eq!(Date::from_ymd(2021, 4, 31), Err(DateError::InvalidDay));
    assert!(Date::from_ymd(2020, 2, 29).is_ok());
}

#[test]
fn month_day_inverts_from_ymd() {
    for year in [1900u16, 1970, 2000, 2020, 2021, 2100, 65535] {
        for month in 1..=12u8 {
            for day in 1..=days_per_month(year, month - 1) {
                let date = ymd(year, month, day);
                assert_eq!(date.month_day(), (month, day));
                assert_eq!(date.ymd(), (year, month, day));
                assert!(date.day() <= 365);
                assert_eq!(date.day() == 59, is_leap_year(year) && month == 2 && day == 29);
            }
        }
    }
}

#[test]
fn a_year_of_successors_returns_to_the_same_day() {
    // before 29 February the year between is the date's own year
    let mut date = ymd(2020, 1, 15);
    for _ in 0..366 {
        date = date.successor();
    }
    assert_eq!(date.ymd(), (2021, 1, 15));
    let mut date = ymd(2021, 1, 15);
    for _ in 0..365 {
        date = date.successor();
    }
    assert_eq!(date.ymd(), (2022, 1, 15));
    // after it, the next year
    let mut date = ymd(2019, 6, 1);
    for _ in 0..366 {
        date = date.successor();
    }
    assert_eq!(date.ymd(), (2020, 6, 1));
    let mut date = ymd(2020, 6, 1);
    for _ in 0..365 {
        date = date.successor();
    }
    assert_eq!(date.ymd(), (2021, 6, 1));
}

#[test]
fn successor_walks_every_real_day_once() {
    let mut date = ymd(2019, 12, 31);
    let mut seen_59 = 0;
    for _ in 0..366 {
        date = date.successor();
        assert_eq!(date.year(), 2020);
        if date.day() == 59 {
            seen_59 += 1;
        }
    }
    assert_eq!(date.ymd(), (2020, 12, 31));
    assert_eq!(seen_59, 1);
    for _ in 0..365 {
        date = date.successor();
        assert_eq!(date.year(), 2021);
        assert_ne!(date.day(), 59);
    }
    assert_eq!(date.ymd(), (2021, 12, 31));
}

#[test]
fn the_last_date_has_no_successor() {
    assert!(!ymd(65535, 12, 31).has_successor());
    assert!(ymd(65535, 12, 30).has_successor());
    assert!(ymd(65534, 12, 31).has_successor());
    assert_eq!(ymd(65534, 12, 31).successor().ymd(), (65535, 1, 1));
}

#[test]
fn timestamps_count_from_1970() {
    assert_eq!(Date::from_unix_timestamp(0).unwrap().ymd(), (1970, 1, 1));
    assert_eq!(Date::from_unix_timestamp(86_399).unwrap().ymd(), (1970, 1, 1));
    assert_eq!(Date::from_unix_timestamp(86_400).unwrap().ymd(), (1970, 1, 2));
    // 2021-03-01 00:00:00 UTC
    let date = Date::from_unix_timestamp(1_614_556_800).unwrap();
    assert_eq!(date.ymd(), (2021, 3, 1));
    assert_eq!(date.day(), 60);
    // 2020-02-29 12:00:00 UTC
    let date = Date::from_unix_timestamp(1_582_977_600).unwrap();
    assert_eq!(date.ymd(), (2020, 2, 29));
    assert_eq!(date.day(), 59);
    // 2020-12-31 23:59:59 UTC
    let date = Date::from_unix_timestamp(1_609_459_199).unwrap();
    assert_eq!(date.ymd(), (2020, 12, 31));
    assert_eq!(date.day(), 365);
    // 2000-01-01 00:00:00 UTC
    assert_eq!(Date::from_unix_timestamp(946_684_800).unwrap().ymd(), (2000, 1, 1));
}

#[test]
fn timestamps_end_with_year_65535() {
    // days from 1970 to 65536: 63566 years, 15414 of them leap years
    let days: u64 = 63_566 * 365 + 15_414;
    let end = days * 86_400;
    assert_eq!(Date::from_unix_timestamp(end - 1).unwrap().ymd(), (65535, 12, 31));
    assert!(Date::from_unix_timestamp(end).is_none());
    assert!(Date::from_unix_timestamp(u64::MAX).is_none());
}

#[test]
fn future_days_follow_each_other() {
    let start = ymd(2021, 2, 27);
    let days = future_days(start, 4);
    let shown: Vec<(u16, u8, u8)> = days.iter().map(|d| d.ymd()).collect();
    assert_eq!(shown, vec![(2021, 2, 27), (2021, 2, 28), (2021, 3, 1), (2021, 3, 2)]);
    assert!(future_days(start, 0).is_empty());
    assert_eq!(future_days(start, 1), vec![start]);
    let last = future_days(ymd(65535, 12, 30), 5);
    assert_eq!(last.len(), 2);
    assert_eq!(last[1].ymd(), (65535, 12, 31));
}
