use catalog_export::run_date::RunDate;

fn date(year: i32, month: u32, day: u32) -> RunDate {
    RunDate { year, month, day }
}

#[test]
fn file_name_of_an_ordinary_date() {
    assert_eq!(date(2025, 3, 9).file_name(), "products_2025-03-09.csv");
    assert_eq!(date(2024, 12, 31).file_name(), "products_2024-12-31.csv");
}

#[test]
fn date_text_pads_with_zeros() {
    assert_eq!(date(2025, 1, 2).text(), "2025-01-02");
    assert_eq!(date(987, 10, 20).text(), "0987-10-20");
    assert_eq!(date(0, 1, 1).text(), "0000-01-01");
    assert_eq!(date(9999, 12, 31).text(), "9999-12-31");
}

#[test]
fn years_outside_four_digits_carry_a_sign() {
    assert_eq!(date(-1, 1, 1).text(), "-0001-01-01");
    assert_eq!(date(-12345, 6, 7).text(), "-12345-06-07");
    assert_eq!(date(10000, 12, 31).text(), "+10000-12-31");
    assert_eq!(date(i32::MIN, 1, 1).text(), "-2147483648-01-01");
    assert_eq!(date(i32::MAX, 1, 1).text(), "+2147483647-01-01");
}

#[test]
fn date_text_agrees_with_chrono() {
    let cases = [
        (2025, 3, 9),
        (1970, 1, 1),
        (2000, 2, 29),
        (1, 1, 1),
        (0, 12, 31),
        (-1, 1, 1),
        (-9999, 11, 30),
        (9999, 12, 31),
        (10000, 1, 1),
        (262142, 12, 31),
        (-262143, 1, 1),
    ];
    for (y, m, d) in cases {
        let theirs = chrono::NaiveDate::from_ymd_opt(y, m, d).unwrap().to_string();
        assert_eq!(date(y, m, d).text(), theirs);
        assert_eq!(date(y, m, d).file_name(), format!("products_{}.csv", theirs));
    }
}

#[test]
fn dates_of_known_moments() {
    assert_eq!(RunDate::from_unix_seconds(0), Some(date(1970, 1, 1)));
    assert_eq!(RunDate::from_unix_seconds(86_399), Some(date(1970, 1, 1)));
    assert_eq!(RunDate::from_unix_seconds(86_400), Some(date(1970, 1, 2)));
    assert_eq!(RunDate::from_unix_seconds(-1), Some(date(1969, 12, 31)));
    assert_eq!(RunDate::from_unix_seconds(951_782_400), Some(date(2000, 2, 29)));
    assert_eq!(RunDate::from_unix_seconds(1_700_000_000), Some(date(2023, 11, 14)));
}

#[test]
fn moments_beyond_the_calendar_have_no_date() {
    assert_eq!(RunDate::from_unix_seconds(i64::MAX), None);
    assert_eq!(RunDate::from_unix_seconds(i64::MIN), None);
}

#[test]
fn today_is_the_date_of_the_clock() {
    let before = chrono::Utc::now().date_naive().to_string();
    let today = RunDate::today().unwrap();
    let after = chrono::Utc::now().date_naive().to_string();
    let text = today.text();
    assert!(text == before || text == after);
    assert_eq!(today.file_name(), format!("products_{}.csv", text));
}

#[test]
fn clock_readings_become_dates() {
    assert_eq!(RunDate::from_clock_seconds(Some(0)), Some(date(1970, 1, 1)));
    assert_eq!(RunDate::from_clock_seconds(Some(1_700_000_000)), Some(date(2023, 11, 14)));
    assert_eq!(RunDate::from_clock_seconds(Some(86_400 * 366)), Some(date(1971, 1, 2)));
}

#[test]
fn missing_or_absurd_clock_readings_have_no_date() {
    assert_eq!(RunDate::from_clock_seconds(None), None);
    assert_eq!(RunDate::from_clock_seconds(Some(u64::MAX)), None);
    assert_eq!(RunDate::from_clock_seconds(Some(i64::MAX as u64 + 1)), None);
    assert_eq!(RunDate::from_clock_seconds(Some(i64::MAX as u64)), None);
}
