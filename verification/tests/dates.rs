use weather_change::date::parse_date;
use weather_change::seasons::TempRanges;

#[test]
fn plain_date_parses() {
    let d = parse_date("2024-05-15").unwrap();
    assert_eq!((d.year, d.month, d.day), (2024, 5, 15));
}

#[test]
fn leap_day_parses_in_a_leap_year() {
    let d = parse_date("2024-02-29").unwrap();
    assert_eq!((d.year, d.month, d.day), (2024, 2, 29));
}

#[test]
fn leap_day_rejected_in_a_common_year() {
    assert!(parse_date("2023-02-29").is_none());
}

#[test]
fn century_leap_rule() {
    assert!(parse_date("2000-02-29").is_some());
    assert!(parse_date("1900-02-29").is_none());
}

#[test]
fn month_lengths() {
    assert!(parse_date("2024-04-30").is_some());
    assert!(parse_date("2024-04-31").is_none());
    assert!(parse_date("2024-01-31").is_some());
    assert!(parse_date("2024-12-31").is_some());
    assert!(parse_date("2023-02-28").is_some());
}

#[test]
fn month_and_day_bounds() {
    assert!(parse_date("2024-00-15").is_none());
    assert!(parse_date("2024-13-01").is_none());
    assert!(parse_date("2024-13-40").is_none());
    assert!(parse_date("2024-12-00").is_none());
}

#[test]
fn shape_must_be_exact() {
    assert!(parse_date("").is_none());
    assert!(parse_date("2024-1-01").is_none());
    assert!(parse_date("2024/01/01").is_none());
    assert!(parse_date("not-a-date").is_none());
    assert!(parse_date("2024-05-15 ").is_none());
    assert!(parse_date("24-05-15").is_none());
}

#[test]
fn extreme_years_parse() {
    assert!(parse_date("0000-01-01").is_some());
    assert!(parse_date("9999-12-31").is_some());
}

#[test]
fn seasonal_table_matches_reference_values() {
    let expected = [
        (1, 19, 12),
        (2, 20, 13),
        (3, 23, 16),
        (4, 26, 19),
        (5, 29, 22),
        (6, 31, 24),
        (7, 33, 26),
        (8, 32, 26),
        (9, 31, 24),
        (10, 28, 22),
        (11, 24, 18),
        (12, 20, 14),
    ];
    for (month, high, low) in expected {
        let r = TempRanges::from_month(month);
        assert_eq!((r.high, r.low), (high, low));
    }
}
