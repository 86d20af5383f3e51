use weather_change::{describe_weather_change, ChangeKind, DateParseError, WeatherInfo};

fn obs(high: i32, low: i32, feel: i32, date: &str) -> WeatherInfo {
    WeatherInfo { high, low, feel, date: date.to_owned() }
}

#[test]
fn rule_one_turning_hotter_beats_very_hot() {
    // Rule 1 (35 - 28 = 7 > 5) fires even though rule 2 (35 > 34) also holds.
    let today = obs(28, 20, 28, "2024-07-01");
    let tomorrow = obs(35, 22, 33, "2024-07-02");
    assert_eq!(describe_weather_change(&today, &tomorrow).unwrap(), "天氣變熱");
}

#[test]
fn rule_two_very_hot() {
    let today = obs(35, 25, 30, "2024-07-01");
    let tomorrow = obs(36, 26, 30, "2024-07-02");
    assert_eq!(describe_weather_change(&today, &tomorrow).unwrap(), "非常炎熱");
}

#[test]
fn rule_two_beats_rule_twelve() {
    // Rule 2 (36 > 34) fires even though rule 12 (feel 35 > 30) also holds.
    let today = obs(35, 30, 35, "2024-07-01");
    let tomorrow = obs(36, 30, 35, "2024-07-02");
    assert_eq!(describe_weather_change(&today, &tomorrow).unwrap(), "非常炎熱");
}

#[test]
fn rule_three_very_cold() {
    let today = obs(5, 0, 3, "2024-01-10");
    let tomorrow = obs(6, 1, 4, "2024-01-11");
    assert_eq!(describe_weather_change(&today, &tomorrow).unwrap(), "非常寒冷");
}

#[test]
fn rule_four_warmer_nights() {
    let today = obs(20, 5, 18, "2024-05-15");
    let tomorrow = obs(22, 12, 18, "2024-05-16");
    assert_eq!(describe_weather_change(&today, &tomorrow).unwrap(), "夜晚變暖");
}

#[test]
fn rule_five_feels_hotter() {
    let today = obs(20, 10, 10, "2024-05-15");
    let tomorrow = obs(22, 12, 17, "2024-05-16");
    assert_eq!(describe_weather_change(&today, &tomorrow).unwrap(), "體感變熱");
}

#[test]
fn rule_six_feels_colder() {
    let today = obs(20, 10, 20, "2024-05-15");
    let tomorrow = obs(22, 12, 13, "2024-05-16");
    assert_eq!(describe_weather_change(&today, &tomorrow).unwrap(), "體感變冷");
}

#[test]
fn rule_six_beats_rule_thirteen() {
    // Rule 6 (19 - 28 = -9 < -5) fires even though rule 13 (feel 19 < 20)
    // also holds.
    let today = obs(25, 20, 28, "2024-05-15");
    let tomorrow = obs(25, 20, 19, "2024-05-16");
    assert_eq!(describe_weather_change(&today, &tomorrow).unwrap(), "體感變冷");
}

#[test]
fn rule_eight_wider_swing() {
    let today = obs(20, 18, 20, "2024-05-15");
    let tomorrow = obs(20, 10, 20, "2024-05-16");
    assert_eq!(describe_weather_change(&today, &tomorrow).unwrap(), "溫差變大");
}

#[test]
fn rule_nine_narrower_swing() {
    let today = obs(30, 28, 20, "2024-05-15");
    let tomorrow = obs(20, 18, 20, "2024-05-16");
    assert_eq!(describe_weather_change(&today, &tomorrow).unwrap(), "溫差變小");
}

#[test]
fn rule_ten_feel_gap_widening() {
    let today = obs(20, 16, 15, "2024-05-15");
    let tomorrow = obs(20, 16, 13, "2024-05-16");
    assert_eq!(describe_weather_change(&today, &tomorrow).unwrap(), "體感溫度差變大");
}

#[test]
fn rule_twelve_feels_sweltering() {
    let today = obs(30, 26, 31, "2024-05-15");
    let tomorrow = obs(30, 26, 30, "2024-05-16");
    assert_eq!(describe_weather_change(&today, &tomorrow).unwrap(), "體感變炎熱");
}

#[test]
fn rule_thirteen_feels_cool() {
    let today = obs(25, 21, 19, "2024-05-15");
    let tomorrow = obs(25, 21, 21, "2024-05-16");
    assert_eq!(describe_weather_change(&today, &tomorrow).unwrap(), "體感變涼爽");
}

#[test]
fn rule_fourteen_feels_humid_hot() {
    let today = obs(22, 18, 28, "2024-05-15");
    let tomorrow = obs(22, 18, 25, "2024-05-16");
    assert_eq!(describe_weather_change(&today, &tomorrow).unwrap(), "體感變悶熱");
}

#[test]
fn rule_fifteen_feels_wind_chilled() {
    let today = obs(26, 18, 20, "2024-05-15");
    let tomorrow = obs(22, 18, 22, "2024-05-16");
    assert_eq!(describe_weather_change(&today, &tomorrow).unwrap(), "體感變風寒");
}

#[test]
fn rule_sixteen_stable_temperature() {
    // Tomorrow's spread abs(22 - 18) = 4 < 5 trips rule 16, so equal mild
    // days land on the stable label before the default is ever reached.
    let today = obs(22, 18, 20, "2024-05-15");
    let tomorrow = obs(22, 18, 20, "2024-05-15");
    assert_eq!(describe_weather_change(&today, &tomorrow).unwrap(), "溫度變化平穩");
}

#[test]
fn rule_seventeen_sharp_swing() {
    let today = obs(24, 17, 22, "2024-05-15");
    let tomorrow = obs(24, 17, 22, "2024-05-16");
    assert_eq!(describe_weather_change(&today, &tomorrow).unwrap(), "溫度變化劇烈");
}

#[test]
fn rule_eighteen_sudden_spike() {
    // Every earlier rule misses: deltas are small, highs are moderate,
    // feels stay in the comfortable band, tomorrow's spread is 10. Today's
    // high 23 sits below November's reference high 24, and tomorrow's high
    // 26 exceeds December's reference high 20 by more than 5.
    let today = obs(23, 12, 22, "2024-11-30");
    let tomorrow = obs(26, 16, 24, "2024-12-01");
    assert_eq!(describe_weather_change(&today, &tomorrow).unwrap(), "氣溫驟升");
}

#[test]
fn rule_nineteen_sudden_drop() {
    // Today's low 20 sits above November's reference low 18, and tomorrow's
    // low 15 falls below December's reference low 14 plus 5.
    let today = obs(24, 20, 22, "2024-11-30");
    let tomorrow = obs(25, 15, 22, "2024-12-01");
    assert_eq!(describe_weather_change(&today, &tomorrow).unwrap(), "氣溫驟降");
}

#[test]
fn default_little_change() {
    // No rule fires: all deltas are zero, highs and feels are moderate,
    // the spread is 10, and both highs and lows sit inside May's band.
    let today = obs(25, 15, 25, "2024-05-15");
    let tomorrow = obs(25, 15, 25, "2024-05-15");
    assert_eq!(describe_weather_change(&today, &tomorrow).unwrap(), "天氣變化不大");
}

#[test]
fn malformed_date_is_an_error_not_a_label() {
    let today = obs(22, 18, 20, "2024-13-40");
    let tomorrow = obs(22, 18, 20, "2024-05-15");
    assert_eq!(describe_weather_change(&today, &tomorrow), Err(DateParseError));
}

#[test]
fn non_numeric_date_is_an_error() {
    let today = obs(22, 18, 20, "2024-05-15");
    let tomorrow = obs(22, 18, 20, "not-a-date");
    assert_eq!(describe_weather_change(&today, &tomorrow), Err(DateParseError));
}

#[test]
fn bad_date_wins_over_matching_rules() {
    // Rule 1 would fire on the temperatures, but the broken date aborts the
    // whole call instead of producing any label.
    let today = obs(10, 5, 10, "2024-02-30");
    let tomorrow = obs(36, 22, 33, "2024-07-02");
    assert_eq!(describe_weather_change(&today, &tomorrow), Err(DateParseError));
}

#[test]
fn labels_cover_the_fixed_set() {
    let all = [
        (ChangeKind::TurningHotter, "天氣變熱"),
        (ChangeKind::VeryHot, "非常炎熱"),
        (ChangeKind::VeryCold, "非常寒冷"),
        (ChangeKind::WarmerNights, "夜晚變暖"),
        (ChangeKind::FeelsHotter, "體感變熱"),
        (ChangeKind::FeelsColder, "體感變冷"),
        (ChangeKind::TurningColder, "天氣變冷"),
        (ChangeKind::WiderSwing, "溫差變大"),
        (ChangeKind::NarrowerSwing, "溫差變小"),
        (ChangeKind::FeelGapWidening, "體感溫度差變大"),
        (ChangeKind::FeelGapNarrowing, "體感溫度差變小"),
        (ChangeKind::FeelsSweltering, "體感變炎熱"),
        (ChangeKind::FeelsCool, "體感變涼爽"),
        (ChangeKind::FeelsHumidHot, "體感變悶熱"),
        (ChangeKind::FeelsWindChilled, "體感變風寒"),
        (ChangeKind::StableTemperature, "溫度變化平穩"),
        (ChangeKind::SharpSwing, "溫度變化劇烈"),
        (ChangeKind::SuddenSpike, "氣溫驟升"),
        (ChangeKind::SuddenDrop, "氣溫驟降"),
        (ChangeKind::LittleChange, "天氣變化不大"),
    ];
    for (kind, phrase) in all {
        assert_eq!(kind.label(), *phrase);
        assert!(!kind.label().is_empty());
    }
}

#[test]
fn result_is_always_one_fixed_label() {
    // A spread of inputs: every successful call returns exactly one of the
    // twenty fixed phrases.
    let phrases = [
        "天氣變熱", "非常炎熱", "非常寒冷", "夜晚變暖", "體感變熱", "體感變冷",
        "天氣變冷", "溫差變大", "溫差變小", "體感溫度差變大", "體感溫度差變小",
        "體感變炎熱", "體感變涼爽", "體感變悶熱", "體感變風寒", "溫度變化平穩",
        "溫度變化劇烈", "氣溫驟升", "氣溫驟降", "天氣變化不大",
    ];
    let cases = [
        (obs(28, 20, 28, "2024-07-01"), obs(35, 22, 33, "2024-07-02")),
        (obs(-10, -20, -15, "2024-01-10"), obs(-8, -18, -14, "2024-01-11")),
        (obs(25, 15, 25, "2024-05-15"), obs(25, 15, 25, "2024-05-15")),
        (obs(0, 0, 0, "2000-02-29"), obs(0, 0, 0, "2000-03-01")),
        (obs(100, -100, 50, "2024-06-30"), obs(-100, 100, -50, "2024-07-01")),
    ];
    for (today, tomorrow) in &cases {
        let label = describe_weather_change(today, tomorrow).unwrap();
        assert!(phrases.contains(&label.as_str()));
    }
}
