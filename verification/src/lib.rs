//! Classifies the change between two consecutive days' weather readings
//! (high, low and feels-like temperature plus date) into one phrase, chosen
//! from a fixed ordered list of rules with first-match-wins semantics.
//! Seasonal reference bands, looked up by the month of each reading's date,
//! feed the two last rules.

use vstd::prelude::*;

pub mod date;
pub mod seasons;

use crate::date::{month_of, parse_date, valid_date};
use crate::seasons::{range_of_month, TempRanges};

verus! {

pub const HOT_TEMPERATURE: i32 = 34;

pub const COLD_TEMPERATURE: i32 = 10;

pub const TEMPERATURE_RISE_THRESHOLD: i32 = 5;

pub const TEMPERATURE_DROP_THRESHOLD: i32 = -5;

pub const FEEL_TEMPERATURE_RISE_THRESHOLD: i32 = 5;

pub const FEEL_TEMPERATURE_DROP_THRESHOLD: i32 = -5;

pub const TEMPERATURE_STABLE_RANGE: i32 = 5;

pub const EXTREME_TEMPERATURE_CHANGE: i32 = 10;

pub const COMFORTABLE_HIGH_TEMP: i32 = 30;

pub const COMFORTABLE_LOW_TEMP: i32 = 20;

pub const WIND_CHILL_DIFFERENCE: i32 = -5;

pub const HEAT_INDEX_DIFFERENCE: i32 = 5;

/// One day's readings: actual high and low, perceived temperature, and the
/// calendar date (as `YYYY-MM-DD`) whose month selects the seasonal band.
pub struct WeatherInfo {
    pub high: i32,
    pub low: i32,
    pub feel: i32,
    pub date: String,
}

/// The outcome of the cascade: one variant per rule, plus the default.
/// `TurningColder` and `FeelGapNarrowing` belong to rules whose condition
/// repeats an earlier rule's condition verbatim, so they can never be the
/// outcome; they stay here because their rules stay in the cascade.
#[derive(Clone, Copy, PartialEq, Eq, Structural, Debug)]
pub enum ChangeKind {
    TurningHotter,
    VeryHot,
    VeryCold,
    WarmerNights,
    FeelsHotter,
    FeelsColder,
    TurningColder,
    WiderSwing,
    NarrowerSwing,
    FeelGapWidening,
    FeelGapNarrowing,
    FeelsSweltering,
    FeelsCool,
    FeelsHumidHot,
    FeelsWindChilled,
    StableTemperature,
    SharpSwing,
    SuddenSpike,
    SuddenDrop,
    LittleChange,
}

/// The date string is invalid: it is not a well-shaped `YYYY-MM-DD` naming a
/// real calendar day.
#[derive(Clone, Copy, PartialEq, Eq, Structural, Debug)]
pub struct DateParseError;

pub open spec fn spec_abs(x: int) -> int {
    if x < 0 {
        -x
    } else {
        x
    }
}

/// The condition of rule `i` of the cascade, for `i` in `1..=19`; `false`
/// outside that range. Rule 7 repeats rule 6's condition and rule 11 repeats
/// rule 10's: the repetitions are part of the rule table.
pub open spec fn rule_holds(
    i: int,
    today: WeatherInfo,
    tomorrow: WeatherInfo,
    today_range: TempRanges,
    tomorrow_range: TempRanges,
) -> bool {
    if i == 1 {
        tomorrow.high - today.high > TEMPERATURE_RISE_THRESHOLD
    } else if i == 2 {
        tomorrow.high > HOT_TEMPERATURE || today.high > HOT_TEMPERATURE
    } else if i == 3 {
        tomorrow.high < COLD_TEMPERATURE || today.high < COLD_TEMPERATURE
    } else if i == 4 {
        tomorrow.low - today.low > TEMPERATURE_RISE_THRESHOLD
    } else if i == 5 {
        tomorrow.feel - today.feel > FEEL_TEMPERATURE_RISE_THRESHOLD
    } else if i == 6 {
        tomorrow.feel - today.feel < FEEL_TEMPERATURE_DROP_THRESHOLD
    } else if i == 7 {
        tomorrow.feel - today.feel < TEMPERATURE_DROP_THRESHOLD
    } else if i == 8 {
        spec_abs(tomorrow.high - tomorrow.low) - spec_abs(tomorrow.high - today.low)
            > TEMPERATURE_STABLE_RANGE
    } else if i == 9 {
        spec_abs(tomorrow.high - tomorrow.low) - spec_abs(tomorrow.high - today.low)
            < -TEMPERATURE_STABLE_RANGE
    } else if i == 10 {
        spec_abs(tomorrow.feel - tomorrow.high) > HEAT_INDEX_DIFFERENCE
    } else if i == 11 {
        spec_abs(tomorrow.feel - tomorrow.high) > HEAT_INDEX_DIFFERENCE
    } else if i == 12 {
        today.feel > COMFORTABLE_HIGH_TEMP || tomorrow.feel > COMFORTABLE_HIGH_TEMP
    } else if i == 13 {
        today.feel < COMFORTABLE_LOW_TEMP || tomorrow.feel < COMFORTABLE_LOW_TEMP
    } else if i == 14 {
        today.feel - today.high > HEAT_INDEX_DIFFERENCE || tomorrow.feel - tomorrow.high
            > HEAT_INDEX_DIFFERENCE
    } else if i == 15 {
        today.feel - today.high < WIND_CHILL_DIFFERENCE || tomorrow.feel - tomorrow.high
            < WIND_CHILL_DIFFERENCE
    } else if i == 16 {
        spec_abs(tomorrow.high - tomorrow.low) < TEMPERATURE_STABLE_RANGE
    } else if i == 17 {
        spec_abs(tomorrow.high - tomorrow.low) < EXTREME_TEMPERATURE_CHANGE
    } else if i == 18 {
        today.high < today_range.high && tomorrow.high > tomorrow_range.high
            + TEMPERATURE_RISE_THRESHOLD
    } else if i == 19 {
        today.low > today_range.low && tomorrow.low < tomorrow_range.low
            - TEMPERATURE_DROP_THRESHOLD
    } else {
        false
    }
}

/// The label of rule `i`, for `i` in `1..=19`; the default label otherwise.
pub open spec fn rule_label(i: int) -> ChangeKind {
    if i == 1 {
        ChangeKind::TurningHotter
    } else if i == 2 {
        ChangeKind::VeryHot
    } else if i == 3 {
        ChangeKind::VeryCold
    } else if i == 4 {
        ChangeKind::WarmerNights
    } else if i == 5 {
        ChangeKind::FeelsHotter
    } else if i == 6 {
        ChangeKind::FeelsColder
    } else if i == 7 {
        ChangeKind::TurningColder
    } else if i == 8 {
        ChangeKind::WiderSwing
    } else if i == 9 {
        ChangeKind::NarrowerSwing
    } else if i == 10 {
        ChangeKind::FeelGapWidening
    } else if i == 11 {
        ChangeKind::FeelGapNarrowing
    } else if i == 12 {
        ChangeKind::FeelsSweltering
    } else if i == 13 {
        ChangeKind::FeelsCool
    } else if i == 14 {
        ChangeKind::FeelsHumidHot
    } else if i == 15 {
        ChangeKind::FeelsWindChilled
    } else if i == 16 {
        ChangeKind::StableTemperature
    } else if i == 17 {
        ChangeKind::SharpSwing
    } else if i == 18 {
        ChangeKind::SuddenSpike
    } else if i == 19 {
        ChangeKind::SuddenDrop
    } else {
        ChangeKind::LittleChange
    }
}

/// The whole cascade: the label of the first rule whose condition holds, or
/// the default label when none does.
pub open spec fn classify_spec(
    today: WeatherInfo,
    tomorrow: WeatherInfo,
    today_range: TempRanges,
    tomorrow_range: TempRanges,
) -> ChangeKind {
    if rule_holds(1, today, tomorrow, today_range, tomorrow_range) {
        rule_label(1)
    } else if rule_holds(2, today, tomorrow, today_range, tomorrow_range) {
        rule_label(2)
    } else if rule_holds(3, today, tomorrow, today_range, tomorrow_range) {
        rule_label(3)
    } else if rule_holds(4, today, tomorrow, today_range, tomorrow_range) {
        rule_label(4)
    } else if rule_holds(5, today, tomorrow, today_range, tomorrow_range) {
        rule_label(5)
    } else if rule_holds(6, today, tomorrow, today_range, tomorrow_range) {
        rule_label(6)
    } else if rule_holds(7, today, tomorrow, today_range, tomorrow_range) {
        rule_label(7)
    } else if rule_holds(8, today, tomorrow, today_range, tomorrow_range) {
        rule_label(8)
    } else if rule_holds(9, today, tomorrow, today_range, tomorrow_range) {
        rule_label(9)
    } else if rule_holds(10, today, tomorrow, today_range, tomorrow_range) {
        rule_label(10)
    } else if rule_holds(11, today, tomorrow, today_range, tomorrow_range) {
        rule_label(11)
    } else if rule_holds(12, today, tomorrow, today_range, tomorrow_range) {
        rule_label(12)
    } else if rule_holds(13, today, tomorrow, today_range, tomorrow_range) {
        rule_label(13)
    } else if rule_holds(14, today, tomorrow, today_range, tomorrow_range) {
        rule_label(14)
    } else if rule_holds(15, today, tomorrow, today_range, tomorrow_range) {
        rule_label(15)
    } else if rule_holds(16, today, tomorrow, today_range, tomorrow_range) {
        rule_label(16)
    } else if rule_holds(17, today, tomorrow, today_range, tomorrow_range) {
        rule_label(17)
    } else if rule_holds(18, today, tomorrow, today_range, tomorrow_range) {
        rule_label(18)
    } else if rule_holds(19, today, tomorrow, today_range, tomorrow_range) {
        rule_label(19)
    } else {
        ChangeKind::LittleChange
    }
}

fn abs_i64(x: i64) -> (r: i64)
    requires
        x > i64::MIN,
    ensures
        r == spec_abs(x as int),
{
    if x < 0 {
        -x
    } else {
        x
    }
}

/// Runs the cascade on two readings and their seasonal bands.
pub fn classify(
    today: &WeatherInfo,
    tomorrow: &WeatherInfo,
    today_range: TempRanges,
    tomorrow_range: TempRanges,
) -> (r: ChangeKind)
    ensures
        r == classify_spec(*today, *tomorrow, today_range, tomorrow_range),
{
    let th = today.high as i64;
    let tl = today.low as i64;
    let tf = today.feel as i64;
    let mh = tomorrow.high as i64;
    let ml = tomorrow.low as i64;
    let mf = tomorrow.feel as i64;
    let trh = today_range.high as i64;
    let trl = today_range.low as i64;
    let mrh = tomorrow_range.high as i64;
    let mrl = tomorrow_range.low as i64;
    let swing_change = abs_i64(mh - ml) - abs_i64(mh - tl);
    if mh - th > TEMPERATURE_RISE_THRESHOLD as i64 {
        ChangeKind::TurningHotter
    } else if mh > HOT_TEMPERATURE as i64 || th > HOT_TEMPERATURE as i64 {
        ChangeKind::VeryHot
    } else if mh < COLD_TEMPERATURE as i64 || th < COLD_TEMPERATURE as i64 {
        ChangeKind::VeryCold
    } else if ml - tl > TEMPERATURE_RISE_THRESHOLD as i64 {
        ChangeKind::WarmerNights
    } else if mf - tf > FEEL_TEMPERATURE_RISE_THRESHOLD as i64 {
        ChangeKind::FeelsHotter
    } else if mf - tf < FEEL_TEMPERATURE_DROP_THRESHOLD as i64 {
        ChangeKind::FeelsColder
    } else if mf - tf < TEMPERATURE_DROP_THRESHOLD as i64 {
        ChangeKind::TurningColder
    } else if swing_change > TEMPERATURE_STABLE_RANGE as i64 {
        ChangeKind::WiderSwing
    } else if swing_change < -(TEMPERATURE_STABLE_RANGE as i64) {
        ChangeKind::NarrowerSwing
    } else if abs_i64(mf - mh) > HEAT_INDEX_DIFFERENCE as i64 {
        ChangeKind::FeelGapWidening
    } else if abs_i64(mf - mh) > HEAT_INDEX_DIFFERENCE as i64 {
        ChangeKind::FeelGapNarrowing
    } else if tf > COMFORTABLE_HIGH_TEMP as i64 || mf > COMFORTABLE_HIGH_TEMP as i64 {
        ChangeKind::FeelsSweltering
    } else if tf < COMFORTABLE_LOW_TEMP as i64 || mf < COMFORTABLE_LOW_TEMP as i64 {
        ChangeKind::FeelsCool
    } else if tf - th > HEAT_INDEX_DIFFERENCE as i64 || mf - mh > HEAT_INDEX_DIFFERENCE as i64 {
        ChangeKind::FeelsHumidHot
    } else if tf - th < WIND_CHILL_DIFFERENCE as i64 || mf - mh < WIND_CHILL_DIFFERENCE as i64 {
        ChangeKind::FeelsWindChilled
    } else if abs_i64(mh - ml) < TEMPERATURE_STABLE_RANGE as i64 {
        ChangeKind::StableTemperature
    } else if abs_i64(mh - ml) < EXTREME_TEMPERATURE_CHANGE as i64 {
        ChangeKind::SharpSwing
    } else if th < trh && mh > mrh + TEMPERATURE_RISE_THRESHOLD as i64 {
        ChangeKind::SuddenSpike
    } else if tl > trl && ml < mrl - TEMPERATURE_DROP_THRESHOLD as i64 {
        ChangeKind::SuddenDrop
    } else {
        ChangeKind::LittleChange
    }
}

/// The phrase belonging to each outcome.
pub open spec fn label_view(k: ChangeKind) -> Seq<char> {
    match k {
        ChangeKind::TurningHotter => "天氣變熱"@,
        ChangeKind::VeryHot => "非常炎熱"@,
        ChangeKind::VeryCold => "非常寒冷"@,
        ChangeKind::WarmerNights => "夜晚變暖"@,
        ChangeKind::FeelsHotter => "體感變熱"@,
        ChangeKind::FeelsColder => "體感變冷"@,
        ChangeKind::TurningColder => "天氣變冷"@,
        ChangeKind::WiderSwing => "溫差變大"@,
        ChangeKind::NarrowerSwing => "溫差變小"@,
        ChangeKind::FeelGapWidening => "體感溫度差變大"@,
        ChangeKind::FeelGapNarrowing => "體感溫度差變小"@,
        ChangeKind::FeelsSweltering => "體感變炎熱"@,
        ChangeKind::FeelsCool => "體感變涼爽"@,
        ChangeKind::FeelsHumidHot => "體感變悶熱"@,
        ChangeKind::FeelsWindChilled => "體感變風寒"@,
        ChangeKind::StableTemperature => "溫度變化平穩"@,
        ChangeKind::SharpSwing => "溫度變化劇烈"@,
        ChangeKind::SuddenSpike => "氣溫驟升"@,
        ChangeKind::SuddenDrop => "氣溫驟降"@,
        ChangeKind::LittleChange => "天氣變化不大"@,
    }
}

impl ChangeKind {
    /// The phrase belonging to this outcome, as an owned string.
    pub fn label(&self) -> (r: String)
        ensures
            r@ == label_view(*self),
    {
        match self {
            ChangeKind::TurningHotter => "天氣變熱".to_owned(),
            ChangeKind::VeryHot => "非常炎熱".to_owned(),
            ChangeKind::VeryCold => "非常寒冷".to_owned(),
            ChangeKind::WarmerNights => "夜晚變暖".to_owned(),
            ChangeKind::FeelsHotter => "體感變熱".to_owned(),
            ChangeKind::FeelsColder => "體感變冷".to_owned(),
            ChangeKind::TurningColder => "天氣變冷".to_owned(),
            ChangeKind::WiderSwing => "溫差變大".to_owned(),
            ChangeKind::NarrowerSwing => "溫差變小".to_owned(),
            ChangeKind::FeelGapWidening => "體感溫度差變大".to_owned(),
            ChangeKind::FeelGapNarrowing => "體感溫度差變小".to_owned(),
            ChangeKind::FeelsSweltering => "體感變炎熱".to_owned(),
            ChangeKind::FeelsCool => "體感變涼爽".to_owned(),
            ChangeKind::FeelsHumidHot => "體感變悶熱".to_owned(),
            ChangeKind::FeelsWindChilled => "體感變風寒".to_owned(),
            ChangeKind::StableTemperature => "溫度變化平穩".to_owned(),
            ChangeKind::SharpSwing => "溫度變化劇烈".to_owned(),
            ChangeKind::SuddenSpike => "氣溫驟升".to_owned(),
            ChangeKind::SuddenDrop => "氣溫驟降".to_owned(),
            ChangeKind::LittleChange => "天氣變化不大".to_owned(),
        }
    }
}

/// Parses both dates, looks their months' bands up and runs the cascade.
/// Fails exactly when one of the two date strings is not a valid
/// `YYYY-MM-DD` calendar date; otherwise returns the phrase of the first
/// matching rule, or the default phrase.
pub fn describe_weather_change(today: &WeatherInfo, tomorrow: &WeatherInfo) -> (r: Result<
    String,
    DateParseError,
>)
    ensures
        match r {
            Ok(s) => {
                &&& valid_date(today.date@)
                &&& valid_date(tomorrow.date@)
                &&& s@ == label_view(
                    classify_spec(
                        *today,
                        *tomorrow,
                        range_of_month(month_of(today.date@)),
                        range_of_month(month_of(tomorrow.date@)),
                    ),
                )
            },
            Err(e) => !valid_date(today.date@) || !valid_date(tomorrow.date@),
        },
{
    let today_date = match parse_date(today.date.as_str()) {
        Some(d) => d,
        None => {
            return Err(DateParseError);
        },
    };
    let tomorrow_date = match parse_date(tomorrow.date.as_str()) {
        Some(d) => d,
        None => {
            return Err(DateParseError);
        },
    };
    let today_range = TempRanges::from_month(today_date.month);
    let tomorrow_range = TempRanges::from_month(tomorrow_date.month);
    let kind = classify(today, tomorrow, today_range, tomorrow_range);
    Ok(kind.label())
}

/// First-match-wins: when rule `i` holds and no earlier rule does, the
/// cascade returns rule `i`'s label, whatever later rules hold.
pub proof fn lemma_first_match_wins(
    today: WeatherInfo,
    tomorrow: WeatherInfo,
    today_range: TempRanges,
    tomorrow_range: TempRanges,
    i: int,
)
    requires
        1 <= i <= 19,
        rule_holds(i, today, tomorrow, today_range, tomorrow_range),
        forall|k: int|
            1 <= k < i ==> !rule_holds(k, today, tomorrow, today_range, tomorrow_range),
    ensures
        classify_spec(today, tomorrow, today_range, tomorrow_range) == rule_label(i),
{
}

/// Rule precedence: when an earlier rule `i` holds, the label of any later
/// rule `j` is never the outcome, even if rule `j`'s condition also holds.
pub proof fn lemma_precedence(
    today: WeatherInfo,
    tomorrow: WeatherInfo,
    today_range: TempRanges,
    tomorrow_range: TempRanges,
    i: int,
    j: int,
)
    requires
        1 <= i < j <= 19,
        rule_holds(i, today, tomorrow, today_range, tomorrow_range),
    ensures
        classify_spec(today, tomorrow, today_range, tomorrow_range) != rule_label(j),
{
}

/// Completeness of the cascade: when no rule holds, the outcome is the
/// default label.
pub proof fn lemma_no_match_is_little_change(
    today: WeatherInfo,
    tomorrow: WeatherInfo,
    today_range: TempRanges,
    tomorrow_range: TempRanges,
)
    requires
        forall|k: int|
            1 <= k <= 19 ==> !rule_holds(k, today, tomorrow, today_range, tomorrow_range),
    ensures
        classify_spec(today, tomorrow, today_range, tomorrow_range)
            == ChangeKind::LittleChange,
{
}

/// The seasonal-band rules are a last resort: their labels are the outcome
/// only when their own condition holds and no earlier rule matched.
pub proof fn lemma_seasonal_rules_fire_last(
    today: WeatherInfo,
    tomorrow: WeatherInfo,
    today_range: TempRanges,
    tomorrow_range: TempRanges,
)
    ensures
        classify_spec(today, tomorrow, today_range, tomorrow_range) == ChangeKind::SuddenSpike
            ==> rule_holds(18, today, tomorrow, today_range, tomorrow_range) && (forall|k: int|
            1 <= k < 18 ==> !rule_holds(k, today, tomorrow, today_range, tomorrow_range)),
        classify_spec(today, tomorrow, today_range, tomorrow_range) == ChangeKind::SuddenDrop
            ==> rule_holds(19, today, tomorrow, today_range, tomorrow_range) && (forall|k: int|
            1 <= k < 19 ==> !rule_holds(k, today, tomorrow, today_range, tomorrow_range)),
{
}

/// A rule whose condition repeats an earlier rule's condition verbatim can
/// never determine the outcome: its label is never returned.
pub proof fn lemma_shadowed_rules_never_fire(
    today: WeatherInfo,
    tomorrow: WeatherInfo,
    today_range: TempRanges,
    tomorrow_range: TempRanges,
)
    ensures
        classify_spec(today, tomorrow, today_range, tomorrow_range)
            != ChangeKind::TurningColder,
        classify_spec(today, tomorrow, today_range, tomorrow_range)
            != ChangeKind::FeelGapNarrowing,
{
}

/// Exactly one label comes out of the cascade, and it is drawn from the
/// fixed set of rule labels plus the default: the outcome always equals
/// `rule_label(i)` for some `i` in `0..=19` (with `rule_label(0)` the
/// default label).
pub proof fn lemma_outcome_in_fixed_set(
    today: WeatherInfo,
    tomorrow: WeatherInfo,
    today_range: TempRanges,
    tomorrow_range: TempRanges,
)
    ensures
        exists|i: int|
            0 <= i <= 19 && classify_spec(today, tomorrow, today_range, tomorrow_range)
                == rule_label(i),
{
    let outcome = classify_spec(today, tomorrow, today_range, tomorrow_range);
    if outcome == ChangeKind::LittleChange {
        assert(outcome == rule_label(0));
    }
}

/// Every outcome's phrase is one of the twenty fixed phrases: the label
/// strings form a closed set, and no outcome ever yields an empty or
/// composite phrase.
pub proof fn lemma_phrases_fixed(k: ChangeKind)
    ensures
        label_view(k) == "天氣變熱"@ || label_view(k) == "非常炎熱"@ || label_view(k)
            == "非常寒冷"@ || label_view(k) == "夜晚變暖"@ || label_view(k) == "體感變熱"@
            || label_view(k) == "體感變冷"@ || label_view(k) == "天氣變冷"@ || label_view(k)
            == "溫差變大"@ || label_view(k) == "溫差變小"@ || label_view(k)
            == "體感溫度差變大"@ || label_view(k) == "體感溫度差變小"@ || label_view(k)
            == "體感變炎熱"@ || label_view(k) == "體感變涼爽"@ || label_view(k)
            == "體感變悶熱"@ || label_view(k) == "體感變風寒"@ || label_view(k)
            == "溫度變化平穩"@ || label_view(k) == "溫度變化劇烈"@ || label_view(k)
            == "氣溫驟升"@ || label_view(k) == "氣溫驟降"@ || label_view(k)
            == "天氣變化不大"@,
        label_view(k).len() > 0,
{
    reveal_strlit("天氣變熱");
    reveal_strlit("非常炎熱");
    reveal_strlit("非常寒冷");
    reveal_strlit("夜晚變暖");
    reveal_strlit("體感變熱");
    reveal_strlit("體感變冷");
    reveal_strlit("天氣變冷");
    reveal_strlit("溫差變大");
    reveal_strlit("溫差變小");
    reveal_strlit("體感溫度差變大");
    reveal_strlit("體感溫度差變小");
    reveal_strlit("體感變炎熱");
    reveal_strlit("體感變涼爽");
    reveal_strlit("體感變悶熱");
    reveal_strlit("體感變風寒");
    reveal_strlit("溫度變化平穩");
    reveal_strlit("溫度變化劇烈");
    reveal_strlit("氣溫驟升");
    reveal_strlit("氣溫驟降");
    reveal_strlit("天氣變化不大");
}

} // verus!
