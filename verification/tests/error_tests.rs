use tpcdsgen::business_key_generator::make_business_key;
use tpcdsgen::config::scaling::{get_base_row_count, id_count_for_row_count};
use tpcdsgen::config::Table as ScaledTable;
use tpcdsgen::distribution::string_values::{LENGTH_MISMATCH_MESSAGE, ZERO_WEIGHT_MESSAGE};
use tpcdsgen::distribution::utils::{NEGATIVE_WEIGHT_MESSAGE, WEIGHT_OVERFLOW_MESSAGE};
use tpcdsgen::distribution::{CalendarDistribution, StringValuesDistribution};
use tpcdsgen::join_key_utils::{generate_join_key, generate_scd_join_key, CATALOG_PAGE_MESSAGE};
use tpcdsgen::random::stream::{COLUMN_RANGE_MESSAGE, NEGATIVE_SEEDS_MESSAGE};
use tpcdsgen::random::RandomNumberStreamImpl;
use tpcdsgen::scaling_info::{
    ScalingInfo, ScalingModel, NEGATIVE_MULTIPLIER_MESSAGE, NEGATIVE_ROW_COUNT_MESSAGE,
    NEGATIVE_UPDATE_PERCENTAGE_MESSAGE, ROW_COUNT_SLOTS_MESSAGE,
};
use tpcdsgen::slowly_changing_dimension_utils::compute_scd_key;
use tpcdsgen::table::Table;
use tpcdsgen::types::decimal::NEGATIVE_PRECISION_MESSAGE;
use tpcdsgen::types::{Date, Decimal};

fn line(values: &[&str], weights: &[&str]) -> (Vec<String>, Vec<String>) {
    (
        values.iter().map(|s| s.to_string()).collect(),
        weights.iter().map(|s| s.to_string()).collect(),
    )
}

const GOOD_VALUES: [&str; 8] = ["1", "January", "1", "winter", "1", "1", "1", "0"];
const GOOD_WEIGHTS: [&str; 10] = ["1", "1", "1", "1", "1", "1", "1", "1", "1", "1"];

fn calendar_error(lines: Vec<(Vec<String>, Vec<String>)>) -> String {
    match CalendarDistribution::build_calendar_distribution(&lines) {
        Ok(_) => panic!("expected an error"),
        Err(e) => e.message().to_string(),
    }
}

#[test]
fn test_calendar_refuses_malformed_lines() {
    let short = line(&GOOD_VALUES[..7], &GOOD_WEIGHTS);
    assert_eq!(
        calendar_error(vec![short.clone()]),
        format!("Expected line to contain 8 values, but it contained 7: {:?}", short.0)
    );
    assert_eq!(
        calendar_error(vec![short]),
        "Expected line to contain 8 values, but it contained 7: \
         [\"1\", \"January\", \"1\", \"winter\", \"1\", \"1\", \"1\"]"
    );
    let few_weights = line(&GOOD_VALUES, &GOOD_WEIGHTS[..9]);
    assert_eq!(
        calendar_error(vec![few_weights.clone()]),
        format!("Expected line to contain 10 weights, but it contained 9: {:?}", few_weights.1)
    );
    let mut values = GOOD_VALUES;
    values[0] = "first";
    assert_eq!(
        calendar_error(vec![line(&values, &GOOD_WEIGHTS)]),
        "Failed to parse day_of_year 'first': invalid digit found in string"
    );
    let mut values = GOOD_VALUES;
    values[5] = "";
    assert_eq!(
        calendar_error(vec![line(&values, &GOOD_WEIGHTS)]),
        "Failed to parse quarter '': cannot parse integer from empty string"
    );
    let mut values = GOOD_VALUES;
    values[7] = "yes";
    assert_eq!(
        calendar_error(vec![line(&values, &GOOD_WEIGHTS)]),
        "Failed to parse holiday_flag 'yes': invalid digit found in string"
    );
    let mut weights = GOOD_WEIGHTS;
    weights[3] = "99999999999";
    assert_eq!(
        calendar_error(vec![line(&GOOD_VALUES, &weights)]),
        "Failed to parse weight '99999999999': number too large to fit in target type"
    );
    let mut weights = GOOD_WEIGHTS;
    weights[3] = "-1";
    assert_eq!(calendar_error(vec![line(&GOOD_VALUES, &weights)]), NEGATIVE_WEIGHT_MESSAGE);
    let mut heavy = GOOD_WEIGHTS;
    heavy[0] = "2147483647";
    assert_eq!(
        calendar_error(vec![line(&GOOD_VALUES, &heavy), line(&GOOD_VALUES, &GOOD_WEIGHTS)]),
        WEIGHT_OVERFLOW_MESSAGE
    );
    // a later malformed line fails the whole file
    assert!(calendar_error(vec![
        line(&GOOD_VALUES, &GOOD_WEIGHTS),
        line(&GOOD_VALUES[..3], &GOOD_WEIGHTS)
    ])
    .starts_with("Expected line to contain 8 values, but it contained 3: "));
}

#[test]
fn test_calendar_keeps_values_of_each_line() {
    let mut second = GOOD_VALUES;
    second[0] = "2";
    second[5] = "3";
    second[7] = "1";
    let d = CalendarDistribution::build_calendar_distribution(&[
        line(&GOOD_VALUES, &GOOD_WEIGHTS),
        line(&second, &GOOD_WEIGHTS),
    ])
    .unwrap();
    assert_eq!(d.days_of_year(), &[1, 2]);
    assert_eq!(d.quarters(), &[1, 3]);
    assert_eq!(d.holiday_flags(), &[0, 1]);
    assert_eq!(d.get_quarter_at_index(2), 3);
    assert_eq!(d.get_is_holiday_flag_at_index(1), 0);
}

#[test]
fn test_string_distribution_error_messages() {
    let e = StringValuesDistribution::new(vec!["a".to_string()], &[1, 2]).unwrap_err();
    assert_eq!(e.message(), LENGTH_MISMATCH_MESSAGE);
    let e = StringValuesDistribution::new(vec!["a".to_string()], &[0]).unwrap_err();
    assert_eq!(e.message(), ZERO_WEIGHT_MESSAGE);
    let e = StringValuesDistribution::new(vec!["a".to_string()], &[-4]).unwrap_err();
    assert_eq!(e.message(), NEGATIVE_WEIGHT_MESSAGE);
    let e = StringValuesDistribution::new(
        vec!["a".to_string(), "b".to_string()],
        &[i32::MAX, 1],
    )
    .unwrap_err();
    assert_eq!(e.message(), WEIGHT_OVERFLOW_MESSAGE);
}

#[test]
fn test_scaling_info_errors() {
    let counts = [1, 2, 3, 4, 5, 6, 7, 8, 9, 10];
    let ok = ScalingInfo::new(2, ScalingModel::Linear, &counts, 5).unwrap();
    assert_eq!(ok.get_multiplier(), 2);
    assert_eq!(ok.get_update_percentage(), 5);
    let e = ScalingInfo::new(-1, ScalingModel::Linear, &counts, 0).unwrap_err();
    assert_eq!(e.message(), NEGATIVE_MULTIPLIER_MESSAGE);
    let e = ScalingInfo::new(0, ScalingModel::Linear, &counts[..9], 0).unwrap_err();
    assert_eq!(e.message(), ROW_COUNT_SLOTS_MESSAGE);
    let mut negative = counts;
    negative[4] = -5;
    let e = ScalingInfo::new(0, ScalingModel::Static, &negative, 0).unwrap_err();
    assert_eq!(e.message(), NEGATIVE_ROW_COUNT_MESSAGE);
    let e = ScalingInfo::new(0, ScalingModel::Static, &counts, -1).unwrap_err();
    assert_eq!(e.message(), NEGATIVE_UPDATE_PERCENTAGE_MESSAGE);
}

#[test]
fn test_decimal_and_stream_errors() {
    assert_eq!(Decimal::new(5, -1).unwrap_err().message(), NEGATIVE_PRECISION_MESSAGE);
    let d = Decimal::new(-314, 2).unwrap();
    assert_eq!(d.get_number(), -314);
    assert_eq!(d.get_precision(), 2);
    assert_eq!(RandomNumberStreamImpl::new(-1).err().unwrap().message(), NEGATIVE_SEEDS_MESSAGE);
    assert_eq!(
        RandomNumberStreamImpl::new_with_column(800, 1).err().unwrap().message(),
        COLUMN_RANGE_MESSAGE
    );
    assert_eq!(
        RandomNumberStreamImpl::new_with_column(-1, -1).err().unwrap().message(),
        COLUMN_RANGE_MESSAGE
    );
    assert!(RandomNumberStreamImpl::new_with_column(799, 0).is_ok());
}

#[test]
fn test_stream_first_values() {
    let mut stream = RandomNumberStreamImpl::new(1).unwrap();
    // 19620718 * 16807 mod (2^31 - 1)
    assert_eq!(stream.next_random(), (19620718i64 * 16807) % 2147483647);
    assert_eq!(stream.get_seeds_used(), 1);
    stream.reset_seeds_used();
    assert_eq!(stream.get_seeds_used(), 0);
    let mut again = RandomNumberStreamImpl::new(1).unwrap();
    again.next_random();
    let second = again.next_random();
    let mut skipped = RandomNumberStreamImpl::new(2).unwrap();
    skipped.skip_rows(1);
    assert_eq!(skipped.next_random(), (second * 16807) % 2147483647);
}

#[test]
fn test_julian_days() {
    assert_eq!(Date::new(2000, 1, 1).to_julian_days(), 2451545);
    assert_eq!(Date::new(1998, 1, 1).to_julian_days(), 2450815);
    assert_eq!(Date::from_julian_days(2451545), Date::new(2000, 1, 1));
    assert_eq!(Date::from_julian_days(2453005), Date::new(2003, 12, 31));
    assert!(Date::is_leap_year(2000));
    assert!(!Date::is_leap_year(1900));
    assert!(Date::is_leap_year(-4));
}

#[test]
fn test_julian_round_trip_over_the_data_set() {
    for j in 2450815..=2453005 {
        let d = Date::from_julian_days(j);
        assert_eq!(d.to_julian_days(), j);
        assert!((1..=12).contains(&d.get_month()));
        assert_eq!(Date::from_julian_days(Date::new(d.get_year(), d.get_month(), d.get_day()).to_julian_days()), d);
    }
    assert_eq!(Date::from_julian_days(Date::new(2000, 2, 29).to_julian_days()), Date::new(2000, 2, 29));
    assert_eq!(Date::from_julian_days(Date::new(1, 1, 1).to_julian_days()), Date::new(1, 1, 1));
}

#[test]
fn test_business_keys_are_distinct() {
    let mut keys: Vec<String> = (0..200).map(make_business_key).collect();
    keys.push(make_business_key(-1));
    keys.push(make_business_key(i64::MIN));
    let mut sorted = keys.clone();
    sorted.sort();
    sorted.dedup();
    assert_eq!(sorted.len(), keys.len());
}

#[test]
fn test_id_count_counts_new_business_keys() {
    let mut new_keys = 0;
    for n in 1..=60i64 {
        if compute_scd_key(Table::CallCenter, n).is_new_business_key() {
            new_keys += 1;
        }
        assert_eq!(id_count_for_row_count(n, true), new_keys);
        assert_eq!(id_count_for_row_count(n, false), n);
    }
    assert_eq!(id_count_for_row_count(6, true), 3);
    assert_eq!(get_base_row_count(ScaledTable::CallCenter), 6);
}

#[test]
fn test_join_keys() {
    let mut stream = RandomNumberStreamImpl::new(4).unwrap();
    let e = generate_join_key(&mut stream, ScaledTable::CatalogPage, 0, 10, 10).unwrap_err();
    assert_eq!(e.message(), CATALOG_PAGE_MESSAGE);
    assert_eq!(
        e.message(),
        "catalog_page join keys not yet implemented - needs CatalogPageDistributions (Phase 2.3)"
    );
    assert_eq!(stream.get_seeds_used(), 0);

    for _ in 0..50 {
        let key = generate_join_key(&mut stream, ScaledTable::DateDim, 0, 10, 10).unwrap();
        assert!(key == -1 || (2450815..=2452648).contains(&key));
        let key = generate_join_key(&mut stream, ScaledTable::TimeDim, 0, 10, 10).unwrap();
        assert!((0..86400).contains(&key));
        let key = generate_join_key(&mut stream, ScaledTable::Reason, 0, 35, 35).unwrap();
        assert!((1..=35).contains(&key));
        let key = generate_join_key(&mut stream, ScaledTable::CallCenter, 2451000, 6, 3).unwrap();
        assert!((1..=3).contains(&key));
    }
    let used = stream.get_seeds_used();
    // a revision date after the end of the data set has no key and draws nothing
    assert_eq!(generate_scd_join_key(&mut stream, 2453006, 6, 3).unwrap(), -1);
    assert_eq!(stream.get_seeds_used(), used);
    // a business key beyond the row count has no row
    let mut stream = RandomNumberStreamImpl::new(4).unwrap();
    let mut seen_missing = false;
    for _ in 0..200 {
        let key = generate_scd_join_key(&mut stream, 2451000, 2, 5).unwrap();
        assert!(key == -1 || (1..=2).contains(&key));
        seen_missing |= key == -1;
    }
    assert!(seen_missing);
}
