use tpcdsgen::business_key_generator::make_business_key;
use tpcdsgen::column::Column;
use tpcdsgen::distribution::WeightsBuilder;
use tpcdsgen::generator::CallCenterGeneratorColumn;
use tpcdsgen::random::RandomValueGenerator;
use tpcdsgen::row::AbstractRowGenerator;
use tpcdsgen::slowly_changing_dimension_utils::{
    compute_scd_key, get_value_for_slowly_changing_dimension,
};
use tpcdsgen::table::Table;

#[test]
fn test_business_key_spells_nibbles() {
    assert_eq!(make_business_key(0), "AAAAAAAAAAAAAAAA");
    assert_eq!(make_business_key(1), "AAAAAAAABAAAAAAA");
    assert_eq!(make_business_key(0x1_0000_0010), "BAAAAAAAABAAAAAA");
    assert_eq!(make_business_key(-1), "PPPPPPPPPPPPPPPP");
}

#[test]
fn test_revisions_of_one_business_key() {
    for t in Table::get_base_tables() {
        for group in 0..4i64 {
            let base = 6 * group;
            let single = compute_scd_key(t, base + 1);
            assert!(single.is_new_business_key());
            assert_eq!(single.get_end_date(), -1);

            let first_of_two = compute_scd_key(t, base + 2);
            let second_of_two = compute_scd_key(t, base + 3);
            assert!(first_of_two.is_new_business_key());
            assert!(!second_of_two.is_new_business_key());
            assert_eq!(second_of_two.get_business_key(), first_of_two.get_business_key());
            assert_eq!(second_of_two.get_start_date(), first_of_two.get_end_date() + 1);
            assert_eq!(second_of_two.get_end_date(), -1);

            let first_of_three = compute_scd_key(t, base + 4);
            let second_of_three = compute_scd_key(t, base + 5);
            let third_of_three = compute_scd_key(t, base + 6);
            assert!(first_of_three.is_new_business_key());
            assert!(!second_of_three.is_new_business_key());
            assert!(!third_of_three.is_new_business_key());
            assert_eq!(second_of_three.get_business_key(), first_of_three.get_business_key());
            assert_eq!(third_of_three.get_business_key(), first_of_three.get_business_key());
            assert_eq!(second_of_three.get_start_date(), first_of_three.get_end_date() + 1);
            assert_eq!(third_of_three.get_start_date(), second_of_three.get_end_date() + 1);
            assert_eq!(third_of_three.get_end_date(), -1);
        }
    }
}

#[test]
fn test_scd_dates_of_call_center() {
    let key = compute_scd_key(Table::CallCenter, 2);
    assert_eq!(key.get_business_key(), "AAAAAAAACAAAAAAA");
    assert_eq!(key.get_start_date(), 2450815);
    assert_eq!(key.get_end_date(), 2451910);
    let key = compute_scd_key(Table::Warehouse, 5);
    assert_eq!(key.get_business_key(), "AAAAAAAAEAAAAAAA");
    assert_eq!(key.get_start_date(), 2451545 - 6 + 1);
    assert_eq!(key.get_end_date(), 2452275 - 6);
}

#[test]
fn test_value_for_slowly_changing_dimension() {
    assert_eq!(get_value_for_slowly_changing_dimension(2, false, "old", "new"), "new");
    assert_eq!(get_value_for_slowly_changing_dimension(3, false, "old", "new"), "old");
    assert_eq!(get_value_for_slowly_changing_dimension(3, true, "old", "new"), "new");
    assert_eq!(get_value_for_slowly_changing_dimension(-3, false, 1, 2), 1);
}

#[test]
fn test_every_table_found_by_its_own_name() {
    for t in Table::get_base_tables() {
        assert_eq!(Table::get_table(t.get_name()).unwrap(), t);
        assert_eq!(Table::get_table(&t.get_name().to_uppercase()).unwrap(), t);
        assert_eq!(Table::from_column_table(t.to_column_table()), Some(t));
    }
}

#[test]
fn test_every_column_found_by_its_own_name() {
    let t = Table::CallCenter;
    for i in 0..t.get_column_count() {
        let column = t.get_column_by_index(i).unwrap();
        assert_eq!(t.get_column(column.get_name()).unwrap(), column);
    }
    assert!(t.get_column_by_index(t.get_column_count()).is_none());
}

#[test]
fn test_lookup_error_messages() {
    let e = Table::get_table("nowhere").unwrap_err();
    assert_eq!(e.message(), "Table 'nowhere' not found");
    let e = Table::CallCenter.get_column("NoSuchColumn").unwrap_err();
    assert_eq!(e.message(), "Column 'NoSuchColumn' not found in table 'call_center'");
    let e = Table::Warehouse.get_column("w_warehouse_sk").unwrap_err();
    assert_eq!(e.message(), "Column 'w_warehouse_sk' not found in table 'warehouse'");
}

#[test]
fn test_completed_row_equals_skipped_row() {
    let column = &CallCenterGeneratorColumn::CcAddress;
    for drawn in 0..16 {
        let mut sequential = AbstractRowGenerator::new(Table::CallCenter);
        sequential.get_random_number_stream(column);
        for _ in 0..drawn {
            RandomValueGenerator::generate_uniform_random_int(
                0,
                9,
                sequential.get_random_number_stream(column),
            );
        }
        sequential.consume_remaining_seeds_for_row();

        let mut skipping = AbstractRowGenerator::new(Table::CallCenter);
        skipping.get_random_number_stream(column);
        skipping.skip_rows_until_starting_row_number(1);

        let a = sequential.get_random_number_stream(column).next_random();
        let b = skipping.get_random_number_stream(column).next_random();
        assert_eq!(a, b);
        assert_eq!(sequential.get_random_number_stream(column).get_seeds_used(), 1);
    }
}

#[test]
fn test_advance_to_next_row_draws_the_allotment() {
    let column = &CallCenterGeneratorColumn::CcAddress;
    let mut advanced = AbstractRowGenerator::new(Table::CallCenter);
    advanced.get_random_number_stream(column);
    advanced.advance_to_next_row(1);

    let mut skipping = AbstractRowGenerator::new(Table::CallCenter);
    skipping.get_random_number_stream(column);
    skipping.skip_rows_until_starting_row_number(1);

    assert_eq!(
        advanced.get_random_number_stream(column).next_random(),
        skipping.get_random_number_stream(column).next_random()
    );
}

#[test]
fn test_cumulative_weights_are_running_sums() {
    use_weights(&[3, 4, 0, 10], Some(vec![3, 7, 7, 17]));
    use_weights(&[], Some(vec![]));
    use_weights(&[1, -1, 5], None);
    use_weights(&[i32::MAX, 0], Some(vec![i32::MAX, i32::MAX]));
    use_weights(&[i32::MAX, 1], None);
}

fn use_weights(weights: &[i32], expected: Option<Vec<i32>>) {
    let mut builder = WeightsBuilder::new();
    let mut failed = false;
    for &w in weights {
        if builder.compute_and_add_next_weight(w).is_err() {
            failed = true;
            break;
        }
    }
    match expected {
        Some(sums) => {
            assert!(!failed);
            assert_eq!(builder.build(), sums);
        }
        None => assert!(failed),
    }
}

#[test]
fn test_charset_strings_share_prefix() {
    for (min1, min2) in [(0, 10), (3, 7), (10, 10), (0, 0)] {
        let mut s1 = tpcdsgen::random::RandomNumberStreamImpl::new(3).unwrap();
        let mut s2 = tpcdsgen::random::RandomNumberStreamImpl::new(3).unwrap();
        let a = RandomValueGenerator::generate_random_charset("abcxyz", min1, 10, &mut s1);
        let b = RandomValueGenerator::generate_random_charset("abcxyz", min2, 10, &mut s2);
        let (short, long) = if a.len() <= b.len() { (&a, &b) } else { (&b, &a) };
        assert!(long.starts_with(short.as_str()));
        assert_eq!(s1.next_random(), s2.next_random());
    }
}
