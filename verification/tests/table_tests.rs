use tpcdsgen::column::{Column, ColumnTypeBase};
use tpcdsgen::generator::GeneratorColumn;
use tpcdsgen::scaling_info::ScalingModel;
use tpcdsgen::table::Table;

#[test]
fn column_test_table_name() {
    assert_eq!(tpcdsgen::column::column::Table::CallCenter.get_name(), "call_center");
    assert_eq!(tpcdsgen::column::column::Table::CallCenter.to_string(), "call_center");
}

#[test]
fn mod_test_table_name() {
    assert_eq!(tpcdsgen::column::Table::CallCenter.get_name(), "call_center");
    assert_eq!(tpcdsgen::column::Table::CallCenter.to_string(), "call_center");
}

#[test]
fn table_test_table_name() {
    assert_eq!(Table::CallCenter.get_name(), "call_center");
    assert_eq!(Table::CallCenter.to_string(), "call_center");
}

#[test]
fn test_table_flags() {
    let flags = Table::CallCenter.get_table_flags();
    assert!(flags.keeps_history());
    assert!(flags.is_small());
    assert!(!flags.is_date_based());
}

#[test]
fn test_table_metadata() {
    assert_eq!(Table::CallCenter.get_null_basis_points(), 100);
    assert_eq!(Table::CallCenter.get_not_null_bit_map(), 0xB);
}

#[test]
fn test_get_columns() {
    let table = Table::CallCenter;
    assert_eq!(table.get_column_count(), 31);

    let first_col = table.get_column_by_index(0).unwrap();
    assert_eq!(first_col.get_name(), "cc_call_center_sk");
    assert_eq!(first_col.get_position(), 0);

    let column_table: Table = Table::from_column_table(first_col.get_table()).unwrap();
    assert_eq!(column_table, Table::CallCenter);
}

#[test]
fn test_get_generator_columns() {
    let table = Table::CallCenter;
    assert_eq!(table.get_generator_column_count(), 34);

    let first_gen_col = table.get_generator_column_by_index(0).unwrap();
    assert_eq!(first_gen_col.get_global_column_number(), 1);

    let gen_column_table: Table = Table::from_column_table(first_gen_col.get_table()).unwrap();
    assert_eq!(gen_column_table, Table::CallCenter);
}

#[test]
fn test_get_column_by_name() {
    let table = Table::CallCenter;

    let column = table.get_column("cc_call_center_sk").unwrap();
    assert_eq!(column.get_name(), "cc_call_center_sk");

    let column = table.get_column("CC_CALL_CENTER_SK").unwrap();
    assert_eq!(column.get_name(), "cc_call_center_sk");

    assert!(table.get_column("nonexistent_column").is_err());
}

#[test]
fn test_table_flags_methods() {
    let table = Table::CallCenter;
    assert!(table.keeps_history());
    assert!(table.is_small());
    assert!(!table.is_date_based());
}

#[test]
fn test_get_table_by_name() {
    let table = Table::get_table("call_center").unwrap();
    assert_eq!(table, Table::CallCenter);

    let table = Table::get_table("CALL_CENTER").unwrap();
    assert_eq!(table, Table::CallCenter);

    assert!(Table::get_table("nonexistent_table").is_err());
}

#[test]
fn test_table_conversions() {
    let table = Table::CallCenter;
    let column_table: tpcdsgen::column::Table = table.into();
    let back_to_table: Table = Table::from_column_table(column_table).unwrap();
    assert_eq!(table, back_to_table);
}

#[test]
fn test_column_types_integration() {
    let table = Table::CallCenter;

    let sk_column = table.get_column("cc_call_center_sk").unwrap();
    assert_eq!(sk_column.get_type().get_base(), ColumnTypeBase::Identifier);

    let name_column = table.get_column("cc_name").unwrap();
    assert_eq!(name_column.get_type().get_base(), ColumnTypeBase::Varchar);
    assert_eq!(name_column.get_type().get_precision(), Some(50));

    let date_column = table.get_column("cc_rec_start_date").unwrap();
    assert_eq!(date_column.get_type().get_base(), ColumnTypeBase::Date);
}

#[test]
fn test_generator_vs_regular_column_count() {
    let table = Table::CallCenter;

    assert_eq!(table.get_column_count(), 31);
    assert_eq!(table.get_generator_column_count(), 34);
}

#[test]
fn test_scaling_info_metadata() {
    let scaling = Table::CallCenter.get_scaling_info();
    assert_eq!(scaling.get_multiplier(), 0);
    assert_eq!(scaling.get_scaling_model(), ScalingModel::Logarithmic);
}
