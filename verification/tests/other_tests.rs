use tpcdsgen::distribution::CalendarDistribution;
use tpcdsgen::generator::CallCenterGeneratorColumn;
use tpcdsgen::row::{AbstractRowGenerator, TableRow};
use tpcdsgen::slowly_changing_dimension_utils::should_change_dimension;
use tpcdsgen::table::Table;

fn calendar_line(day: &str, quarter: &str, holiday: &str) -> (Vec<String>, Vec<String>) {
    let values = vec![
        day.to_string(),
        "January".to_string(),
        day.to_string(),
        "winter".to_string(),
        "1".to_string(),
        quarter.to_string(),
        "1".to_string(),
        holiday.to_string(),
    ];
    let weights = (0..10).map(|i| (i + 1).to_string()).collect();
    (values, weights)
}

fn sample_calendar() -> CalendarDistribution {
    let lines = vec![
        calendar_line("1", "1", "1"),
        calendar_line("2", "1", "0"),
        calendar_line("91", "2", "0"),
    ];
    CalendarDistribution::build_calendar_distribution(&lines).unwrap()
}

#[test]
fn test_calendar_distribution_loading() {
    let dist = sample_calendar();
    assert!(dist.days_of_year().len() > 0);
    assert_eq!(dist.quarters().len(), dist.days_of_year().len());
    assert_eq!(dist.holiday_flags().len(), dist.days_of_year().len());
}

#[test]
fn test_get_quarter_at_index() {
    let dist = sample_calendar();
    let quarter = dist.get_quarter_at_index(1);
    assert_eq!(quarter, 1);
}

#[test]
fn test_days_before_month() {
    assert_eq!(CalendarDistribution::DAYS_BEFORE_MONTH[0][0], 0);
    assert_eq!(CalendarDistribution::DAYS_BEFORE_MONTH[0][1], 31);

    assert_eq!(CalendarDistribution::DAYS_BEFORE_MONTH[1][2], 60);
}

#[test]
fn test_abstract_row_generator_creation() {
    let generator = AbstractRowGenerator::new(Table::CallCenter);
    assert_eq!(generator.get_table(), Table::CallCenter);
}

#[test]
fn test_random_number_stream_creation() {
    let mut generator = AbstractRowGenerator::new(Table::CallCenter);
    let column = &CallCenterGeneratorColumn::CcCallCenterSk;

    let _stream1 = generator.get_random_number_stream(column);
    let _stream2 = generator.get_random_number_stream(column);

    assert_eq!(generator.stream_count(), 1);
}

#[test]
fn test_multiple_column_streams() {
    let mut generator = AbstractRowGenerator::new(Table::CallCenter);
    let col1 = &CallCenterGeneratorColumn::CcCallCenterSk;
    let col2 = &CallCenterGeneratorColumn::CcCallCenterId;

    let _stream1 = generator.get_random_number_stream(col1);
    let _stream2 = generator.get_random_number_stream(col2);

    assert_eq!(generator.stream_count(), 2);
}

struct TestTableRow {
    values: Vec<String>,
}

impl TableRow for TestTableRow {
    fn get_values(&self) -> Vec<String> {
        self.values.clone()
    }
}

#[test]
fn test_table_row_trait() {
    let test_row = TestTableRow {
        values: vec!["1".to_string(), "test".to_string(), "123.45".to_string()],
    };

    let values = test_row.get_values();
    assert_eq!(values.len(), 3);
    assert_eq!(values[0], "1");
    assert_eq!(values[1], "test");
    assert_eq!(values[2], "123.45");
    assert_eq!(test_row.get_column_count(), 3);
}

#[test]
fn test_should_change_dimension() {
    assert!(should_change_dimension(0, false));
    assert!(!should_change_dimension(1, false));
    assert!(should_change_dimension(1, true));
    assert!(should_change_dimension(0, true));
}
