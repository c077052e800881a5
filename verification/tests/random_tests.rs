use tpcdsgen::join_key_utils::{generate_catalog_page_join_key, generate_time_join_key};
use tpcdsgen::random::{RandomNumberStreamImpl, RandomValueGenerator};
use tpcdsgen::types::{Date, Decimal};

#[test]
fn test_uniform_random_int() {
    let mut stream = RandomNumberStreamImpl::new(1).unwrap();
    let result = RandomValueGenerator::generate_uniform_random_int(1, 10, &mut stream);
    assert!(result >= 1 && result <= 10);
}

#[test]
fn test_uniform_random_key() {
    let mut stream = RandomNumberStreamImpl::new(1).unwrap();
    let result = RandomValueGenerator::generate_uniform_random_key(100, 200, &mut stream);
    assert!(result >= 100 && result <= 200);
}

#[test]
fn test_uniform_random_decimal() {
    let mut stream = RandomNumberStreamImpl::new(1).unwrap();
    let min = Decimal::new(100, 2).unwrap();
    let max = Decimal::new(500, 2).unwrap();
    let result = RandomValueGenerator::generate_uniform_random_decimal(min, max, &mut stream);

    assert!(result.get_number() >= min.get_number() && result.get_number() <= max.get_number());
    assert_eq!(result.get_precision(), 2);
}

#[test]
fn test_uniform_random_date() {
    let mut stream = RandomNumberStreamImpl::new(1).unwrap();
    let min = Date::new(2020, 1, 1);
    let max = Date::new(2020, 12, 31);
    let result = RandomValueGenerator::generate_uniform_random_date(min, max, &mut stream).unwrap();

    assert!(result.to_julian_days() >= min.to_julian_days());
    assert!(result.to_julian_days() <= max.to_julian_days());
    assert_eq!(result.get_year(), 2020);
}

#[test]
fn test_random_alphanumeric() {
    let mut stream = RandomNumberStreamImpl::new(1).unwrap();
    let result = RandomValueGenerator::generate_random_alphanumeric(10, &mut stream);

    assert_eq!(result.len(), 10);
    for ch in result.chars() {
        assert!(RandomValueGenerator::ALPHA_NUMERIC.contains(ch));
    }
}

#[test]
fn test_random_digits() {
    let mut stream = RandomNumberStreamImpl::new(1).unwrap();
    let result = RandomValueGenerator::generate_random_digits(5, &mut stream);

    assert_eq!(result.len(), 5);
    for ch in result.chars() {
        assert!(ch.is_ascii_digit());
    }
}

#[test]
fn test_weighted_random_index() {
    let mut stream = RandomNumberStreamImpl::new(1).unwrap();
    let weights = vec![10, 20, 30, 40];
    let result = RandomValueGenerator::generate_weighted_random_index(&weights, &mut stream);

    assert!(result < weights.len());
}

#[test]
fn test_random_string_custom_charset() {
    let mut stream = RandomNumberStreamImpl::new(1).unwrap();
    let charset = "ABC123";
    let result = RandomValueGenerator::generate_random_string(8, charset, &mut stream);

    assert_eq!(result.len(), 8);
    for ch in result.chars() {
        assert!(charset.contains(ch));
    }
}

#[test]
fn test_generate_time_join_key() {
    let mut stream = RandomNumberStreamImpl::new(1).unwrap();
    let result = generate_time_join_key(&mut stream).unwrap();

    assert!(result >= 0 && result < 86400, "Time key should be valid seconds in day");
}

#[test]
fn test_generate_time_join_key_deterministic() {
    let mut stream1 = RandomNumberStreamImpl::new(1).unwrap();
    let mut stream2 = RandomNumberStreamImpl::new(1).unwrap();

    let result1 = generate_time_join_key(&mut stream1).unwrap();
    let result2 = generate_time_join_key(&mut stream2).unwrap();

    assert_eq!(result1, result2, "Same seed should produce same time key");
}

#[test]
fn test_catalog_page_join_key_is_stubbed() {
    let mut stream = RandomNumberStreamImpl::new(1).unwrap();

    let result = generate_catalog_page_join_key(&mut stream, 2451545);
    assert!(result.is_err(), "Catalog page join should be stubbed");

    if let Err(e) = result {
        assert!(
            e.message().contains("CatalogPageDistributions"),
            "Error should mention missing distribution"
        );
    }
}
