pub mod date;
pub mod decimal;

pub use date::Date;
pub use decimal::Decimal;
