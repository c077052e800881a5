pub mod calendar_distribution;
pub mod english;
pub mod string_values;
pub mod utils;

pub use calendar_distribution::CalendarDistribution;
pub use english::EnglishDistributions;
pub use string_values::StringValuesDistribution;
pub use utils::WeightsBuilder;
