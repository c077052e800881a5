pub mod business_key_generator;
pub mod column;
pub mod config;
pub mod distribution;
pub mod error;
pub mod generator;
pub mod join_key_utils;
pub mod random;
pub mod row;
pub mod scaling_info;
pub mod slowly_changing_dimension_utils;
pub mod table;
pub mod table_flags;
pub mod text;
pub mod types;

pub use error::TpcdsError;
