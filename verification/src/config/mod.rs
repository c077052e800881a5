pub mod scaling;
pub mod table;

pub use table::Table;
