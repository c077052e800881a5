pub mod abstract_row_generator;
pub mod table_row;

pub use abstract_row_generator::AbstractRowGenerator;
pub use table_row::TableRow;
