pub mod call_center;
pub mod customer_demographics;
pub mod income_band;
pub mod reason;
pub mod ship_mode;
pub mod warehouse;

pub use call_center::CallCenterGeneratorColumn;
pub use customer_demographics::CustomerDemographicsGeneratorColumn;
pub use income_band::IncomeBandGeneratorColumn;
pub use reason::ReasonGeneratorColumn;
pub use ship_mode::ShipModeGeneratorColumn;
pub use warehouse::WarehouseGeneratorColumn;

use vstd::prelude::*;
use crate::column::Table;

verus! {

/// A column as the generator sees it: the random values of every column are
/// drawn from a stream of its own, identified by the global column number.
pub trait GeneratorColumn {
    /// The table the column belongs to.
    spec fn table_spec(&self) -> Table;

    /// The number of the column among all columns of all tables.
    spec fn global_column_number_spec(&self) -> int;

    /// The number of random values the column draws per row.
    spec fn seeds_per_row_spec(&self) -> int;

    /// The table the column belongs to.
    fn get_table(&self) -> (r: Table)
        ensures
            r == self.table_spec(),
    ;

    /// The number of the column among all columns of all tables.
    fn get_global_column_number(&self) -> (r: i32)
        ensures
            r == self.global_column_number_spec(),
    ;

    /// The number of random values the column draws per row.
    fn get_seeds_per_row(&self) -> (r: i32)
        ensures
            r == self.seeds_per_row_spec(),
    ;
}

/// A generator column of any of the tables.
#[derive(Debug, Clone, Copy, PartialEq, Eq, Hash, Structural)]
pub enum TableGeneratorColumn {
    CallCenter(CallCenterGeneratorColumn),
    CustomerDemographics(CustomerDemographicsGeneratorColumn),
    IncomeBand(IncomeBandGeneratorColumn),
    Reason(ReasonGeneratorColumn),
    ShipMode(ShipModeGeneratorColumn),
    Warehouse(WarehouseGeneratorColumn),
}

impl GeneratorColumn for TableGeneratorColumn {
    open spec fn table_spec(&self) -> Table {
        match self {
            TableGeneratorColumn::CallCenter(c) => c.table_spec(),
            TableGeneratorColumn::CustomerDemographics(c) => c.table_spec(),
            TableGeneratorColumn::IncomeBand(c) => c.table_spec(),
            TableGeneratorColumn::Reason(c) => c.table_spec(),
            TableGeneratorColumn::ShipMode(c) => c.table_spec(),
            TableGeneratorColumn::Warehouse(c) => c.table_spec(),
        }
    }

    open spec fn global_column_number_spec(&self) -> int {
        match self {
            TableGeneratorColumn::CallCenter(c) => c.global_column_number_spec(),
            TableGeneratorColumn::CustomerDemographics(c) => c.global_column_number_spec(),
            TableGeneratorColumn::IncomeBand(c) => c.global_column_number_spec(),
            TableGeneratorColumn::Reason(c) => c.global_column_number_spec(),
            TableGeneratorColumn::ShipMode(c) => c.global_column_number_spec(),
            TableGeneratorColumn::Warehouse(c) => c.global_column_number_spec(),
        }
    }

    open spec fn seeds_per_row_spec(&self) -> int {
        match self {
            TableGeneratorColumn::CallCenter(c) => c.seeds_per_row_spec(),
            TableGeneratorColumn::CustomerDemographics(c) => c.seeds_per_row_spec(),
            TableGeneratorColumn::IncomeBand(c) => c.seeds_per_row_spec(),
            TableGeneratorColumn::Reason(c) => c.seeds_per_row_spec(),
            TableGeneratorColumn::ShipMode(c) => c.seeds_per_row_spec(),
            TableGeneratorColumn::Warehouse(c) => c.seeds_per_row_spec(),
        }
    }

    fn get_table(&self) -> (r: Table) {
        match self {
            TableGeneratorColumn::CallCenter(c) => c.get_table(),
            TableGeneratorColumn::CustomerDemographics(c) => c.get_table(),
            TableGeneratorColumn::IncomeBand(c) => c.get_table(),
            TableGeneratorColumn::Reason(c) => c.get_table(),
            TableGeneratorColumn::ShipMode(c) => c.get_table(),
            TableGeneratorColumn::Warehouse(c) => c.get_table(),
        }
    }

    fn get_global_column_number(&self) -> (r: i32) {
        match self {
            TableGeneratorColumn::CallCenter(c) => c.get_global_column_number(),
            TableGeneratorColumn::CustomerDemographics(c) => c.get_global_column_number(),
            TableGeneratorColumn::IncomeBand(c) => c.get_global_column_number(),
            TableGeneratorColumn::Reason(c) => c.get_global_column_number(),
            TableGeneratorColumn::ShipMode(c) => c.get_global_column_number(),
            TableGeneratorColumn::Warehouse(c) => c.get_global_column_number(),
        }
    }

    fn get_seeds_per_row(&self) -> (r: i32) {
        match self {
            TableGeneratorColumn::CallCenter(c) => c.get_seeds_per_row(),
            TableGeneratorColumn::CustomerDemographics(c) => c.get_seeds_per_row(),
            TableGeneratorColumn::IncomeBand(c) => c.get_seeds_per_row(),
            TableGeneratorColumn::Reason(c) => c.get_seeds_per_row(),
            TableGeneratorColumn::ShipMode(c) => c.get_seeds_per_row(),
            TableGeneratorColumn::Warehouse(c) => c.get_seeds_per_row(),
        }
    }

}

} // verus!
