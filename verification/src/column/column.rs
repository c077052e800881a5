use vstd::prelude::*;
use crate::column::column_type::ColumnType;

verus! {

/// The tables whose columns were described first.
#[derive(Debug, Clone, Copy, PartialEq, Eq, Hash, Structural)]
pub enum Table {
    CallCenter,
    Warehouse,
    ShipMode,
    Reason,
    IncomeBand,
    HouseholdDemographics,
    CustomerDemographics,
    DateDim,
    TimeDim,
}

/// The name of a table, in lower case.
pub open spec fn table_name(t: Table) -> Seq<char> {
    match t {
        Table::CallCenter => "call_center"@,
        Table::Warehouse => "warehouse"@,
        Table::ShipMode => "ship_mode"@,
        Table::Reason => "reason"@,
        Table::IncomeBand => "income_band"@,
        Table::HouseholdDemographics => "household_demographics"@,
        Table::CustomerDemographics => "customer_demographics"@,
        Table::DateDim => "date_dim"@,
        Table::TimeDim => "time_dim"@,
    }
}

impl Table {
    /// The name of the table in lower case.
    pub fn get_name(&self) -> (r: &'static str)
        ensures
            r@ == table_name(*self),
    {
        match self {
            Table::CallCenter => "call_center",
            Table::Warehouse => "warehouse",
            Table::ShipMode => "ship_mode",
            Table::Reason => "reason",
            Table::IncomeBand => "income_band",
            Table::HouseholdDemographics => "household_demographics",
            Table::CustomerDemographics => "customer_demographics",
            Table::DateDim => "date_dim",
            Table::TimeDim => "time_dim",
        }
    }

    /// The text of the table when it is displayed: its name.
    pub fn to_string(&self) -> (r: String)
        ensures
            r@ == table_name(*self),
    {
        String::from_str(self.get_name())
    }
}

/// A user-visible column of one of these tables.
pub trait Column {
    /// The table the column belongs to.
    fn get_table(&self) -> Table;

    /// The name of the column, in lower case.
    fn get_name(&self) -> &'static str;

    /// The type of the column.
    fn get_type(&self) -> ColumnType;

    /// The position of the column in its table, from 0.
    fn get_position(&self) -> i32;
}

} // verus!
