pub mod call_center;
pub mod column;
pub mod column_type;

pub use call_center::CallCenterColumn;
pub use column_type::{ColumnType, ColumnTypeBase};

use vstd::prelude::*;

verus! {

/// The tables of the data set, as the columns refer to them, including
/// the source table of store revisions.
#[derive(Debug, Clone, Copy, PartialEq, Eq, Hash, Structural)]
pub enum Table {
    CallCenter,
    CatalogPage,
    CatalogReturns,
    CatalogSales,
    Warehouse,
    ShipMode,
    Reason,
    IncomeBand,
    HouseholdDemographics,
    CustomerDemographics,
    CustomerAddress,
    Customer,
    DateDim,
    TimeDim,
    Item,
    Promotion,
    Store,
    StoreReturns,
    StoreSales,
    WebPage,
    WebReturns,
    WebSales,
    WebSite,
    DbgenVersion,
    Inventory,
    SStore,
}

/// The name of a table, in lower case.
pub open spec fn table_name(t: Table) -> Seq<char> {
    match t {
        Table::CallCenter => "call_center"@,
        Table::CatalogPage => "catalog_page"@,
        Table::CatalogReturns => "catalog_returns"@,
        Table::CatalogSales => "catalog_sales"@,
        Table::Warehouse => "warehouse"@,
        Table::ShipMode => "ship_mode"@,
        Table::Reason => "reason"@,
        Table::IncomeBand => "income_band"@,
        Table::HouseholdDemographics => "household_demographics"@,
        Table::CustomerDemographics => "customer_demographics"@,
        Table::CustomerAddress => "customer_address"@,
        Table::Customer => "customer"@,
        Table::DateDim => "date_dim"@,
        Table::TimeDim => "time_dim"@,
        Table::Item => "item"@,
        Table::Promotion => "promotion"@,
        Table::Store => "store"@,
        Table::StoreReturns => "store_returns"@,
        Table::StoreSales => "store_sales"@,
        Table::WebPage => "web_page"@,
        Table::WebReturns => "web_returns"@,
        Table::WebSales => "web_sales"@,
        Table::WebSite => "web_site"@,
        Table::DbgenVersion => "dbgen_version"@,
        Table::Inventory => "inventory"@,
        Table::SStore => "s_store"@,
    }
}

impl Table {
    /// The name of the table in lower case.
    pub fn get_name(&self) -> (r: &'static str)
        ensures
            r@ == table_name(*self),
    {
        match self {
            Table::CallCenter => "call_center",
            Table::CatalogPage => "catalog_page",
            Table::CatalogReturns => "catalog_returns",
            Table::CatalogSales => "catalog_sales",
            Table::Warehouse => "warehouse",
            Table::ShipMode => "ship_mode",
            Table::Reason => "reason",
            Table::IncomeBand => "income_band",
            Table::HouseholdDemographics => "household_demographics",
            Table::CustomerDemographics => "customer_demographics",
            Table::CustomerAddress => "customer_address",
            Table::Customer => "customer",
            Table::DateDim => "date_dim",
            Table::TimeDim => "time_dim",
            Table::Item => "item",
            Table::Promotion => "promotion",
            Table::Store => "store",
            Table::StoreReturns => "store_returns",
            Table::StoreSales => "store_sales",
            Table::WebPage => "web_page",
            Table::WebReturns => "web_returns",
            Table::WebSales => "web_sales",
            Table::WebSite => "web_site",
            Table::DbgenVersion => "dbgen_version",
            Table::Inventory => "inventory",
            Table::SStore => "s_store",
        }
    }

    /// The text of the table when it is displayed: its name.
    pub fn to_string(&self) -> (r: String)
        ensures
            r@ == table_name(*self),
    {
        String::from_str(self.get_name())
    }
}

/// A user-visible column of a table.
pub trait Column {
    /// The table the column belongs to.
    spec fn table_spec(&self) -> Table;

    /// The name of the column, in lower case.
    spec fn name_spec(&self) -> Seq<char>;

    /// The type of the column.
    spec fn type_spec(&self) -> ColumnType;

    /// The position of the column in its table, from 0.
    spec fn position_spec(&self) -> int;

    /// The table the column belongs to.
    fn get_table(&self) -> (r: Table)
        ensures
            r == self.table_spec(),
    ;

    /// The name of the column, in lower case.
    fn get_name(&self) -> (r: &'static str)
        ensures
            r@ == self.name_spec(),
    ;

    /// The type of the column.
    fn get_type(&self) -> (r: ColumnType)
        ensures
            r == self.type_spec(),
    ;

    /// The position of the column in its table, from 0.
    fn get_position(&self) -> (r: i32)
        ensures
            r == self.position_spec(),
    ;
}


/// A user-visible column of any of the tables that describe their columns.
#[derive(Debug, Clone, Copy, PartialEq, Eq, Hash, Structural)]
pub enum TableColumn {
    CallCenter(CallCenterColumn),
}

impl Column for TableColumn {
    open spec fn table_spec(&self) -> Table {
        match self {
            TableColumn::CallCenter(c) => c.table_spec(),
        }
    }

    open spec fn name_spec(&self) -> Seq<char> {
        match self {
            TableColumn::CallCenter(c) => c.name_spec(),
        }
    }

    open spec fn type_spec(&self) -> ColumnType {
        match self {
            TableColumn::CallCenter(c) => c.type_spec(),
        }
    }

    open spec fn position_spec(&self) -> int {
        match self {
            TableColumn::CallCenter(c) => c.position_spec(),
        }
    }

    fn get_table(&self) -> (r: Table) {
        match self {
            TableColumn::CallCenter(c) => c.get_table(),
        }
    }

    fn get_name(&self) -> (r: &'static str) {
        match self {
            TableColumn::CallCenter(c) => c.get_name(),
        }
    }

    fn get_type(&self) -> (r: ColumnType) {
        match self {
            TableColumn::CallCenter(c) => c.get_type(),
        }
    }

    fn get_position(&self) -> (r: i32) {
        match self {
            TableColumn::CallCenter(c) => c.get_position(),
        }
    }
}

} // verus!
