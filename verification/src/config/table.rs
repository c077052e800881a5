use vstd::prelude::*;

verus! {

/// The tables a data set is scaled over, the generated tables and the
/// source tables from which changes are derived.
#[derive(Debug, Clone, Copy, PartialEq, Eq, Hash, Structural)]
pub enum Table {
    CallCenter,
    CatalogPage,
    CatalogReturns,
    CatalogSales,
    Customer,
    CustomerAddress,
    CustomerDemographics,
    DateDim,
    HouseholdDemographics,
    IncomeBand,
    Inventory,
    Item,
    Promotion,
    Reason,
    ShipMode,
    Store,
    StoreReturns,
    StoreSales,
    TimeDim,
    Warehouse,
    WebPage,
    WebReturns,
    WebSales,
    WebSite,
    DbgenVersion,
    SBrand,
    SCustomerAddress,
    SCallCenter,
    SCatalog,
    SCatalogOrder,
    SCatalogOrderLineitem,
    SCatalogPage,
    SCatalogPromotionalItem,
    SCatalogReturns,
    SCategory,
    SClass,
    SCompany,
    SCustomer,
    SInventory,
}

impl Table {
    /// The tables whose rows are revisions of slowly changing dimensions.
    pub open spec fn keeps_history_spec(self) -> bool {
        match self {
            Table::CallCenter | Table::Item | Table::Store | Table::WebPage | Table::WebSite => true,
            _ => false,
        }
    }

    /// Whether the rows of this table are revisions that keep history.
    pub fn keeps_history(&self) -> (r: bool)
        ensures
            r == self.keeps_history_spec(),
    {
        match self {
            Table::CallCenter | Table::Item | Table::Store | Table::WebPage | Table::WebSite => true,
            _ => false,
        }
    }
}

} // verus!
