use vstd::prelude::*;
use crate::config::table::Table;
use crate::types::date::{julian_day_number, trunc_div};

verus! {

/// Number of rows of a table at scale factor 1.
pub open spec fn base_row_count_spec(table: Table) -> int {
    match table {
        Table::CallCenter => 6,
        Table::CatalogPage => 11718,
        Table::CatalogReturns => 144,
        Table::CatalogSales => 1441548,
        Table::Customer => 100000,
        Table::CustomerAddress => 50000,
        Table::CustomerDemographics => 1920800,
        Table::DateDim => 73049,
        Table::HouseholdDemographics => 7200,
        Table::IncomeBand => 20,
        Table::Inventory => 11745000,
        Table::Item => 17999,
        Table::Promotion => 300,
        Table::Reason => 35,
        Table::ShipMode => 20,
        Table::Store => 12,
        Table::StoreReturns => 287514,
        Table::StoreSales => 2879987,
        Table::TimeDim => 86400,
        Table::Warehouse => 5,
        Table::WebPage => 60,
        Table::WebReturns => 71763,
        Table::WebSales => 719384,
        Table::WebSite => 30,
        Table::DbgenVersion => 1,
        Table::SBrand => 1000,
        Table::SCustomerAddress => 50000,
        Table::SCallCenter => 6,
        Table::SCatalog => 100,
        Table::SCatalogOrder => 100000,
        Table::SCatalogOrderLineitem => 500000,
        Table::SCatalogPage => 11718,
        Table::SCatalogPromotionalItem => 10000,
        Table::SCatalogReturns => 144,
        Table::SCategory => 100,
        Table::SClass => 100,
        Table::SCompany => 100,
        Table::SCustomer => 100000,
        Table::SInventory => 1000000,
    }
}

/// Number of rows of a table at scale factor 1.
pub fn get_base_row_count(table: Table) -> (r: i64)
    ensures
        r == base_row_count_spec(table),
{
    match table {
        Table::CallCenter => 6,
        Table::CatalogPage => 11718,
        Table::CatalogReturns => 144,
        Table::CatalogSales => 1441548,
        Table::Customer => 100000,
        Table::CustomerAddress => 50000,
        Table::CustomerDemographics => 1920800,
        Table::DateDim => 73049,
        Table::HouseholdDemographics => 7200,
        Table::IncomeBand => 20,
        Table::Inventory => 11745000,
        Table::Item => 17999,
        Table::Promotion => 300,
        Table::Reason => 35,
        Table::ShipMode => 20,
        Table::Store => 12,
        Table::StoreReturns => 287514,
        Table::StoreSales => 2879987,
        Table::TimeDim => 86400,
        Table::Warehouse => 5,
        Table::WebPage => 60,
        Table::WebReturns => 71763,
        Table::WebSales => 719384,
        Table::WebSite => 30,
        Table::DbgenVersion => 1,
        Table::SBrand => 1000,
        Table::SCustomerAddress => 50000,
        Table::SCallCenter => 6,
        Table::SCatalog => 100,
        Table::SCatalogOrder => 100000,
        Table::SCatalogOrderLineitem => 500000,
        Table::SCatalogPage => 11718,
        Table::SCatalogPromotionalItem => 10000,
        Table::SCatalogReturns => 144,
        Table::SCategory => 100,
        Table::SClass => 100,
        Table::SCompany => 100,
        Table::SCustomer => 100000,
        Table::SInventory => 1000000,
    }
}

/// Number of distinct business keys among `row_count` rows. Rows of a table
/// that keeps history come in groups of six that hold three business keys
/// (one key with one revision, one with two, one with three); without
/// history every row is its own key.
pub open spec fn id_count_spec(row_count: int, keeps_history: bool) -> int {
    if keeps_history {
        let unique_count = trunc_div(row_count, 6) * 3;
        let rem = row_count - 6 * trunc_div(row_count, 6);
        if rem == 1 {
            unique_count + 1
        } else if rem == 2 || rem == 3 {
            unique_count + 2
        } else if rem == 4 || rem == 5 {
            unique_count + 3
        } else {
            unique_count
        }
    } else {
        row_count
    }
}

/// The base row counts hang together: each source table has the rows of
/// the table it updates; there are two customers per customer address; the
/// time table has a row per second of a day and the date table one per day
/// of 1900 to 2099; a customer demographic row per combination of gender
/// (2), marital status (5), education (7), purchase estimate (20), credit
/// rating (4) and three dependent counts (7 each); a household demographic
/// row per income band and combination of buy potential (6), dependents
/// (10) and vehicles (6); and an inventory row per warehouse, distinct item
/// and week (261 weeks).
pub proof fn lemma_base_row_counts_agree()
    ensures
        base_row_count_spec(Table::SCallCenter) == base_row_count_spec(Table::CallCenter),
        base_row_count_spec(Table::SCatalogPage) == base_row_count_spec(Table::CatalogPage),
        base_row_count_spec(Table::SCatalogReturns) == base_row_count_spec(Table::CatalogReturns),
        base_row_count_spec(Table::SCustomer) == base_row_count_spec(Table::Customer),
        base_row_count_spec(Table::SCustomerAddress) == base_row_count_spec(
            Table::CustomerAddress,
        ),
        base_row_count_spec(Table::Customer) == 2 * base_row_count_spec(Table::CustomerAddress),
        base_row_count_spec(Table::TimeDim) == 24 * 60 * 60,
        base_row_count_spec(Table::DateDim) == julian_day_number(2100, 1, 1) - julian_day_number(
            1900,
            1,
            1,
        ),
        base_row_count_spec(Table::CustomerDemographics) == 2 * 5 * 7 * 20 * 4 * 7 * 7 * 7,
        base_row_count_spec(Table::HouseholdDemographics) == base_row_count_spec(
            Table::IncomeBand,
        ) * 6 * 10 * 6,
        base_row_count_spec(Table::Inventory) == base_row_count_spec(Table::Warehouse)
            * id_count_spec(base_row_count_spec(Table::Item), true) * 261,
{
}

/// Number of distinct business keys among `row_count` rows of a table.
pub fn id_count_for_row_count(row_count: i64, keeps_history: bool) -> (r: i64)
    ensures
        r == id_count_spec(row_count as int, keeps_history),
        row_count >= 0 ==> 0 <= r <= row_count,
{
    if keeps_history {
        let unique_count = (row_count / 6) * 3;
        match row_count % 6 {
            1 => unique_count + 1,
            2 | 3 => unique_count + 2,
            4 | 5 => unique_count + 3,
            _ => unique_count,
        }
    } else {
        row_count
    }
}

} // verus!
