use vstd::prelude::*;
use crate::column::Table;
use crate::generator::GeneratorColumn;

verus! {

/// The columns the generator of the warehouse table draws values for, with
/// their global column numbers and the number of random values each draws
/// per row.
#[derive(Debug, Clone, Copy, PartialEq, Eq, Hash, Structural)]
pub enum WarehouseGeneratorColumn {
    WWarehouseSk,
    WWarehouseId,
    WWarehouseName,
    WWarehouseSqFt,
    WAddressStreetNum,
    WAddressStreetName1,
    WAddressStreetType,
    WAddressSuiteNum,
    WAddressCity,
    WAddressCounty,
    WAddressState,
    WAddressZip,
    WAddressCountry,
    WAddressGmtOffset,
    WNulls,
    WWarehouseAddress,
}

/// Number of generator columns of the warehouse table.
pub const WAREHOUSE_GENERATOR_COLUMN_COUNT: usize = 16;

/// Global column number of the first generator column of the warehouse table.
pub const WAREHOUSE_FIRST_GLOBAL_COLUMN: i32 = 351;

impl WarehouseGeneratorColumn {
    /// The column at a position, from 0.
    pub open spec fn at_position(i: int) -> Option<Self> {
        if i == 0 {
            Some(WarehouseGeneratorColumn::WWarehouseSk)
        } else if i == 1 {
            Some(WarehouseGeneratorColumn::WWarehouseId)
        } else if i == 2 {
            Some(WarehouseGeneratorColumn::WWarehouseName)
        } else if i == 3 {
            Some(WarehouseGeneratorColumn::WWarehouseSqFt)
        } else if i == 4 {
            Some(WarehouseGeneratorColumn::WAddressStreetNum)
        } else if i == 5 {
            Some(WarehouseGeneratorColumn::WAddressStreetName1)
        } else if i == 6 {
            Some(WarehouseGeneratorColumn::WAddressStreetType)
        } else if i == 7 {
            Some(WarehouseGeneratorColumn::WAddressSuiteNum)
        } else if i == 8 {
            Some(WarehouseGeneratorColumn::WAddressCity)
        } else if i == 9 {
            Some(WarehouseGeneratorColumn::WAddressCounty)
        } else if i == 10 {
            Some(WarehouseGeneratorColumn::WAddressState)
        } else if i == 11 {
            Some(WarehouseGeneratorColumn::WAddressZip)
        } else if i == 12 {
            Some(WarehouseGeneratorColumn::WAddressCountry)
        } else if i == 13 {
            Some(WarehouseGeneratorColumn::WAddressGmtOffset)
        } else if i == 14 {
            Some(WarehouseGeneratorColumn::WNulls)
        } else if i == 15 {
            Some(WarehouseGeneratorColumn::WWarehouseAddress)
        } else {
            None
        }
    }

    /// The position of this column, from 0.
    pub open spec fn position(self) -> int {
        match self {
            WarehouseGeneratorColumn::WWarehouseSk => 0,
            WarehouseGeneratorColumn::WWarehouseId => 1,
            WarehouseGeneratorColumn::WWarehouseName => 2,
            WarehouseGeneratorColumn::WWarehouseSqFt => 3,
            WarehouseGeneratorColumn::WAddressStreetNum => 4,
            WarehouseGeneratorColumn::WAddressStreetName1 => 5,
            WarehouseGeneratorColumn::WAddressStreetType => 6,
            WarehouseGeneratorColumn::WAddressSuiteNum => 7,
            WarehouseGeneratorColumn::WAddressCity => 8,
            WarehouseGeneratorColumn::WAddressCounty => 9,
            WarehouseGeneratorColumn::WAddressState => 10,
            WarehouseGeneratorColumn::WAddressZip => 11,
            WarehouseGeneratorColumn::WAddressCountry => 12,
            WarehouseGeneratorColumn::WAddressGmtOffset => 13,
            WarehouseGeneratorColumn::WNulls => 14,
            WarehouseGeneratorColumn::WWarehouseAddress => 15,
        }
    }

    /// Random values this column draws per row.
    pub open spec fn seeds(self) -> int {
        match self {
            WarehouseGeneratorColumn::WWarehouseSk => 1,
            WarehouseGeneratorColumn::WWarehouseId => 1,
            WarehouseGeneratorColumn::WWarehouseName => 80,
            WarehouseGeneratorColumn::WWarehouseSqFt => 1,
            WarehouseGeneratorColumn::WAddressStreetNum => 1,
            WarehouseGeneratorColumn::WAddressStreetName1 => 1,
            WarehouseGeneratorColumn::WAddressStreetType => 1,
            WarehouseGeneratorColumn::WAddressSuiteNum => 1,
            WarehouseGeneratorColumn::WAddressCity => 1,
            WarehouseGeneratorColumn::WAddressCounty => 1,
            WarehouseGeneratorColumn::WAddressState => 1,
            WarehouseGeneratorColumn::WAddressZip => 1,
            WarehouseGeneratorColumn::WAddressCountry => 1,
            WarehouseGeneratorColumn::WAddressGmtOffset => 1,
            WarehouseGeneratorColumn::WNulls => 2,
            WarehouseGeneratorColumn::WWarehouseAddress => 7,
        }
    }

    /// The column at a position, from 0, if there is one.
    pub fn from_position(i: usize) -> (r: Option<Self>)
        ensures
            r == Self::at_position(i as int),
    {
        match i {
            0 => Some(WarehouseGeneratorColumn::WWarehouseSk),
            1 => Some(WarehouseGeneratorColumn::WWarehouseId),
            2 => Some(WarehouseGeneratorColumn::WWarehouseName),
            3 => Some(WarehouseGeneratorColumn::WWarehouseSqFt),
            4 => Some(WarehouseGeneratorColumn::WAddressStreetNum),
            5 => Some(WarehouseGeneratorColumn::WAddressStreetName1),
            6 => Some(WarehouseGeneratorColumn::WAddressStreetType),
            7 => Some(WarehouseGeneratorColumn::WAddressSuiteNum),
            8 => Some(WarehouseGeneratorColumn::WAddressCity),
            9 => Some(WarehouseGeneratorColumn::WAddressCounty),
            10 => Some(WarehouseGeneratorColumn::WAddressState),
            11 => Some(WarehouseGeneratorColumn::WAddressZip),
            12 => Some(WarehouseGeneratorColumn::WAddressCountry),
            13 => Some(WarehouseGeneratorColumn::WAddressGmtOffset),
            14 => Some(WarehouseGeneratorColumn::WNulls),
            15 => Some(WarehouseGeneratorColumn::WWarehouseAddress),
            _ => None,
        }
    }

    /// All columns, in table order.
    pub fn values() -> (r: Vec<Self>)
        ensures
            r@.len() == WAREHOUSE_GENERATOR_COLUMN_COUNT,
            forall|i: int| 0 <= i < r@.len() ==> Some(#[trigger] r@[i]) == Self::at_position(i),
    {
        let mut v: Vec<Self> = Vec::new();
        let mut i: usize = 0;
        while i < WAREHOUSE_GENERATOR_COLUMN_COUNT
            invariant
                i <= WAREHOUSE_GENERATOR_COLUMN_COUNT,
                v@.len() == i,
                forall|j: int| 0 <= j < i ==> Some(#[trigger] v@[j]) == Self::at_position(j),
            decreases WAREHOUSE_GENERATOR_COLUMN_COUNT - i,
        {
            let c = Self::from_position(i).unwrap();
            v.push(c);
            i += 1;
        }
        v
    }
}

impl GeneratorColumn for WarehouseGeneratorColumn {
    open spec fn table_spec(&self) -> Table {
        Table::Warehouse
    }

    open spec fn global_column_number_spec(&self) -> int {
        WAREHOUSE_FIRST_GLOBAL_COLUMN + self.position()
    }

    open spec fn seeds_per_row_spec(&self) -> int {
        self.seeds()
    }

    fn get_table(&self) -> (r: Table) {
        Table::Warehouse
    }

    fn get_global_column_number(&self) -> (r: i32) {
        match self {
            WarehouseGeneratorColumn::WWarehouseSk => 351,
            WarehouseGeneratorColumn::WWarehouseId => 352,
            WarehouseGeneratorColumn::WWarehouseName => 353,
            WarehouseGeneratorColumn::WWarehouseSqFt => 354,
            WarehouseGeneratorColumn::WAddressStreetNum => 355,
            WarehouseGeneratorColumn::WAddressStreetName1 => 356,
            WarehouseGeneratorColumn::WAddressStreetType => 357,
            WarehouseGeneratorColumn::WAddressSuiteNum => 358,
            WarehouseGeneratorColumn::WAddressCity => 359,
            WarehouseGeneratorColumn::WAddressCounty => 360,
            WarehouseGeneratorColumn::WAddressState => 361,
            WarehouseGeneratorColumn::WAddressZip => 362,
            WarehouseGeneratorColumn::WAddressCountry => 363,
            WarehouseGeneratorColumn::WAddressGmtOffset => 364,
            WarehouseGeneratorColumn::WNulls => 365,
            WarehouseGeneratorColumn::WWarehouseAddress => 366,
        }
    }

    fn get_seeds_per_row(&self) -> (r: i32) {
        match self {
            WarehouseGeneratorColumn::WWarehouseSk => 1,
            WarehouseGeneratorColumn::WWarehouseId => 1,
            WarehouseGeneratorColumn::WWarehouseName => 80,
            WarehouseGeneratorColumn::WWarehouseSqFt => 1,
            WarehouseGeneratorColumn::WAddressStreetNum => 1,
            WarehouseGeneratorColumn::WAddressStreetName1 => 1,
            WarehouseGeneratorColumn::WAddressStreetType => 1,
            WarehouseGeneratorColumn::WAddressSuiteNum => 1,
            WarehouseGeneratorColumn::WAddressCity => 1,
            WarehouseGeneratorColumn::WAddressCounty => 1,
            WarehouseGeneratorColumn::WAddressState => 1,
            WarehouseGeneratorColumn::WAddressZip => 1,
            WarehouseGeneratorColumn::WAddressCountry => 1,
            WarehouseGeneratorColumn::WAddressGmtOffset => 1,
            WarehouseGeneratorColumn::WNulls => 2,
            WarehouseGeneratorColumn::WWarehouseAddress => 7,
        }
    }
}

} // verus!
