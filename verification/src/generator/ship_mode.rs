use vstd::prelude::*;
use crate::column::Table;
use crate::generator::GeneratorColumn;

verus! {

/// The columns the generator of the ship mode table draws values for, with
/// their global column numbers and the number of random values each draws
/// per row.
#[derive(Debug, Clone, Copy, PartialEq, Eq, Hash, Structural)]
pub enum ShipModeGeneratorColumn {
    SmShipModeSk,
    SmShipModeId,
    SmType,
    SmCode,
    SmContract,
    SmCarrier,
    SmNulls,
}

/// Number of generator columns of the ship mode table.
pub const SHIP_MODE_GENERATOR_COLUMN_COUNT: usize = 7;

/// Global column number of the first generator column of the ship mode table.
pub const SHIP_MODE_FIRST_GLOBAL_COLUMN: i32 = 252;

impl ShipModeGeneratorColumn {
    /// The column at a position, from 0.
    pub open spec fn at_position(i: int) -> Option<Self> {
        if i == 0 {
            Some(ShipModeGeneratorColumn::SmShipModeSk)
        } else if i == 1 {
            Some(ShipModeGeneratorColumn::SmShipModeId)
        } else if i == 2 {
            Some(ShipModeGeneratorColumn::SmType)
        } else if i == 3 {
            Some(ShipModeGeneratorColumn::SmCode)
        } else if i == 4 {
            Some(ShipModeGeneratorColumn::SmContract)
        } else if i == 5 {
            Some(ShipModeGeneratorColumn::SmCarrier)
        } else if i == 6 {
            Some(ShipModeGeneratorColumn::SmNulls)
        } else {
            None
        }
    }

    /// The position of this column, from 0.
    pub open spec fn position(self) -> int {
        match self {
            ShipModeGeneratorColumn::SmShipModeSk => 0,
            ShipModeGeneratorColumn::SmShipModeId => 1,
            ShipModeGeneratorColumn::SmType => 2,
            ShipModeGeneratorColumn::SmCode => 3,
            ShipModeGeneratorColumn::SmContract => 4,
            ShipModeGeneratorColumn::SmCarrier => 5,
            ShipModeGeneratorColumn::SmNulls => 6,
        }
    }

    /// Random values this column draws per row.
    pub open spec fn seeds(self) -> int {
        match self {
            ShipModeGeneratorColumn::SmShipModeSk => 1,
            ShipModeGeneratorColumn::SmShipModeId => 1,
            ShipModeGeneratorColumn::SmType => 1,
            ShipModeGeneratorColumn::SmCode => 1,
            ShipModeGeneratorColumn::SmContract => 21,
            ShipModeGeneratorColumn::SmCarrier => 1,
            ShipModeGeneratorColumn::SmNulls => 2,
        }
    }

    /// The column at a position, from 0, if there is one.
    pub fn from_position(i: usize) -> (r: Option<Self>)
        ensures
            r == Self::at_position(i as int),
    {
        match i {
            0 => Some(ShipModeGeneratorColumn::SmShipModeSk),
            1 => Some(ShipModeGeneratorColumn::SmShipModeId),
            2 => Some(ShipModeGeneratorColumn::SmType),
            3 => Some(ShipModeGeneratorColumn::SmCode),
            4 => Some(ShipModeGeneratorColumn::SmContract),
            5 => Some(ShipModeGeneratorColumn::SmCarrier),
            6 => Some(ShipModeGeneratorColumn::SmNulls),
            _ => None,
        }
    }

    /// All columns, in table order.
    pub fn values() -> (r: Vec<Self>)
        ensures
            r@.len() == SHIP_MODE_GENERATOR_COLUMN_COUNT,
            forall|i: int| 0 <= i < r@.len() ==> Some(#[trigger] r@[i]) == Self::at_position(i),
    {
        let mut v: Vec<Self> = Vec::new();
        let mut i: usize = 0;
        while i < SHIP_MODE_GENERATOR_COLUMN_COUNT
            invariant
                i <= SHIP_MODE_GENERATOR_COLUMN_COUNT,
                v@.len() == i,
                forall|j: int| 0 <= j < i ==> Some(#[trigger] v@[j]) == Self::at_position(j),
            decreases SHIP_MODE_GENERATOR_COLUMN_COUNT - i,
        {
            let c = Self::from_position(i).unwrap();
            v.push(c);
            i += 1;
        }
        v
    }
}

impl GeneratorColumn for ShipModeGeneratorColumn {
    open spec fn table_spec(&self) -> Table {
        Table::ShipMode
    }

    open spec fn global_column_number_spec(&self) -> int {
        SHIP_MODE_FIRST_GLOBAL_COLUMN + self.position()
    }

    open spec fn seeds_per_row_spec(&self) -> int {
        self.seeds()
    }

    fn get_table(&self) -> (r: Table) {
        Table::ShipMode
    }

    fn get_global_column_number(&self) -> (r: i32) {
        match self {
            ShipModeGeneratorColumn::SmShipModeSk => 252,
            ShipModeGeneratorColumn::SmShipModeId => 253,
            ShipModeGeneratorColumn::SmType => 254,
            ShipModeGeneratorColumn::SmCode => 255,
            ShipModeGeneratorColumn::SmContract => 256,
            ShipModeGeneratorColumn::SmCarrier => 257,
            ShipModeGeneratorColumn::SmNulls => 258,
        }
    }

    fn get_seeds_per_row(&self) -> (r: i32) {
        match self {
            ShipModeGeneratorColumn::SmShipModeSk => 1,
            ShipModeGeneratorColumn::SmShipModeId => 1,
            ShipModeGeneratorColumn::SmType => 1,
            ShipModeGeneratorColumn::SmCode => 1,
            ShipModeGeneratorColumn::SmContract => 21,
            ShipModeGeneratorColumn::SmCarrier => 1,
            ShipModeGeneratorColumn::SmNulls => 2,
        }
    }
}

} // verus!
