use vstd::prelude::*;
use crate::column::Table;
use crate::generator::GeneratorColumn;

verus! {

/// The columns the generator of the income band table draws values for, with
/// their global column numbers and the number of random values each draws
/// per row.
#[derive(Debug, Clone, Copy, PartialEq, Eq, Hash, Structural)]
pub enum IncomeBandGeneratorColumn {
    IbIncomeBandId,
    IbLowerBound,
    IbUpperBound,
    IbNulls,
}

/// Number of generator columns of the income band table.
pub const INCOME_BAND_GENERATOR_COLUMN_COUNT: usize = 4;

/// Global column number of the first generator column of the income band table.
pub const INCOME_BAND_FIRST_GLOBAL_COLUMN: i32 = 194;

impl IncomeBandGeneratorColumn {
    /// The column at a position, from 0.
    pub open spec fn at_position(i: int) -> Option<Self> {
        if i == 0 {
            Some(IncomeBandGeneratorColumn::IbIncomeBandId)
        } else if i == 1 {
            Some(IncomeBandGeneratorColumn::IbLowerBound)
        } else if i == 2 {
            Some(IncomeBandGeneratorColumn::IbUpperBound)
        } else if i == 3 {
            Some(IncomeBandGeneratorColumn::IbNulls)
        } else {
            None
        }
    }

    /// The position of this column, from 0.
    pub open spec fn position(self) -> int {
        match self {
            IncomeBandGeneratorColumn::IbIncomeBandId => 0,
            IncomeBandGeneratorColumn::IbLowerBound => 1,
            IncomeBandGeneratorColumn::IbUpperBound => 2,
            IncomeBandGeneratorColumn::IbNulls => 3,
        }
    }

    /// Random values this column draws per row.
    pub open spec fn seeds(self) -> int {
        match self {
            IncomeBandGeneratorColumn::IbIncomeBandId => 1,
            IncomeBandGeneratorColumn::IbLowerBound => 1,
            IncomeBandGeneratorColumn::IbUpperBound => 1,
            IncomeBandGeneratorColumn::IbNulls => 2,
        }
    }

    /// The column at a position, from 0, if there is one.
    pub fn from_position(i: usize) -> (r: Option<Self>)
        ensures
            r == Self::at_position(i as int),
    {
        match i {
            0 => Some(IncomeBandGeneratorColumn::IbIncomeBandId),
            1 => Some(IncomeBandGeneratorColumn::IbLowerBound),
            2 => Some(IncomeBandGeneratorColumn::IbUpperBound),
            3 => Some(IncomeBandGeneratorColumn::IbNulls),
            _ => None,
        }
    }

    /// All columns, in table order.
    pub fn values() -> (r: Vec<Self>)
        ensures
            r@.len() == INCOME_BAND_GENERATOR_COLUMN_COUNT,
            forall|i: int| 0 <= i < r@.len() ==> Some(#[trigger] r@[i]) == Self::at_position(i),
    {
        let mut v: Vec<Self> = Vec::new();
        let mut i: usize = 0;
        while i < INCOME_BAND_GENERATOR_COLUMN_COUNT
            invariant
                i <= INCOME_BAND_GENERATOR_COLUMN_COUNT,
                v@.len() == i,
                forall|j: int| 0 <= j < i ==> Some(#[trigger] v@[j]) == Self::at_position(j),
            decreases INCOME_BAND_GENERATOR_COLUMN_COUNT - i,
        {
            let c = Self::from_position(i).unwrap();
            v.push(c);
            i += 1;
        }
        v
    }
}

impl GeneratorColumn for IncomeBandGeneratorColumn {
    open spec fn table_spec(&self) -> Table {
        Table::IncomeBand
    }

    open spec fn global_column_number_spec(&self) -> int {
        INCOME_BAND_FIRST_GLOBAL_COLUMN + self.position()
    }

    open spec fn seeds_per_row_spec(&self) -> int {
        self.seeds()
    }

    fn get_table(&self) -> (r: Table) {
        Table::IncomeBand
    }

    fn get_global_column_number(&self) -> (r: i32) {
        match self {
            IncomeBandGeneratorColumn::IbIncomeBandId => 194,
            IncomeBandGeneratorColumn::IbLowerBound => 195,
            IncomeBandGeneratorColumn::IbUpperBound => 196,
            IncomeBandGeneratorColumn::IbNulls => 197,
        }
    }

    fn get_seeds_per_row(&self) -> (r: i32) {
        match self {
            IncomeBandGeneratorColumn::IbIncomeBandId => 1,
            IncomeBandGeneratorColumn::IbLowerBound => 1,
            IncomeBandGeneratorColumn::IbUpperBound => 1,
            IncomeBandGeneratorColumn::IbNulls => 2,
        }
    }
}

} // verus!
