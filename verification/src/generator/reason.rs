use vstd::prelude::*;
use crate::column::Table;
use crate::generator::GeneratorColumn;

verus! {

/// The columns the generator of the reason table draws values for, with
/// their global column numbers and the number of random values each draws
/// per row.
#[derive(Debug, Clone, Copy, PartialEq, Eq, Hash, Structural)]
pub enum ReasonGeneratorColumn {
    RReasonSk,
    RReasonId,
    RReasonDescription,
    RNulls,
}

/// Number of generator columns of the reason table.
pub const REASON_GENERATOR_COLUMN_COUNT: usize = 4;

/// Global column number of the first generator column of the reason table.
pub const REASON_FIRST_GLOBAL_COLUMN: i32 = 248;

impl ReasonGeneratorColumn {
    /// The column at a position, from 0.
    pub open spec fn at_position(i: int) -> Option<Self> {
        if i == 0 {
            Some(ReasonGeneratorColumn::RReasonSk)
        } else if i == 1 {
            Some(ReasonGeneratorColumn::RReasonId)
        } else if i == 2 {
            Some(ReasonGeneratorColumn::RReasonDescription)
        } else if i == 3 {
            Some(ReasonGeneratorColumn::RNulls)
        } else {
            None
        }
    }

    /// The position of this column, from 0.
    pub open spec fn position(self) -> int {
        match self {
            ReasonGeneratorColumn::RReasonSk => 0,
            ReasonGeneratorColumn::RReasonId => 1,
            ReasonGeneratorColumn::RReasonDescription => 2,
            ReasonGeneratorColumn::RNulls => 3,
        }
    }

    /// Random values this column draws per row.
    pub open spec fn seeds(self) -> int {
        match self {
            ReasonGeneratorColumn::RReasonSk => 1,
            ReasonGeneratorColumn::RReasonId => 1,
            ReasonGeneratorColumn::RReasonDescription => 1,
            ReasonGeneratorColumn::RNulls => 2,
        }
    }

    /// The column at a position, from 0, if there is one.
    pub fn from_position(i: usize) -> (r: Option<Self>)
        ensures
            r == Self::at_position(i as int),
    {
        match i {
            0 => Some(ReasonGeneratorColumn::RReasonSk),
            1 => Some(ReasonGeneratorColumn::RReasonId),
            2 => Some(ReasonGeneratorColumn::RReasonDescription),
            3 => Some(ReasonGeneratorColumn::RNulls),
            _ => None,
        }
    }

    /// All columns, in table order.
    pub fn values() -> (r: Vec<Self>)
        ensures
            r@.len() == REASON_GENERATOR_COLUMN_COUNT,
            forall|i: int| 0 <= i < r@.len() ==> Some(#[trigger] r@[i]) == Self::at_position(i),
    {
        let mut v: Vec<Self> = Vec::new();
        let mut i: usize = 0;
        while i < REASON_GENERATOR_COLUMN_COUNT
            invariant
                i <= REASON_GENERATOR_COLUMN_COUNT,
                v@.len() == i,
                forall|j: int| 0 <= j < i ==> Some(#[trigger] v@[j]) == Self::at_position(j),
            decreases REASON_GENERATOR_COLUMN_COUNT - i,
        {
            let c = Self::from_position(i).unwrap();
            v.push(c);
            i += 1;
        }
        v
    }
}

impl GeneratorColumn for ReasonGeneratorColumn {
    open spec fn table_spec(&self) -> Table {
        Table::Reason
    }

    open spec fn global_column_number_spec(&self) -> int {
        REASON_FIRST_GLOBAL_COLUMN + self.position()
    }

    open spec fn seeds_per_row_spec(&self) -> int {
        self.seeds()
    }

    fn get_table(&self) -> (r: Table) {
        Table::Reason
    }

    fn get_global_column_number(&self) -> (r: i32) {
        match self {
            ReasonGeneratorColumn::RReasonSk => 248,
            ReasonGeneratorColumn::RReasonId => 249,
            ReasonGeneratorColumn::RReasonDescription => 250,
            ReasonGeneratorColumn::RNulls => 251,
        }
    }

    fn get_seeds_per_row(&self) -> (r: i32) {
        match self {
            ReasonGeneratorColumn::RReasonSk => 1,
            ReasonGeneratorColumn::RReasonId => 1,
            ReasonGeneratorColumn::RReasonDescription => 1,
            ReasonGeneratorColumn::RNulls => 2,
        }
    }
}

} // verus!
