use vstd::prelude::*;
use crate::column::Table;
use crate::generator::GeneratorColumn;

verus! {

/// The columns the generator of the customer demographics table draws values for, with
/// their global column numbers and the number of random values each draws
/// per row.
#[derive(Debug, Clone, Copy, PartialEq, Eq, Hash, Structural)]
pub enum CustomerDemographicsGeneratorColumn {
    CdDemoSk,
    CdGender,
    CdMaritalStatus,
    CdEducationStatus,
    CdPurchaseEstimate,
    CdCreditRating,
    CdDepCount,
    CdDepEmployedCount,
    CdDepCollegeCount,
    CdNulls,
}

/// Number of generator columns of the customer demographics table.
pub const CUSTOMER_DEMOGRAPHICS_GENERATOR_COLUMN_COUNT: usize = 10;

/// Global column number of the first generator column of the customer demographics table.
pub const CUSTOMER_DEMOGRAPHICS_FIRST_GLOBAL_COLUMN: i32 = 149;

impl CustomerDemographicsGeneratorColumn {
    /// The column at a position, from 0.
    pub open spec fn at_position(i: int) -> Option<Self> {
        if i == 0 {
            Some(CustomerDemographicsGeneratorColumn::CdDemoSk)
        } else if i == 1 {
            Some(CustomerDemographicsGeneratorColumn::CdGender)
        } else if i == 2 {
            Some(CustomerDemographicsGeneratorColumn::CdMaritalStatus)
        } else if i == 3 {
            Some(CustomerDemographicsGeneratorColumn::CdEducationStatus)
        } else if i == 4 {
            Some(CustomerDemographicsGeneratorColumn::CdPurchaseEstimate)
        } else if i == 5 {
            Some(CustomerDemographicsGeneratorColumn::CdCreditRating)
        } else if i == 6 {
            Some(CustomerDemographicsGeneratorColumn::CdDepCount)
        } else if i == 7 {
            Some(CustomerDemographicsGeneratorColumn::CdDepEmployedCount)
        } else if i == 8 {
            Some(CustomerDemographicsGeneratorColumn::CdDepCollegeCount)
        } else if i == 9 {
            Some(CustomerDemographicsGeneratorColumn::CdNulls)
        } else {
            None
        }
    }

    /// The position of this column, from 0.
    pub open spec fn position(self) -> int {
        match self {
            CustomerDemographicsGeneratorColumn::CdDemoSk => 0,
            CustomerDemographicsGeneratorColumn::CdGender => 1,
            CustomerDemographicsGeneratorColumn::CdMaritalStatus => 2,
            CustomerDemographicsGeneratorColumn::CdEducationStatus => 3,
            CustomerDemographicsGeneratorColumn::CdPurchaseEstimate => 4,
            CustomerDemographicsGeneratorColumn::CdCreditRating => 5,
            CustomerDemographicsGeneratorColumn::CdDepCount => 6,
            CustomerDemographicsGeneratorColumn::CdDepEmployedCount => 7,
            CustomerDemographicsGeneratorColumn::CdDepCollegeCount => 8,
            CustomerDemographicsGeneratorColumn::CdNulls => 9,
        }
    }

    /// Random values this column draws per row.
    pub open spec fn seeds(self) -> int {
        match self {
            CustomerDemographicsGeneratorColumn::CdDemoSk => 1,
            CustomerDemographicsGeneratorColumn::CdGender => 1,
            CustomerDemographicsGeneratorColumn::CdMaritalStatus => 1,
            CustomerDemographicsGeneratorColumn::CdEducationStatus => 1,
            CustomerDemographicsGeneratorColumn::CdPurchaseEstimate => 1,
            CustomerDemographicsGeneratorColumn::CdCreditRating => 1,
            CustomerDemographicsGeneratorColumn::CdDepCount => 1,
            CustomerDemographicsGeneratorColumn::CdDepEmployedCount => 1,
            CustomerDemographicsGeneratorColumn::CdDepCollegeCount => 1,
            CustomerDemographicsGeneratorColumn::CdNulls => 2,
        }
    }

    /// The column at a position, from 0, if there is one.
    pub fn from_position(i: usize) -> (r: Option<Self>)
        ensures
            r == Self::at_position(i as int),
    {
        match i {
            0 => Some(CustomerDemographicsGeneratorColumn::CdDemoSk),
            1 => Some(CustomerDemographicsGeneratorColumn::CdGender),
            2 => Some(CustomerDemographicsGeneratorColumn::CdMaritalStatus),
            3 => Some(CustomerDemographicsGeneratorColumn::CdEducationStatus),
            4 => Some(CustomerDemographicsGeneratorColumn::CdPurchaseEstimate),
            5 => Some(CustomerDemographicsGeneratorColumn::CdCreditRating),
            6 => Some(CustomerDemographicsGeneratorColumn::CdDepCount),
            7 => Some(CustomerDemographicsGeneratorColumn::CdDepEmployedCount),
            8 => Some(CustomerDemographicsGeneratorColumn::CdDepCollegeCount),
            9 => Some(CustomerDemographicsGeneratorColumn::CdNulls),
            _ => None,
        }
    }

    /// All columns, in table order.
    pub fn values() -> (r: Vec<Self>)
        ensures
            r@.len() == CUSTOMER_DEMOGRAPHICS_GENERATOR_COLUMN_COUNT,
            forall|i: int| 0 <= i < r@.len() ==> Some(#[trigger] r@[i]) == Self::at_position(i),
    {
        let mut v: Vec<Self> = Vec::new();
        let mut i: usize = 0;
        while i < CUSTOMER_DEMOGRAPHICS_GENERATOR_COLUMN_COUNT
            invariant
                i <= CUSTOMER_DEMOGRAPHICS_GENERATOR_COLUMN_COUNT,
                v@.len() == i,
                forall|j: int| 0 <= j < i ==> Some(#[trigger] v@[j]) == Self::at_position(j),
            decreases CUSTOMER_DEMOGRAPHICS_GENERATOR_COLUMN_COUNT - i,
        {
            let c = Self::from_position(i).unwrap();
            v.push(c);
            i += 1;
        }
        v
    }
}

impl GeneratorColumn for CustomerDemographicsGeneratorColumn {
    open spec fn table_spec(&self) -> Table {
        Table::CustomerDemographics
    }

    open spec fn global_column_number_spec(&self) -> int {
        CUSTOMER_DEMOGRAPHICS_FIRST_GLOBAL_COLUMN + self.position()
    }

    open spec fn seeds_per_row_spec(&self) -> int {
        self.seeds()
    }

    fn get_table(&self) -> (r: Table) {
        Table::CustomerDemographics
    }

    fn get_global_column_number(&self) -> (r: i32) {
        match self {
            CustomerDemographicsGeneratorColumn::CdDemoSk => 149,
            CustomerDemographicsGeneratorColumn::CdGender => 150,
            CustomerDemographicsGeneratorColumn::CdMaritalStatus => 151,
            CustomerDemographicsGeneratorColumn::CdEducationStatus => 152,
            CustomerDemographicsGeneratorColumn::CdPurchaseEstimate => 153,
            CustomerDemographicsGeneratorColumn::CdCreditRating => 154,
            CustomerDemographicsGeneratorColumn::CdDepCount => 155,
            CustomerDemographicsGeneratorColumn::CdDepEmployedCount => 156,
            CustomerDemographicsGeneratorColumn::CdDepCollegeCount => 157,
            CustomerDemographicsGeneratorColumn::CdNulls => 158,
        }
    }

    fn get_seeds_per_row(&self) -> (r: i32) {
        match self {
            CustomerDemographicsGeneratorColumn::CdDemoSk => 1,
            CustomerDemographicsGeneratorColumn::CdGender => 1,
            CustomerDemographicsGeneratorColumn::CdMaritalStatus => 1,
            CustomerDemographicsGeneratorColumn::CdEducationStatus => 1,
            CustomerDemographicsGeneratorColumn::CdPurchaseEstimate => 1,
            CustomerDemographicsGeneratorColumn::CdCreditRating => 1,
            CustomerDemographicsGeneratorColumn::CdDepCount => 1,
            CustomerDemographicsGeneratorColumn::CdDepEmployedCount => 1,
            CustomerDemographicsGeneratorColumn::CdDepCollegeCount => 1,
            CustomerDemographicsGeneratorColumn::CdNulls => 2,
        }
    }
}

} // verus!
