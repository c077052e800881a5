use vstd::prelude::*;
use crate::column::Table;
use crate::generator::GeneratorColumn;

verus! {

/// The columns the generator of the call center table draws values for, with
/// their global column numbers and the number of random values each draws
/// per row.
#[derive(Debug, Clone, Copy, PartialEq, Eq, Hash, Structural)]
pub enum CallCenterGeneratorColumn {
    CcCallCenterSk,
    CcCallCenterId,
    CcRecStartDateId,
    CcRecEndDateId,
    CcClosedDateId,
    CcOpenDateId,
    CcName,
    CcClass,
    CcEmployees,
    CcSqFt,
    CcHours,
    CcManager,
    CcMarketId,
    CcMarketClass,
    CcMarketDesc,
    CcMarketManager,
    CcDivision,
    CcDivisionName,
    CcCompany,
    CcCompanyName,
    CcStreetNumber,
    CcStreetName,
    CcStreetType,
    CcSuiteNumber,
    CcCity,
    CcCounty,
    CcState,
    CcZip,
    CcCountry,
    CcGmtOffset,
    CcAddress,
    CcTaxPercentage,
    CcScd,
    CcNulls,
}

/// Number of generator columns of the call center table.
pub const CALL_CENTER_GENERATOR_COLUMN_COUNT: usize = 34;

/// Global column number of the first generator column of the call center table.
pub const CALL_CENTER_FIRST_GLOBAL_COLUMN: i32 = 1;

impl CallCenterGeneratorColumn {
    /// The column at a position, from 0.
    pub open spec fn at_position(i: int) -> Option<Self> {
        if i == 0 {
            Some(CallCenterGeneratorColumn::CcCallCenterSk)
        } else if i == 1 {
            Some(CallCenterGeneratorColumn::CcCallCenterId)
        } else if i == 2 {
            Some(CallCenterGeneratorColumn::CcRecStartDateId)
        } else if i == 3 {
            Some(CallCenterGeneratorColumn::CcRecEndDateId)
        } else if i == 4 {
            Some(CallCenterGeneratorColumn::CcClosedDateId)
        } else if i == 5 {
            Some(CallCenterGeneratorColumn::CcOpenDateId)
        } else if i == 6 {
            Some(CallCenterGeneratorColumn::CcName)
        } else if i == 7 {
            Some(CallCenterGeneratorColumn::CcClass)
        } else if i == 8 {
            Some(CallCenterGeneratorColumn::CcEmployees)
        } else if i == 9 {
            Some(CallCenterGeneratorColumn::CcSqFt)
        } else if i == 10 {
            Some(CallCenterGeneratorColumn::CcHours)
        } else if i == 11 {
            Some(CallCenterGeneratorColumn::CcManager)
        } else if i == 12 {
            Some(CallCenterGeneratorColumn::CcMarketId)
        } else if i == 13 {
            Some(CallCenterGeneratorColumn::CcMarketClass)
        } else if i == 14 {
            Some(CallCenterGeneratorColumn::CcMarketDesc)
        } else if i == 15 {
            Some(CallCenterGeneratorColumn::CcMarketManager)
        } else if i == 16 {
            Some(CallCenterGeneratorColumn::CcDivision)
        } else if i == 17 {
            Some(CallCenterGeneratorColumn::CcDivisionName)
        } else if i == 18 {
            Some(CallCenterGeneratorColumn::CcCompany)
        } else if i == 19 {
            Some(CallCenterGeneratorColumn::CcCompanyName)
        } else if i == 20 {
            Some(CallCenterGeneratorColumn::CcStreetNumber)
        } else if i == 21 {
            Some(CallCenterGeneratorColumn::CcStreetName)
        } else if i == 22 {
            Some(CallCenterGeneratorColumn::CcStreetType)
        } else if i == 23 {
            Some(CallCenterGeneratorColumn::CcSuiteNumber)
        } else if i == 24 {
            Some(CallCenterGeneratorColumn::CcCity)
        } else if i == 25 {
            Some(CallCenterGeneratorColumn::CcCounty)
        } else if i == 26 {
            Some(CallCenterGeneratorColumn::CcState)
        } else if i == 27 {
            Some(CallCenterGeneratorColumn::CcZip)
        } else if i == 28 {
            Some(CallCenterGeneratorColumn::CcCountry)
        } else if i == 29 {
            Some(CallCenterGeneratorColumn::CcGmtOffset)
        } else if i == 30 {
            Some(CallCenterGeneratorColumn::CcAddress)
        } else if i == 31 {
            Some(CallCenterGeneratorColumn::CcTaxPercentage)
        } else if i == 32 {
            Some(CallCenterGeneratorColumn::CcScd)
        } else if i == 33 {
            Some(CallCenterGeneratorColumn::CcNulls)
        } else {
            None
        }
    }

    /// The position of this column, from 0.
    pub open spec fn position(self) -> int {
        match self {
            CallCenterGeneratorColumn::CcCallCenterSk => 0,
            CallCenterGeneratorColumn::CcCallCenterId => 1,
            CallCenterGeneratorColumn::CcRecStartDateId => 2,
            CallCenterGeneratorColumn::CcRecEndDateId => 3,
            CallCenterGeneratorColumn::CcClosedDateId => 4,
            CallCenterGeneratorColumn::CcOpenDateId => 5,
            CallCenterGeneratorColumn::CcName => 6,
            CallCenterGeneratorColumn::CcClass => 7,
            CallCenterGeneratorColumn::CcEmployees => 8,
            CallCenterGeneratorColumn::CcSqFt => 9,
            CallCenterGeneratorColumn::CcHours => 10,
            CallCenterGeneratorColumn::CcManager => 11,
            CallCenterGeneratorColumn::CcMarketId => 12,
            CallCenterGeneratorColumn::CcMarketClass => 13,
            CallCenterGeneratorColumn::CcMarketDesc => 14,
            CallCenterGeneratorColumn::CcMarketManager => 15,
            CallCenterGeneratorColumn::CcDivision => 16,
            CallCenterGeneratorColumn::CcDivisionName => 17,
            CallCenterGeneratorColumn::CcCompany => 18,
            CallCenterGeneratorColumn::CcCompanyName => 19,
            CallCenterGeneratorColumn::CcStreetNumber => 20,
            CallCenterGeneratorColumn::CcStreetName => 21,
            CallCenterGeneratorColumn::CcStreetType => 22,
            CallCenterGeneratorColumn::CcSuiteNumber => 23,
            CallCenterGeneratorColumn::CcCity => 24,
            CallCenterGeneratorColumn::CcCounty => 25,
            CallCenterGeneratorColumn::CcState => 26,
            CallCenterGeneratorColumn::CcZip => 27,
            CallCenterGeneratorColumn::CcCountry => 28,
            CallCenterGeneratorColumn::CcGmtOffset => 29,
            CallCenterGeneratorColumn::CcAddress => 30,
            CallCenterGeneratorColumn::CcTaxPercentage => 31,
            CallCenterGeneratorColumn::CcScd => 32,
            CallCenterGeneratorColumn::CcNulls => 33,
        }
    }

    /// Random values this column draws per row.
    pub open spec fn seeds(self) -> int {
        match self {
            CallCenterGeneratorColumn::CcCallCenterSk => 0,
            CallCenterGeneratorColumn::CcCallCenterId => 15,
            CallCenterGeneratorColumn::CcRecStartDateId => 10,
            CallCenterGeneratorColumn::CcRecEndDateId => 1,
            CallCenterGeneratorColumn::CcClosedDateId => 4,
            CallCenterGeneratorColumn::CcOpenDateId => 10,
            CallCenterGeneratorColumn::CcName => 0,
            CallCenterGeneratorColumn::CcClass => 2,
            CallCenterGeneratorColumn::CcEmployees => 1,
            CallCenterGeneratorColumn::CcSqFt => 1,
            CallCenterGeneratorColumn::CcHours => 1,
            CallCenterGeneratorColumn::CcManager => 2,
            CallCenterGeneratorColumn::CcMarketId => 1,
            CallCenterGeneratorColumn::CcMarketClass => 50,
            CallCenterGeneratorColumn::CcMarketDesc => 50,
            CallCenterGeneratorColumn::CcMarketManager => 2,
            CallCenterGeneratorColumn::CcDivision => 2,
            CallCenterGeneratorColumn::CcDivisionName => 2,
            CallCenterGeneratorColumn::CcCompany => 2,
            CallCenterGeneratorColumn::CcCompanyName => 2,
            CallCenterGeneratorColumn::CcStreetNumber => 0,
            CallCenterGeneratorColumn::CcStreetName => 0,
            CallCenterGeneratorColumn::CcStreetType => 0,
            CallCenterGeneratorColumn::CcSuiteNumber => 0,
            CallCenterGeneratorColumn::CcCity => 0,
            CallCenterGeneratorColumn::CcCounty => 0,
            CallCenterGeneratorColumn::CcState => 0,
            CallCenterGeneratorColumn::CcZip => 0,
            CallCenterGeneratorColumn::CcCountry => 0,
            CallCenterGeneratorColumn::CcGmtOffset => 0,
            CallCenterGeneratorColumn::CcAddress => 15,
            CallCenterGeneratorColumn::CcTaxPercentage => 1,
            CallCenterGeneratorColumn::CcScd => 1,
            CallCenterGeneratorColumn::CcNulls => 2,
        }
    }

    /// The column at a position, from 0, if there is one.
    pub fn from_position(i: usize) -> (r: Option<Self>)
        ensures
            r == Self::at_position(i as int),
    {
        match i {
            0 => Some(CallCenterGeneratorColumn::CcCallCenterSk),
            1 => Some(CallCenterGeneratorColumn::CcCallCenterId),
            2 => Some(CallCenterGeneratorColumn::CcRecStartDateId),
            3 => Some(CallCenterGeneratorColumn::CcRecEndDateId),
            4 => Some(CallCenterGeneratorColumn::CcClosedDateId),
            5 => Some(CallCenterGeneratorColumn::CcOpenDateId),
            6 => Some(CallCenterGeneratorColumn::CcName),
            7 => Some(CallCenterGeneratorColumn::CcClass),
            8 => Some(CallCenterGeneratorColumn::CcEmployees),
            9 => Some(CallCenterGeneratorColumn::CcSqFt),
            10 => Some(CallCenterGeneratorColumn::CcHours),
            11 => Some(CallCenterGeneratorColumn::CcManager),
            12 => Some(CallCenterGeneratorColumn::CcMarketId),
            13 => Some(CallCenterGeneratorColumn::CcMarketClass),
            14 => Some(CallCenterGeneratorColumn::CcMarketDesc),
            15 => Some(CallCenterGeneratorColumn::CcMarketManager),
            16 => Some(CallCenterGeneratorColumn::CcDivision),
            17 => Some(CallCenterGeneratorColumn::CcDivisionName),
            18 => Some(CallCenterGeneratorColumn::CcCompany),
            19 => Some(CallCenterGeneratorColumn::CcCompanyName),
            20 => Some(CallCenterGeneratorColumn::CcStreetNumber),
            21 => Some(CallCenterGeneratorColumn::CcStreetName),
            22 => Some(CallCenterGeneratorColumn::CcStreetType),
            23 => Some(CallCenterGeneratorColumn::CcSuiteNumber),
            24 => Some(CallCenterGeneratorColumn::CcCity),
            25 => Some(CallCenterGeneratorColumn::CcCounty),
            26 => Some(CallCenterGeneratorColumn::CcState),
            27 => Some(CallCenterGeneratorColumn::CcZip),
            28 => Some(CallCenterGeneratorColumn::CcCountry),
            29 => Some(CallCenterGeneratorColumn::CcGmtOffset),
            30 => Some(CallCenterGeneratorColumn::CcAddress),
            31 => Some(CallCenterGeneratorColumn::CcTaxPercentage),
            32 => Some(CallCenterGeneratorColumn::CcScd),
            33 => Some(CallCenterGeneratorColumn::CcNulls),
            _ => None,
        }
    }

    /// All columns, in table order.
    pub fn values() -> (r: Vec<Self>)
        ensures
            r@.len() == CALL_CENTER_GENERATOR_COLUMN_COUNT,
            forall|i: int| 0 <= i < r@.len() ==> Some(#[trigger] r@[i]) == Self::at_position(i),
    {
        let mut v: Vec<Self> = Vec::new();
        let mut i: usize = 0;
        while i < CALL_CENTER_GENERATOR_COLUMN_COUNT
            invariant
                i <= CALL_CENTER_GENERATOR_COLUMN_COUNT,
                v@.len() == i,
                forall|j: int| 0 <= j < i ==> Some(#[trigger] v@[j]) == Self::at_position(j),
            decreases CALL_CENTER_GENERATOR_COLUMN_COUNT - i,
        {
            let c = Self::from_position(i).unwrap();
            v.push(c);
            i += 1;
        }
        v
    }
}

impl GeneratorColumn for CallCenterGeneratorColumn {
    open spec fn table_spec(&self) -> Table {
        Table::CallCenter
    }

    open spec fn global_column_number_spec(&self) -> int {
        CALL_CENTER_FIRST_GLOBAL_COLUMN + self.position()
    }

    open spec fn seeds_per_row_spec(&self) -> int {
        self.seeds()
    }

    fn get_table(&self) -> (r: Table) {
        Table::CallCenter
    }

    fn get_global_column_number(&self) -> (r: i32) {
        match self {
            CallCenterGeneratorColumn::CcCallCenterSk => 1,
            CallCenterGeneratorColumn::CcCallCenterId => 2,
            CallCenterGeneratorColumn::CcRecStartDateId => 3,
            CallCenterGeneratorColumn::CcRecEndDateId => 4,
            CallCenterGeneratorColumn::CcClosedDateId => 5,
            CallCenterGeneratorColumn::CcOpenDateId => 6,
            CallCenterGeneratorColumn::CcName => 7,
            CallCenterGeneratorColumn::CcClass => 8,
            CallCenterGeneratorColumn::CcEmployees => 9,
            CallCenterGeneratorColumn::CcSqFt => 10,
            CallCenterGeneratorColumn::CcHours => 11,
            CallCenterGeneratorColumn::CcManager => 12,
            CallCenterGeneratorColumn::CcMarketId => 13,
            CallCenterGeneratorColumn::CcMarketClass => 14,
            CallCenterGeneratorColumn::CcMarketDesc => 15,
            CallCenterGeneratorColumn::CcMarketManager => 16,
            CallCenterGeneratorColumn::CcDivision => 17,
            CallCenterGeneratorColumn::CcDivisionName => 18,
            CallCenterGeneratorColumn::CcCompany => 19,
            CallCenterGeneratorColumn::CcCompanyName => 20,
            CallCenterGeneratorColumn::CcStreetNumber => 21,
            CallCenterGeneratorColumn::CcStreetName => 22,
            CallCenterGeneratorColumn::CcStreetType => 23,
            CallCenterGeneratorColumn::CcSuiteNumber => 24,
            CallCenterGeneratorColumn::CcCity => 25,
            CallCenterGeneratorColumn::CcCounty => 26,
            CallCenterGeneratorColumn::CcState => 27,
            CallCenterGeneratorColumn::CcZip => 28,
            CallCenterGeneratorColumn::CcCountry => 29,
            CallCenterGeneratorColumn::CcGmtOffset => 30,
            CallCenterGeneratorColumn::CcAddress => 31,
            CallCenterGeneratorColumn::CcTaxPercentage => 32,
            CallCenterGeneratorColumn::CcScd => 33,
            CallCenterGeneratorColumn::CcNulls => 34,
        }
    }

    fn get_seeds_per_row(&self) -> (r: i32) {
        match self {
            CallCenterGeneratorColumn::CcCallCenterSk => 0,
            CallCenterGeneratorColumn::CcCallCenterId => 15,
            CallCenterGeneratorColumn::CcRecStartDateId => 10,
            CallCenterGeneratorColumn::CcRecEndDateId => 1,
            CallCenterGeneratorColumn::CcClosedDateId => 4,
            CallCenterGeneratorColumn::CcOpenDateId => 10,
            CallCenterGeneratorColumn::CcName => 0,
            CallCenterGeneratorColumn::CcClass => 2,
            CallCenterGeneratorColumn::CcEmployees => 1,
            CallCenterGeneratorColumn::CcSqFt => 1,
            CallCenterGeneratorColumn::CcHours => 1,
            CallCenterGeneratorColumn::CcManager => 2,
            CallCenterGeneratorColumn::CcMarketId => 1,
            CallCenterGeneratorColumn::CcMarketClass => 50,
            CallCenterGeneratorColumn::CcMarketDesc => 50,
            CallCenterGeneratorColumn::CcMarketManager => 2,
            CallCenterGeneratorColumn::CcDivision => 2,
            CallCenterGeneratorColumn::CcDivisionName => 2,
            CallCenterGeneratorColumn::CcCompany => 2,
            CallCenterGeneratorColumn::CcCompanyName => 2,
            CallCenterGeneratorColumn::CcStreetNumber => 0,
            CallCenterGeneratorColumn::CcStreetName => 0,
            CallCenterGeneratorColumn::CcStreetType => 0,
            CallCenterGeneratorColumn::CcSuiteNumber => 0,
            CallCenterGeneratorColumn::CcCity => 0,
            CallCenterGeneratorColumn::CcCounty => 0,
            CallCenterGeneratorColumn::CcState => 0,
            CallCenterGeneratorColumn::CcZip => 0,
            CallCenterGeneratorColumn::CcCountry => 0,
            CallCenterGeneratorColumn::CcGmtOffset => 0,
            CallCenterGeneratorColumn::CcAddress => 15,
            CallCenterGeneratorColumn::CcTaxPercentage => 1,
            CallCenterGeneratorColumn::CcScd => 1,
            CallCenterGeneratorColumn::CcNulls => 2,
        }
    }
}

} // verus!
