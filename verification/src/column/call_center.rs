use vstd::prelude::*;
use crate::column::{Column, Table};
use crate::column::column_type::{ColumnType, ColumnTypeBase};

verus! {

/// The columns of the call center table.
#[derive(Debug, Clone, Copy, PartialEq, Eq, Hash, Structural)]
pub enum CallCenterColumn {
    CcCallCenterSk,
    CcCallCenterId,
    CcRecStartDate,
    CcRecEndDate,
    CcClosedDateSk,
    CcOpenDateSk,
    CcName,
    CcClass,
    CcEmployees,
    CcSqFt,
    CcHours,
    CcManager,
    CcMktId,
    CcMktClass,
    CcMktDesc,
    CcMarketManager,
    CcDivision,
    CcDivisionName,
    CcCompany,
    CcCompanyName,
    CcStreetNumber,
    CcStreetName,
    CcStreetType,
    CcSuiteNumber,
    CcCity,
    CcCounty,
    CcState,
    CcZip,
    CcCountry,
    CcGmtOffset,
    CcTaxPercentage,
}

/// Number of columns of the call center table.
pub const CALL_CENTER_COLUMN_COUNT: usize = 31;

impl CallCenterColumn {
    /// The column at a position, from 0.
    pub open spec fn at_position(i: int) -> Option<CallCenterColumn> {
        if i == 0 {
            Some(CallCenterColumn::CcCallCenterSk)
        } else if i == 1 {
            Some(CallCenterColumn::CcCallCenterId)
        } else if i == 2 {
            Some(CallCenterColumn::CcRecStartDate)
        } else if i == 3 {
            Some(CallCenterColumn::CcRecEndDate)
        } else if i == 4 {
            Some(CallCenterColumn::CcClosedDateSk)
        } else if i == 5 {
            Some(CallCenterColumn::CcOpenDateSk)
        } else if i == 6 {
            Some(CallCenterColumn::CcName)
        } else if i == 7 {
            Some(CallCenterColumn::CcClass)
        } else if i == 8 {
            Some(CallCenterColumn::CcEmployees)
        } else if i == 9 {
            Some(CallCenterColumn::CcSqFt)
        } else if i == 10 {
            Some(CallCenterColumn::CcHours)
        } else if i == 11 {
            Some(CallCenterColumn::CcManager)
        } else if i == 12 {
            Some(CallCenterColumn::CcMktId)
        } else if i == 13 {
            Some(CallCenterColumn::CcMktClass)
        } else if i == 14 {
            Some(CallCenterColumn::CcMktDesc)
        } else if i == 15 {
            Some(CallCenterColumn::CcMarketManager)
        } else if i == 16 {
            Some(CallCenterColumn::CcDivision)
        } else if i == 17 {
            Some(CallCenterColumn::CcDivisionName)
        } else if i == 18 {
            Some(CallCenterColumn::CcCompany)
        } else if i == 19 {
            Some(CallCenterColumn::CcCompanyName)
        } else if i == 20 {
            Some(CallCenterColumn::CcStreetNumber)
        } else if i == 21 {
            Some(CallCenterColumn::CcStreetName)
        } else if i == 22 {
            Some(CallCenterColumn::CcStreetType)
        } else if i == 23 {
            Some(CallCenterColumn::CcSuiteNumber)
        } else if i == 24 {
            Some(CallCenterColumn::CcCity)
        } else if i == 25 {
            Some(CallCenterColumn::CcCounty)
        } else if i == 26 {
            Some(CallCenterColumn::CcState)
        } else if i == 27 {
            Some(CallCenterColumn::CcZip)
        } else if i == 28 {
            Some(CallCenterColumn::CcCountry)
        } else if i == 29 {
            Some(CallCenterColumn::CcGmtOffset)
        } else if i == 30 {
            Some(CallCenterColumn::CcTaxPercentage)
        } else {
            None
        }
    }

    /// A column sits at its own position.
    pub proof fn lemma_position_round_trip(self)
        ensures
            0 <= self.position() < CALL_CENTER_COLUMN_COUNT,
            Self::at_position(self.position()) == Some(self),
    {
    }

    /// Distinct columns have distinct names.
    pub proof fn lemma_name_injective(a: Self, b: Self)
        ensures
            a.name() == b.name() ==> a == b,
    {
        reveal_strlit("cc_call_center_sk");
        reveal_strlit("cc_call_center_id");
        reveal_strlit("cc_rec_start_date");
        reveal_strlit("cc_rec_end_date");
        reveal_strlit("cc_closed_date_sk");
        reveal_strlit("cc_open_date_sk");
        reveal_strlit("cc_name");
        reveal_strlit("cc_class");
        reveal_strlit("cc_employees");
        reveal_strlit("cc_sq_ft");
        reveal_strlit("cc_hours");
        reveal_strlit("cc_manager");
        reveal_strlit("cc_mkt_id");
        reveal_strlit("cc_mkt_class");
        reveal_strlit("cc_mkt_desc");
        reveal_strlit("cc_market_manager");
        reveal_strlit("cc_division");
        reveal_strlit("cc_division_name");
        reveal_strlit("cc_company");
        reveal_strlit("cc_company_name");
        reveal_strlit("cc_street_number");
        reveal_strlit("cc_street_name");
        reveal_strlit("cc_street_type");
        reveal_strlit("cc_suite_number");
        reveal_strlit("cc_city");
        reveal_strlit("cc_county");
        reveal_strlit("cc_state");
        reveal_strlit("cc_zip");
        reveal_strlit("cc_country");
        reveal_strlit("cc_gmt_offset");
        reveal_strlit("cc_tax_percentage");
        if a.name() == b.name() {
            assert(a.name().len() == b.name().len());
            assert(a.name().len() > 3 ==> a.name()[3] == b.name()[3]);
            assert(a.name().len() > 4 ==> a.name()[4] == b.name()[4]);
            assert(a.name().len() > 5 ==> a.name()[5] == b.name()[5]);
            assert(a.name().len() > 6 ==> a.name()[6] == b.name()[6]);
            assert(a.name().len() > 7 ==> a.name()[7] == b.name()[7]);
            assert(a.name().len() > 8 ==> a.name()[8] == b.name()[8]);
            assert(a.name().len() > 9 ==> a.name()[9] == b.name()[9]);
            assert(a.name().len() > 10 ==> a.name()[10] == b.name()[10]);
            assert(a.name().len() > 11 ==> a.name()[11] == b.name()[11]);
            assert(a.name().len() > 12 ==> a.name()[12] == b.name()[12]);
            assert(a.name().len() > 13 ==> a.name()[13] == b.name()[13]);
            assert(a.name().len() > 14 ==> a.name()[14] == b.name()[14]);
            assert(a.name().len() > 15 ==> a.name()[15] == b.name()[15]);
            assert(a.name().len() > 16 ==> a.name()[16] == b.name()[16]);
        }
    }

    /// The position of this column, from 0.
    pub open spec fn position(self) -> int {
        match self {
            CallCenterColumn::CcCallCenterSk => 0,
            CallCenterColumn::CcCallCenterId => 1,
            CallCenterColumn::CcRecStartDate => 2,
            CallCenterColumn::CcRecEndDate => 3,
            CallCenterColumn::CcClosedDateSk => 4,
            CallCenterColumn::CcOpenDateSk => 5,
            CallCenterColumn::CcName => 6,
            CallCenterColumn::CcClass => 7,
            CallCenterColumn::CcEmployees => 8,
            CallCenterColumn::CcSqFt => 9,
            CallCenterColumn::CcHours => 10,
            CallCenterColumn::CcManager => 11,
            CallCenterColumn::CcMktId => 12,
            CallCenterColumn::CcMktClass => 13,
            CallCenterColumn::CcMktDesc => 14,
            CallCenterColumn::CcMarketManager => 15,
            CallCenterColumn::CcDivision => 16,
            CallCenterColumn::CcDivisionName => 17,
            CallCenterColumn::CcCompany => 18,
            CallCenterColumn::CcCompanyName => 19,
            CallCenterColumn::CcStreetNumber => 20,
            CallCenterColumn::CcStreetName => 21,
            CallCenterColumn::CcStreetType => 22,
            CallCenterColumn::CcSuiteNumber => 23,
            CallCenterColumn::CcCity => 24,
            CallCenterColumn::CcCounty => 25,
            CallCenterColumn::CcState => 26,
            CallCenterColumn::CcZip => 27,
            CallCenterColumn::CcCountry => 28,
            CallCenterColumn::CcGmtOffset => 29,
            CallCenterColumn::CcTaxPercentage => 30,
        }
    }

    /// The name of this column.
    pub open spec fn name(self) -> Seq<char> {
        match self {
            CallCenterColumn::CcCallCenterSk => "cc_call_center_sk"@,
            CallCenterColumn::CcCallCenterId => "cc_call_center_id"@,
            CallCenterColumn::CcRecStartDate => "cc_rec_start_date"@,
            CallCenterColumn::CcRecEndDate => "cc_rec_end_date"@,
            CallCenterColumn::CcClosedDateSk => "cc_closed_date_sk"@,
            CallCenterColumn::CcOpenDateSk => "cc_open_date_sk"@,
            CallCenterColumn::CcName => "cc_name"@,
            CallCenterColumn::CcClass => "cc_class"@,
            CallCenterColumn::CcEmployees => "cc_employees"@,
            CallCenterColumn::CcSqFt => "cc_sq_ft"@,
            CallCenterColumn::CcHours => "cc_hours"@,
            CallCenterColumn::CcManager => "cc_manager"@,
            CallCenterColumn::CcMktId => "cc_mkt_id"@,
            CallCenterColumn::CcMktClass => "cc_mkt_class"@,
            CallCenterColumn::CcMktDesc => "cc_mkt_desc"@,
            CallCenterColumn::CcMarketManager => "cc_market_manager"@,
            CallCenterColumn::CcDivision => "cc_division"@,
            CallCenterColumn::CcDivisionName => "cc_division_name"@,
            CallCenterColumn::CcCompany => "cc_company"@,
            CallCenterColumn::CcCompanyName => "cc_company_name"@,
            CallCenterColumn::CcStreetNumber => "cc_street_number"@,
            CallCenterColumn::CcStreetName => "cc_street_name"@,
            CallCenterColumn::CcStreetType => "cc_street_type"@,
            CallCenterColumn::CcSuiteNumber => "cc_suite_number"@,
            CallCenterColumn::CcCity => "cc_city"@,
            CallCenterColumn::CcCounty => "cc_county"@,
            CallCenterColumn::CcState => "cc_state"@,
            CallCenterColumn::CcZip => "cc_zip"@,
            CallCenterColumn::CcCountry => "cc_country"@,
            CallCenterColumn::CcGmtOffset => "cc_gmt_offset"@,
            CallCenterColumn::CcTaxPercentage => "cc_tax_percentage"@,
        }
    }

    /// The type of this column.
    pub open spec fn column_type(self) -> ColumnType {
        match self {
            CallCenterColumn::CcCallCenterSk => ColumnType { base: ColumnTypeBase::Identifier, precision: None, scale: None },
            CallCenterColumn::CcCallCenterId => ColumnType { base: ColumnTypeBase::Char, precision: Some(16), scale: None },
            CallCenterColumn::CcRecStartDate => ColumnType { base: ColumnTypeBase::Date, precision: None, scale: None },
            CallCenterColumn::CcRecEndDate => ColumnType { base: ColumnTypeBase::Date, precision: None, scale: None },
            CallCenterColumn::CcClosedDateSk => ColumnType { base: ColumnTypeBase::Identifier, precision: None, scale: None },
            CallCenterColumn::CcOpenDateSk => ColumnType { base: ColumnTypeBase::Identifier, precision: None, scale: None },
            CallCenterColumn::CcName => ColumnType { base: ColumnTypeBase::Varchar, precision: Some(50), scale: None },
            CallCenterColumn::CcClass => ColumnType { base: ColumnTypeBase::Varchar, precision: Some(50), scale: None },
            CallCenterColumn::CcEmployees => ColumnType { base: ColumnTypeBase::Integer, precision: None, scale: None },
            CallCenterColumn::CcSqFt => ColumnType { base: ColumnTypeBase::Integer, precision: None, scale: None },
            CallCenterColumn::CcHours => ColumnType { base: ColumnTypeBase::Char, precision: Some(20), scale: None },
            CallCenterColumn::CcManager => ColumnType { base: ColumnTypeBase::Varchar, precision: Some(40), scale: None },
            CallCenterColumn::CcMktId => ColumnType { base: ColumnTypeBase::Integer, precision: None, scale: None },
            CallCenterColumn::CcMktClass => ColumnType { base: ColumnTypeBase::Char, precision: Some(50), scale: None },
            CallCenterColumn::CcMktDesc => ColumnType { base: ColumnTypeBase::Varchar, precision: Some(100), scale: None },
            CallCenterColumn::CcMarketManager => ColumnType { base: ColumnTypeBase::Varchar, precision: Some(40), scale: None },
            CallCenterColumn::CcDivision => ColumnType { base: ColumnTypeBase::Integer, precision: None, scale: None },
            CallCenterColumn::CcDivisionName => ColumnType { base: ColumnTypeBase::Varchar, precision: Some(50), scale: None },
            CallCenterColumn::CcCompany => ColumnType { base: ColumnTypeBase::Integer, precision: None, scale: None },
            CallCenterColumn::CcCompanyName => ColumnType { base: ColumnTypeBase::Char, precision: Some(50), scale: None },
            CallCenterColumn::CcStreetNumber => ColumnType { base: ColumnTypeBase::Char, precision: Some(10), scale: None },
            CallCenterColumn::CcStreetName => ColumnType { base: ColumnTypeBase::Varchar, precision: Some(60), scale: None },
            CallCenterColumn::CcStreetType => ColumnType { base: ColumnTypeBase::Char, precision: Some(15), scale: None },
            CallCenterColumn::CcSuiteNumber => ColumnType { base: ColumnTypeBase::Char, precision: Some(10), scale: None },
            CallCenterColumn::CcCity => ColumnType { base: ColumnTypeBase::Varchar, precision: Some(60), scale: None },
            CallCenterColumn::CcCounty => ColumnType { base: ColumnTypeBase::Varchar, precision: Some(30), scale: None },
            CallCenterColumn::CcState => ColumnType { base: ColumnTypeBase::Char, precision: Some(2), scale: None },
            CallCenterColumn::CcZip => ColumnType { base: ColumnTypeBase::Char, precision: Some(10), scale: None },
            CallCenterColumn::CcCountry => ColumnType { base: ColumnTypeBase::Varchar, precision: Some(20), scale: None },
            CallCenterColumn::CcGmtOffset => ColumnType { base: ColumnTypeBase::Decimal, precision: Some(5), scale: Some(2) },
            CallCenterColumn::CcTaxPercentage => ColumnType { base: ColumnTypeBase::Decimal, precision: Some(5), scale: Some(2) },
        }
    }

    /// The column at a position, from 0, if there is one.
    pub fn from_position(i: usize) -> (r: Option<CallCenterColumn>)
        ensures
            r == Self::at_position(i as int),
    {
        match i {
            0 => Some(CallCenterColumn::CcCallCenterSk),
            1 => Some(CallCenterColumn::CcCallCenterId),
            2 => Some(CallCenterColumn::CcRecStartDate),
            3 => Some(CallCenterColumn::CcRecEndDate),
            4 => Some(CallCenterColumn::CcClosedDateSk),
            5 => Some(CallCenterColumn::CcOpenDateSk),
            6 => Some(CallCenterColumn::CcName),
            7 => Some(CallCenterColumn::CcClass),
            8 => Some(CallCenterColumn::CcEmployees),
            9 => Some(CallCenterColumn::CcSqFt),
            10 => Some(CallCenterColumn::CcHours),
            11 => Some(CallCenterColumn::CcManager),
            12 => Some(CallCenterColumn::CcMktId),
            13 => Some(CallCenterColumn::CcMktClass),
            14 => Some(CallCenterColumn::CcMktDesc),
            15 => Some(CallCenterColumn::CcMarketManager),
            16 => Some(CallCenterColumn::CcDivision),
            17 => Some(CallCenterColumn::CcDivisionName),
            18 => Some(CallCenterColumn::CcCompany),
            19 => Some(CallCenterColumn::CcCompanyName),
            20 => Some(CallCenterColumn::CcStreetNumber),
            21 => Some(CallCenterColumn::CcStreetName),
            22 => Some(CallCenterColumn::CcStreetType),
            23 => Some(CallCenterColumn::CcSuiteNumber),
            24 => Some(CallCenterColumn::CcCity),
            25 => Some(CallCenterColumn::CcCounty),
            26 => Some(CallCenterColumn::CcState),
            27 => Some(CallCenterColumn::CcZip),
            28 => Some(CallCenterColumn::CcCountry),
            29 => Some(CallCenterColumn::CcGmtOffset),
            30 => Some(CallCenterColumn::CcTaxPercentage),
            _ => None,
        }
    }

    /// All columns, in table order.
    pub fn values() -> (r: Vec<CallCenterColumn>)
        ensures
            r@.len() == CALL_CENTER_COLUMN_COUNT,
            forall|i: int| 0 <= i < r@.len() ==> Some(#[trigger] r@[i]) == Self::at_position(i),
    {
        let mut v: Vec<CallCenterColumn> = Vec::new();
        let mut i: usize = 0;
        while i < CALL_CENTER_COLUMN_COUNT
            invariant
                i <= CALL_CENTER_COLUMN_COUNT,
                v@.len() == i,
                forall|j: int| 0 <= j < i ==> Some(#[trigger] v@[j]) == Self::at_position(j),
            decreases CALL_CENTER_COLUMN_COUNT - i,
        {
            let c = Self::from_position(i).unwrap();
            v.push(c);
            i += 1;
        }
        v
    }
}

impl Column for CallCenterColumn {
    open spec fn table_spec(&self) -> Table {
        Table::CallCenter
    }

    open spec fn name_spec(&self) -> Seq<char> {
        self.name()
    }

    open spec fn type_spec(&self) -> ColumnType {
        self.column_type()
    }

    open spec fn position_spec(&self) -> int {
        self.position()
    }

    fn get_table(&self) -> (r: Table) {
        Table::CallCenter
    }

    fn get_name(&self) -> (r: &'static str) {
        match self {
            CallCenterColumn::CcCallCenterSk => "cc_call_center_sk",
            CallCenterColumn::CcCallCenterId => "cc_call_center_id",
            CallCenterColumn::CcRecStartDate => "cc_rec_start_date",
            CallCenterColumn::CcRecEndDate => "cc_rec_end_date",
            CallCenterColumn::CcClosedDateSk => "cc_closed_date_sk",
            CallCenterColumn::CcOpenDateSk => "cc_open_date_sk",
            CallCenterColumn::CcName => "cc_name",
            CallCenterColumn::CcClass => "cc_class",
            CallCenterColumn::CcEmployees => "cc_employees",
            CallCenterColumn::CcSqFt => "cc_sq_ft",
            CallCenterColumn::CcHours => "cc_hours",
            CallCenterColumn::CcManager => "cc_manager",
            CallCenterColumn::CcMktId => "cc_mkt_id",
            CallCenterColumn::CcMktClass => "cc_mkt_class",
            CallCenterColumn::CcMktDesc => "cc_mkt_desc",
            CallCenterColumn::CcMarketManager => "cc_market_manager",
            CallCenterColumn::CcDivision => "cc_division",
            CallCenterColumn::CcDivisionName => "cc_division_name",
            CallCenterColumn::CcCompany => "cc_company",
            CallCenterColumn::CcCompanyName => "cc_company_name",
            CallCenterColumn::CcStreetNumber => "cc_street_number",
            CallCenterColumn::CcStreetName => "cc_street_name",
            CallCenterColumn::CcStreetType => "cc_street_type",
            CallCenterColumn::CcSuiteNumber => "cc_suite_number",
            CallCenterColumn::CcCity => "cc_city",
            CallCenterColumn::CcCounty => "cc_county",
            CallCenterColumn::CcState => "cc_state",
            CallCenterColumn::CcZip => "cc_zip",
            CallCenterColumn::CcCountry => "cc_country",
            CallCenterColumn::CcGmtOffset => "cc_gmt_offset",
            CallCenterColumn::CcTaxPercentage => "cc_tax_percentage",
        }
    }

    fn get_type(&self) -> (r: ColumnType) {
        match self {
            CallCenterColumn::CcCallCenterSk => ColumnType::identifier(),
            CallCenterColumn::CcCallCenterId => ColumnType::character(16),
            CallCenterColumn::CcRecStartDate => ColumnType::date(),
            CallCenterColumn::CcRecEndDate => ColumnType::date(),
            CallCenterColumn::CcClosedDateSk => ColumnType::identifier(),
            CallCenterColumn::CcOpenDateSk => ColumnType::identifier(),
            CallCenterColumn::CcName => ColumnType::varchar(50),
            CallCenterColumn::CcClass => ColumnType::varchar(50),
            CallCenterColumn::CcEmployees => ColumnType::integer(),
            CallCenterColumn::CcSqFt => ColumnType::integer(),
            CallCenterColumn::CcHours => ColumnType::character(20),
            CallCenterColumn::CcManager => ColumnType::varchar(40),
            CallCenterColumn::CcMktId => ColumnType::integer(),
            CallCenterColumn::CcMktClass => ColumnType::character(50),
            CallCenterColumn::CcMktDesc => ColumnType::varchar(100),
            CallCenterColumn::CcMarketManager => ColumnType::varchar(40),
            CallCenterColumn::CcDivision => ColumnType::integer(),
            CallCenterColumn::CcDivisionName => ColumnType::varchar(50),
            CallCenterColumn::CcCompany => ColumnType::integer(),
            CallCenterColumn::CcCompanyName => ColumnType::character(50),
            CallCenterColumn::CcStreetNumber => ColumnType::character(10),
            CallCenterColumn::CcStreetName => ColumnType::varchar(60),
            CallCenterColumn::CcStreetType => ColumnType::character(15),
            CallCenterColumn::CcSuiteNumber => ColumnType::character(10),
            CallCenterColumn::CcCity => ColumnType::varchar(60),
            CallCenterColumn::CcCounty => ColumnType::varchar(30),
            CallCenterColumn::CcState => ColumnType::character(2),
            CallCenterColumn::CcZip => ColumnType::character(10),
            CallCenterColumn::CcCountry => ColumnType::varchar(20),
            CallCenterColumn::CcGmtOffset => ColumnType::decimal(5, 2),
            CallCenterColumn::CcTaxPercentage => ColumnType::decimal(5, 2),
        }
    }

    fn get_position(&self) -> (r: i32) {
        match self {
            CallCenterColumn::CcCallCenterSk => 0,
            CallCenterColumn::CcCallCenterId => 1,
            CallCenterColumn::CcRecStartDate => 2,
            CallCenterColumn::CcRecEndDate => 3,
            CallCenterColumn::CcClosedDateSk => 4,
            CallCenterColumn::CcOpenDateSk => 5,
            CallCenterColumn::CcName => 6,
            CallCenterColumn::CcClass => 7,
            CallCenterColumn::CcEmployees => 8,
            CallCenterColumn::CcSqFt => 9,
            CallCenterColumn::CcHours => 10,
            CallCenterColumn::CcManager => 11,
            CallCenterColumn::CcMktId => 12,
            CallCenterColumn::CcMktClass => 13,
            CallCenterColumn::CcMktDesc => 14,
            CallCenterColumn::CcMarketManager => 15,
            CallCenterColumn::CcDivision => 16,
            CallCenterColumn::CcDivisionName => 17,
            CallCenterColumn::CcCompany => 18,
            CallCenterColumn::CcCompanyName => 19,
            CallCenterColumn::CcStreetNumber => 20,
            CallCenterColumn::CcStreetName => 21,
            CallCenterColumn::CcStreetType => 22,
            CallCenterColumn::CcSuiteNumber => 23,
            CallCenterColumn::CcCity => 24,
            CallCenterColumn::CcCounty => 25,
            CallCenterColumn::CcState => 26,
            CallCenterColumn::CcZip => 27,
            CallCenterColumn::CcCountry => 28,
            CallCenterColumn::CcGmtOffset => 29,
            CallCenterColumn::CcTaxPercentage => 30,
        }
    }
}

} // verus!
