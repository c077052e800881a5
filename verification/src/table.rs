use vstd::prelude::*;
use crate::column::{CallCenterColumn, Column, TableColumn};
use crate::column::Table as ColumnTable;
use crate::column::call_center::CALL_CENTER_COLUMN_COUNT;
use crate::error::TpcdsError;
use crate::generator::{
    CallCenterGeneratorColumn,
    CustomerDemographicsGeneratorColumn,
    GeneratorColumn,
    IncomeBandGeneratorColumn,
    ReasonGeneratorColumn,
    ShipModeGeneratorColumn,
    TableGeneratorColumn,
    WarehouseGeneratorColumn,
};
use crate::generator::call_center::{CALL_CENTER_FIRST_GLOBAL_COLUMN, CALL_CENTER_GENERATOR_COLUMN_COUNT};
use crate::generator::customer_demographics::{CUSTOMER_DEMOGRAPHICS_FIRST_GLOBAL_COLUMN, CUSTOMER_DEMOGRAPHICS_GENERATOR_COLUMN_COUNT};
use crate::generator::income_band::{INCOME_BAND_FIRST_GLOBAL_COLUMN, INCOME_BAND_GENERATOR_COLUMN_COUNT};
use crate::generator::reason::{REASON_FIRST_GLOBAL_COLUMN, REASON_GENERATOR_COLUMN_COUNT};
use crate::generator::ship_mode::{SHIP_MODE_FIRST_GLOBAL_COLUMN, SHIP_MODE_GENERATOR_COLUMN_COUNT};
use crate::generator::warehouse::{WAREHOUSE_FIRST_GLOBAL_COLUMN, WAREHOUSE_GENERATOR_COLUMN_COUNT};
use crate::scaling_info::{ScalingInfo, ScalingModel};
use crate::table_flags::{TableFlags, TableFlagsBuilder};
use crate::text::{str_equal, to_lowercase, lowercase_of};

verus! {

/// The tables this generator produces, with their metadata.
#[derive(Debug, Clone, Copy, PartialEq, Eq, Hash, Structural)]
pub enum Table {
    CallCenter,
    Warehouse,
    ShipMode,
    Reason,
    IncomeBand,
    CustomerDemographics,
}

/// The name of a table, in lower case.
pub open spec fn name_of(t: Table) -> Seq<char> {
    match t {
        Table::CallCenter => "call_center"@,
        Table::Warehouse => "warehouse"@,
        Table::ShipMode => "ship_mode"@,
        Table::Reason => "reason"@,
        Table::IncomeBand => "income_band"@,
        Table::CustomerDemographics => "customer_demographics"@,
    }
}

/// The flags of a table.
pub open spec fn table_flags(t: Table) -> TableFlags {
    match t {
        Table::CallCenter => TableFlags { keeps_history: true, is_small: true, is_date_based: false },
        Table::CustomerDemographics => TableFlags {
            keeps_history: false,
            is_small: false,
            is_date_based: false,
        },
        _ => TableFlags { keeps_history: false, is_small: true, is_date_based: false },
    }
}

/// The number of user-visible columns of a table that describes its columns.
pub open spec fn column_count_of(t: Table) -> int {
    match t {
        Table::CallCenter => CALL_CENTER_COLUMN_COUNT as int,
        _ => 0,
    }
}

/// The number of generator columns of a table.
pub open spec fn generator_column_count_of(t: Table) -> int {
    match t {
        Table::CallCenter => CALL_CENTER_GENERATOR_COLUMN_COUNT as int,
        Table::Warehouse => WAREHOUSE_GENERATOR_COLUMN_COUNT as int,
        Table::ShipMode => SHIP_MODE_GENERATOR_COLUMN_COUNT as int,
        Table::Reason => REASON_GENERATOR_COLUMN_COUNT as int,
        Table::IncomeBand => INCOME_BAND_GENERATOR_COLUMN_COUNT as int,
        Table::CustomerDemographics => CUSTOMER_DEMOGRAPHICS_GENERATOR_COLUMN_COUNT as int,
    }
}

/// The global column number of the first generator column of a table; the
/// generator columns of a table are numbered consecutively from it.
pub open spec fn first_global_column(t: Table) -> int {
    match t {
        Table::CallCenter => CALL_CENTER_FIRST_GLOBAL_COLUMN as int,
        Table::Warehouse => WAREHOUSE_FIRST_GLOBAL_COLUMN as int,
        Table::ShipMode => SHIP_MODE_FIRST_GLOBAL_COLUMN as int,
        Table::Reason => REASON_FIRST_GLOBAL_COLUMN as int,
        Table::IncomeBand => INCOME_BAND_FIRST_GLOBAL_COLUMN as int,
        Table::CustomerDemographics => CUSTOMER_DEMOGRAPHICS_FIRST_GLOBAL_COLUMN as int,
    }
}

/// The number of values per row the generator column of `t` with global
/// column number `number` draws; 0 where `t` has no such column.
pub open spec fn seeds_of_column_number(t: Table, number: int) -> int {
    match generator_column_at(t, number - first_global_column(t)) {
        Some(c) => c.seeds_per_row_spec(),
        None => 0,
    }
}

/// The user-visible column of a table at a position.
pub open spec fn column_at(t: Table, i: int) -> Option<TableColumn> {
    match t {
        Table::CallCenter => match CallCenterColumn::at_position(i) {
            Some(c) => Some(TableColumn::CallCenter(c)),
            None => None,
        },
        _ => None,
    }
}

/// The generator column of a table at a position.
pub open spec fn generator_column_at(t: Table, i: int) -> Option<TableGeneratorColumn> {
    match t {
        Table::CallCenter => match CallCenterGeneratorColumn::at_position(i) {
            Some(c) => Some(TableGeneratorColumn::CallCenter(c)),
            None => None,
        },
        Table::Warehouse => match WarehouseGeneratorColumn::at_position(i) {
            Some(c) => Some(TableGeneratorColumn::Warehouse(c)),
            None => None,
        },
        Table::ShipMode => match ShipModeGeneratorColumn::at_position(i) {
            Some(c) => Some(TableGeneratorColumn::ShipMode(c)),
            None => None,
        },
        Table::Reason => match ReasonGeneratorColumn::at_position(i) {
            Some(c) => Some(TableGeneratorColumn::Reason(c)),
            None => None,
        },
        Table::IncomeBand => match IncomeBandGeneratorColumn::at_position(i) {
            Some(c) => Some(TableGeneratorColumn::IncomeBand(c)),
            None => None,
        },
        Table::CustomerDemographics => match CustomerDemographicsGeneratorColumn::at_position(i) {
            Some(c) => Some(TableGeneratorColumn::CustomerDemographics(c)),
            None => None,
        },
    }
}

/// The column at position `i` of `t` has the name `name`.
pub open spec fn column_named(t: Table, i: int, name: Seq<char>) -> bool {
    column_at(t, i) matches Some(c) && c.name_spec() == name
}

/// Exactly one column of `t` has the name `name`.
pub open spec fn unique_column_named(t: Table, name: Seq<char>) -> bool {
    exists|i: int|
        0 <= i < column_count_of(t) && #[trigger] column_named(t, i, name) && forall|j: int|
            0 <= j < column_count_of(t) && j != i ==> !#[trigger] column_named(t, j, name)
}

/// Two columns of `t` have the name `name`.
pub open spec fn several_columns_named(t: Table, name: Seq<char>) -> bool {
    exists|i: int, j: int|
        0 <= i < column_count_of(t) && 0 <= j < column_count_of(t) && i != j && #[trigger] column_named(
            t,
            i,
            name,
        ) && #[trigger] column_named(t, j, name)
}

/// The tables in their canonical order.
pub open spec fn base_table_list() -> Seq<Table> {
    seq![
        Table::CallCenter,
        Table::Warehouse,
        Table::ShipMode,
        Table::Reason,
        Table::IncomeBand,
        Table::CustomerDemographics,
    ]
}

/// The message of a failed column lookup.
pub open spec fn column_not_found_message(column_name: Seq<char>, t: Table) -> Seq<char> {
    "Column '"@ + column_name + "' not found in table '"@ + name_of(t) + "'"@
}

/// The message of an ambiguous column lookup.
pub open spec fn several_columns_message(column_name: Seq<char>, t: Table) -> Seq<char> {
    "Multiple columns found matching '"@ + column_name + "' in table '"@ + name_of(t) + "'"@
}

/// The message of a failed table lookup.
pub open spec fn table_not_found_message(table_name: Seq<char>) -> Seq<char> {
    "Table '"@ + table_name + "' not found"@
}

/// The message of an ambiguous table lookup.
pub open spec fn several_tables_message(table_name: Seq<char>) -> Seq<char> {
    "Multiple tables found matching '"@ + table_name + "'"@
}

/// The number of base tables with the name `name`.
pub open spec fn tables_named(name: Seq<char>) -> Seq<Table> {
    base_table_list().filter(|t: Table| name_of(t) == name)
}

/// A table turned into its column-side view and back is the same table.
pub proof fn lemma_column_table_round_trip(t: Table)
    ensures
        Table::from_column_table_spec(t.to_column_table_spec()) == Some(t),
{
}

/// Every column of a table is the one column found under its own name:
/// the column names of a table are distinct.
pub proof fn lemma_column_found_by_own_name(t: Table, i: int)
    requires
        0 <= i < column_count_of(t),
    ensures
        column_at(t, i) matches Some(c) && {
            &&& unique_column_named(t, c.name_spec())
            &&& forall|j: int|
                0 <= j < column_count_of(t) && #[trigger] column_named(t, j, c.name_spec()) ==> j == i
        },
{
    let c = CallCenterColumn::at_position(i).unwrap();
    let name = c.name();
    assert forall|j: int| 0 <= j < column_count_of(t) && #[trigger] column_named(t, j, name) implies j
        == i by {
        let d = CallCenterColumn::at_position(j).unwrap();
        CallCenterColumn::lemma_name_injective(d, c);
        d.lemma_position_round_trip();
        c.lemma_position_round_trip();
    }
    assert(column_named(t, i, name));
}

/// Distinct tables have distinct names.
proof fn lemma_name_of_injective(u: Table, t: Table)
    ensures
        name_of(u) == name_of(t) ==> u == t,
{
    reveal_strlit("call_center");
    reveal_strlit("warehouse");
    reveal_strlit("ship_mode");
    reveal_strlit("reason");
    reveal_strlit("income_band");
    reveal_strlit("customer_demographics");
    if name_of(u) == name_of(t) {
        assert(name_of(u).len() == name_of(t).len());
        assert(name_of(u)[0] == name_of(t)[0]);
    }
}

/// Each table is the one table found under its own name: table names are
/// distinct.
pub proof fn lemma_table_found_by_own_name(t: Table)
    ensures
        tables_named(name_of(t)) == seq![t],
{
    let p = |u: Table| name_of(u) == name_of(t);
    assert forall|u: Table| #[trigger] p(u) <==> u == t by {
        lemma_name_of_injective(u, t);
    }
    reveal_with_fuel(Seq::<Table>::filter, 7);
    assert(base_table_list().filter(p) =~= seq![t]);
}

impl Table {
    /// The name of the table in lower case.
    pub fn get_name(&self) -> (r: &'static str)
        ensures
            r@ == name_of(*self),
    {
        match self {
            Table::CallCenter => "call_center",
            Table::Warehouse => "warehouse",
            Table::ShipMode => "ship_mode",
            Table::Reason => "reason",
            Table::IncomeBand => "income_band",
            Table::CustomerDemographics => "customer_demographics",
        }
    }

    /// The text of the table when it is displayed: its name.
    pub fn to_string(&self) -> (r: String)
        ensures
            r@ == name_of(*self),
    {
        String::from_str(self.get_name())
    }

    /// The flags of the table.
    pub fn get_table_flags(&self) -> (r: TableFlags)
        ensures
            r == table_flags(*self),
    {
        match self {
            Table::CallCenter => TableFlagsBuilder::new().set_is_small().set_keeps_history().build(),
            Table::Warehouse => TableFlagsBuilder::new().set_is_small().build(),
            Table::ShipMode => TableFlagsBuilder::new().set_is_small().build(),
            Table::Reason => TableFlagsBuilder::new().set_is_small().build(),
            Table::IncomeBand => TableFlagsBuilder::new().set_is_small().build(),
            Table::CustomerDemographics => TableFlagsBuilder::new().build(),
        }
    }

    /// Basis points (hundredths of a percent) of the values of the table
    /// that are null.
    pub fn get_null_basis_points(&self) -> (r: i32)
        ensures
            r == (match *self {
                Table::CallCenter | Table::Warehouse | Table::ShipMode | Table::Reason => 100i32,
                Table::IncomeBand | Table::CustomerDemographics => 0i32,
            }),
    {
        match self {
            Table::CallCenter => 100,
            Table::Warehouse => 100,
            Table::ShipMode => 100,
            Table::Reason => 100,
            Table::IncomeBand => 0,
            Table::CustomerDemographics => 0,
        }
    }

    /// Bit map of the columns of the table that are never null.
    pub fn get_not_null_bit_map(&self) -> (r: i64)
        ensures
            r == (match *self {
                Table::CallCenter => 0xBi64,
                Table::Warehouse | Table::ShipMode | Table::Reason => 0x3i64,
                Table::IncomeBand | Table::CustomerDemographics => 0x1i64,
            }),
    {
        match self {
            Table::CallCenter => 0xB,
            Table::Warehouse => 0x3,
            Table::ShipMode => 0x3,
            Table::Reason => 0x3,
            Table::IncomeBand => 0x1,
            Table::CustomerDemographics => 0x1,
        }
    }

    /// How the row count of the table depends on the scale factor.
    pub fn get_scaling_info(&self) -> (r: ScalingInfo)
        ensures
            r.multiplier_spec() == (if *self is CustomerDemographics {
                2int
            } else {
                0int
            }),
            r.scaling_model_spec() == (if *self is CallCenter {
                ScalingModel::Logarithmic
            } else {
                ScalingModel::Static
            }),
            r.row_counts_spec() == (match *self {
                Table::CallCenter => seq![0i32, 3, 12, 15, 18, 21, 24, 27, 30, 30],
                Table::Warehouse => seq![0i32, 1, 1, 1, 1, 1, 1, 1, 1, 5],
                Table::ShipMode => seq![0i32, 1, 1, 1, 1, 1, 1, 1, 1, 20],
                Table::Reason => seq![0i32, 1, 1, 1, 1, 1, 1, 1, 1, 35],
                Table::IncomeBand => seq![0i32, 1, 1, 1, 1, 1, 1, 1, 1, 20],
                Table::CustomerDemographics => seq![
                    0i32,
                    19208,
                    19208,
                    19208,
                    19208,
                    19208,
                    19208,
                    19208,
                    19208,
                    19208,
                ],
            }),
            r.update_percentage_spec() == 0,
    {
        let (multiplier, model, row_counts): (i32, ScalingModel, [i32; 10]) = match self {
            Table::CallCenter => (
                0,
                ScalingModel::Logarithmic,
                [0, 3, 12, 15, 18, 21, 24, 27, 30, 30],
            ),
            Table::Warehouse => (0, ScalingModel::Static, [0, 1, 1, 1, 1, 1, 1, 1, 1, 5]),
            Table::ShipMode => (0, ScalingModel::Static, [0, 1, 1, 1, 1, 1, 1, 1, 1, 20]),
            Table::Reason => (0, ScalingModel::Static, [0, 1, 1, 1, 1, 1, 1, 1, 1, 35]),
            Table::IncomeBand => (0, ScalingModel::Static, [0, 1, 1, 1, 1, 1, 1, 1, 1, 20]),
            Table::CustomerDemographics => (
                2,
                ScalingModel::Static,
                [0, 19208, 19208, 19208, 19208, 19208, 19208, 19208, 19208, 19208],
            ),
        };
        assert(row_counts@ == (match *self {
            Table::CallCenter => seq![0i32, 3, 12, 15, 18, 21, 24, 27, 30, 30],
            Table::Warehouse => seq![0i32, 1, 1, 1, 1, 1, 1, 1, 1, 5],
            Table::ShipMode => seq![0i32, 1, 1, 1, 1, 1, 1, 1, 1, 20],
            Table::Reason => seq![0i32, 1, 1, 1, 1, 1, 1, 1, 1, 35],
            Table::IncomeBand => seq![0i32, 1, 1, 1, 1, 1, 1, 1, 1, 20],
            Table::CustomerDemographics => seq![
                0i32,
                19208,
                19208,
                19208,
                19208,
                19208,
                19208,
                19208,
                19208,
                19208,
            ],
        }));
        ScalingInfo::new(multiplier, model, &row_counts, 0).unwrap()
    }

    /// The number of user-visible columns of the table; tables whose columns
    /// are not described have none.
    pub fn get_column_count(&self) -> (r: usize)
        ensures
            r == column_count_of(*self),
    {
        match self {
            Table::CallCenter => CallCenterColumn::values().len(),
            _ => 0,
        }
    }

    /// The number of generator columns of the table.
    pub fn get_generator_column_count(&self) -> (r: usize)
        ensures
            r == generator_column_count_of(*self),
    {
        match self {
            Table::CallCenter => CallCenterGeneratorColumn::values().len(),
            Table::Warehouse => WarehouseGeneratorColumn::values().len(),
            Table::ShipMode => ShipModeGeneratorColumn::values().len(),
            Table::Reason => ReasonGeneratorColumn::values().len(),
            Table::IncomeBand => IncomeBandGeneratorColumn::values().len(),
            Table::CustomerDemographics => CustomerDemographicsGeneratorColumn::values().len(),
        }
    }

    /// The user-visible column at a position, if the table has one there.
    pub fn get_column_by_index(&self, index: usize) -> (r: Option<TableColumn>)
        ensures
            r == column_at(*self, index as int),
    {
        match self {
            Table::CallCenter => match CallCenterColumn::from_position(index) {
                Some(c) => Some(TableColumn::CallCenter(c)),
                None => None,
            },
            _ => None,
        }
    }

    /// The generator column at a position, if the table has one there.
    pub fn get_generator_column_by_index(&self, index: usize) -> (r: Option<TableGeneratorColumn>)
        ensures
            r == generator_column_at(*self, index as int),
    {
        match self {
            Table::CallCenter => match CallCenterGeneratorColumn::from_position(index) {
                Some(c) => Some(TableGeneratorColumn::CallCenter(c)),
                None => None,
            },
            Table::Warehouse => match WarehouseGeneratorColumn::from_position(index) {
                Some(c) => Some(TableGeneratorColumn::Warehouse(c)),
                None => None,
            },
            Table::ShipMode => match ShipModeGeneratorColumn::from_position(index) {
                Some(c) => Some(TableGeneratorColumn::ShipMode(c)),
                None => None,
            },
            Table::Reason => match ReasonGeneratorColumn::from_position(index) {
                Some(c) => Some(TableGeneratorColumn::Reason(c)),
                None => None,
            },
            Table::IncomeBand => match IncomeBandGeneratorColumn::from_position(index) {
                Some(c) => Some(TableGeneratorColumn::IncomeBand(c)),
                None => None,
            },
            Table::CustomerDemographics => match CustomerDemographicsGeneratorColumn::from_position(
                index,
            ) {
                Some(c) => Some(TableGeneratorColumn::CustomerDemographics(c)),
                None => None,
            },
        }
    }

    /// The column whose name is `column_name` when case is ignored.
    pub fn get_column(&self, column_name: &str) -> (r: Result<TableColumn, TpcdsError>)
        ensures
            r is Ok <==> unique_column_named(*self, lowercase_of(column_name@)),
            r matches Ok(c) ==> exists|i: int|
                0 <= i < column_count_of(*self) && column_at(*self, i) == Some(c) && #[trigger] column_named(
                    *self,
                    i,
                    lowercase_of(column_name@),
                ),
            r matches Err(e) ==> (if several_columns_named(*self, lowercase_of(column_name@)) {
                e@ == several_columns_message(column_name@, *self)
            } else {
                e@ == column_not_found_message(column_name@, *self)
            }),
    {
        let lowered = to_lowercase(column_name);
        self.get_column_with_lowercase_name(column_name, lowered.as_str())
    }

    /// The column whose name is `column_name_lower`, the lower-case form of
    /// `column_name`; errors quote `column_name`. Column names are written in
    /// lower case, so they are compared as they are.
    pub fn get_column_with_lowercase_name(&self, column_name: &str, column_name_lower: &str) -> (r:
        Result<TableColumn, TpcdsError>)
        ensures
            r is Ok <==> unique_column_named(*self, column_name_lower@),
            r matches Ok(c) ==> exists|i: int|
                0 <= i < column_count_of(*self) && column_at(*self, i) == Some(c) && #[trigger] column_named(
                    *self,
                    i,
                    column_name_lower@,
                ),
            r matches Err(e) ==> (if several_columns_named(*self, column_name_lower@) {
                e@ == several_columns_message(column_name@, *self)
            } else {
                e@ == column_not_found_message(column_name@, *self)
            }),
    {
        let column_count = self.get_column_count();
        let mut found: Option<TableColumn> = None;
        let ghost mut found_at: int = -1;
        let mut i: usize = 0;
        while i < column_count
            invariant
                column_count == column_count_of(*self),
                i <= column_count,
                found is None ==> forall|j: int| 0 <= j < i ==> !#[trigger] column_named(*self, j, column_name_lower@),
                found matches Some(c) ==> {
                    &&& 0 <= found_at < i
                    &&& column_at(*self, found_at) == Some(c)
                    &&& column_named(*self, found_at, column_name_lower@)
                    &&& forall|j: int| 0 <= j < i && j != found_at ==> !#[trigger] column_named(*self, j, column_name_lower@)
                },
            decreases column_count - i,
        {
            if let Some(col) = self.get_column_by_index(i) {
                if str_equal(col.get_name(), column_name_lower) {
                    if found.is_some() {
                        let mut message = String::from_str("Multiple columns found matching '");
                        message.append(column_name);
                        message.append("' in table '");
                        message.append(self.get_name());
                        message.append("'");
                        assert(several_columns_named(*self, column_name_lower@)) by {
                            assert(column_named(*self, found_at, column_name_lower@));
                            assert(column_named(*self, i as int, column_name_lower@));
                        }
                        return Err(TpcdsError::from_string(message));
                    }
                    found = Some(col);
                    proof {
                        found_at = i as int;
                    }
                }
            }
            i += 1;
        }
        match found {
            Some(c) => {
                assert(column_named(*self, found_at, column_name_lower@));
                Ok(c)
            },
            None => {
                let mut message = String::from_str("Column '");
                message.append(column_name);
                message.append("' not found in table '");
                message.append(self.get_name());
                message.append("'");
                assert(!several_columns_named(*self, column_name_lower@));
                assert(!unique_column_named(*self, column_name_lower@));
                Err(TpcdsError::from_string(message))
            },
        }
    }

    /// Whether the rows of the table are revisions that keep history.
    pub fn keeps_history(&self) -> (r: bool)
        ensures
            r == table_flags(*self).keeps_history,
    {
        self.get_table_flags().keeps_history()
    }

    /// Whether the table is small enough to be generated in one piece.
    pub fn is_small(&self) -> (r: bool)
        ensures
            r == table_flags(*self).is_small,
    {
        self.get_table_flags().is_small()
    }

    /// Whether the rows of the table are generated date by date.
    pub fn is_date_based(&self) -> (r: bool)
        ensures
            r == table_flags(*self).is_date_based,
    {
        self.get_table_flags().is_date_based()
    }

    /// All tables, in their canonical order.
    pub fn get_base_tables() -> (r: Vec<Table>)
        ensures
            r@ == base_table_list(),
    {
        let v = vec![
            Table::CallCenter,
            Table::Warehouse,
            Table::ShipMode,
            Table::Reason,
            Table::IncomeBand,
            Table::CustomerDemographics,
        ];
        assert(v@ == base_table_list());
        v
    }

    /// The table whose name is `table_name` when case is ignored.
    pub fn get_table(table_name: &str) -> (r: Result<Table, TpcdsError>)
        ensures
            r is Ok <==> tables_named(lowercase_of(table_name@)).len() == 1,
            r matches Ok(t) ==> tables_named(lowercase_of(table_name@)) == seq![t],
            r matches Err(e) ==> (if tables_named(lowercase_of(table_name@)).len() == 0 {
                e@ == table_not_found_message(table_name@)
            } else {
                e@ == several_tables_message(table_name@)
            }),
    {
        let lowered = to_lowercase(table_name);
        Self::get_table_with_lowercase_name(table_name, lowered.as_str())
    }

    /// The table whose name is `table_name_lower`, the lower-case form of
    /// `table_name`; errors quote `table_name`.
    pub fn get_table_with_lowercase_name(table_name: &str, table_name_lower: &str) -> (r: Result<
        Table,
        TpcdsError,
    >)
        ensures
            r is Ok <==> tables_named(table_name_lower@).len() == 1,
            r matches Ok(t) ==> tables_named(table_name_lower@) == seq![t],
            r matches Err(e) ==> (if tables_named(table_name_lower@).len() == 0 {
                e@ == table_not_found_message(table_name@)
            } else {
                e@ == several_tables_message(table_name@)
            }),
    {
        let base_tables = Self::get_base_tables();
        let mut matches: Vec<Table> = Vec::new();
        let mut i: usize = 0;
        while i < base_tables.len()
            invariant
                base_tables@ == base_table_list(),
                i <= base_tables@.len(),
                matches@ == base_table_list().subrange(0, i as int).filter(
                    |t: Table| name_of(t) == table_name_lower@,
                ),
            decreases base_tables@.len() - i,
        {
            let t = base_tables[i];
            proof {
                reveal_with_fuel(Seq::<Table>::filter, 1);
                assert(base_table_list().subrange(0, i + 1).drop_last() == base_table_list().subrange(
                    0,
                    i as int,
                ));
            }
            if str_equal(t.get_name(), table_name_lower) {
                matches.push(t);
            }
            i += 1;
        }
        assert(base_table_list().subrange(0, 6) == base_table_list());
        if matches.len() == 1 {
            assert(matches@ == seq![matches@[0]]);
            Ok(matches[0])
        } else if matches.len() == 0 {
            let mut message = String::from_str("Table '");
            message.append(table_name);
            message.append("' not found");
            Err(TpcdsError::from_string(message))
        } else {
            let mut message = String::from_str("Multiple tables found matching '");
            message.append(table_name);
            message.append("'");
            Err(TpcdsError::from_string(message))
        }
    }

    /// The column-side view of a table.
    pub open spec fn to_column_table_spec(self) -> ColumnTable {
        match self {
            Table::CallCenter => ColumnTable::CallCenter,
            Table::Warehouse => ColumnTable::Warehouse,
            Table::ShipMode => ColumnTable::ShipMode,
            Table::Reason => ColumnTable::Reason,
            Table::IncomeBand => ColumnTable::IncomeBand,
            Table::CustomerDemographics => ColumnTable::CustomerDemographics,
        }
    }

    /// The table of the column-side view, where it is one of these tables.
    pub open spec fn from_column_table_spec(t: ColumnTable) -> Option<Table> {
        match t {
            ColumnTable::CallCenter => Some(Table::CallCenter),
            ColumnTable::Warehouse => Some(Table::Warehouse),
            ColumnTable::ShipMode => Some(Table::ShipMode),
            ColumnTable::Reason => Some(Table::Reason),
            ColumnTable::IncomeBand => Some(Table::IncomeBand),
            ColumnTable::CustomerDemographics => Some(Table::CustomerDemographics),
            _ => None,
        }
    }

    /// The column-side view of a table.
    pub fn to_column_table(&self) -> (r: ColumnTable)
        ensures
            r == self.to_column_table_spec(),
    {
        match self {
            Table::CallCenter => ColumnTable::CallCenter,
            Table::Warehouse => ColumnTable::Warehouse,
            Table::ShipMode => ColumnTable::ShipMode,
            Table::Reason => ColumnTable::Reason,
            Table::IncomeBand => ColumnTable::IncomeBand,
            Table::CustomerDemographics => ColumnTable::CustomerDemographics,
        }
    }

    /// The table of the column-side view, where it is one of these tables.
    pub fn from_column_table(table: ColumnTable) -> (r: Option<Table>)
        ensures
            r == Self::from_column_table_spec(table),
    {
        match table {
            ColumnTable::CallCenter => Some(Table::CallCenter),
            ColumnTable::Warehouse => Some(Table::Warehouse),
            ColumnTable::ShipMode => Some(Table::ShipMode),
            ColumnTable::Reason => Some(Table::Reason),
            ColumnTable::IncomeBand => Some(Table::IncomeBand),
            ColumnTable::CustomerDemographics => Some(Table::CustomerDemographics),
            _ => None,
        }
    }
}

impl From<Table> for ColumnTable {
    fn from(table: Table) -> (r: ColumnTable) {
        table.to_column_table()
    }
}

impl vstd::std_specs::convert::FromSpecImpl<Table> for ColumnTable {
    open spec fn obeys_from_spec() -> bool {
        true
    }

    open spec fn from_spec(table: Table) -> ColumnTable {
        table.to_column_table_spec()
    }
}

} // verus!
