use vstd::prelude::*;
use crate::business_key_generator::{
    business_key_spec,
    lemma_business_key_injective,
    make_business_key,
};
use crate::config::scaling::id_count_spec;
use crate::table::Table;
use crate::types::date::{JULIAN_DATA_END_DATE, JULIAN_DATA_START_DATE};

verus! {

/// The middle of the data set's date range.
pub const ONE_HALF_DATE: i64 = 2451910;

/// A third of the data set's date range, in days.
pub const ONE_THIRD_PERIOD: i64 = 730;

/// One third into the data set's date range.
pub const ONE_THIRD_DATE: i64 = 2451545;

/// Two thirds into the data set's date range.
pub const TWO_THIRDS_DATE: i64 = 2452275;

/// The abstract value of a revision key.
pub struct ScdKeyView {
    pub business_key: Seq<char>,
    pub start_date: int,
    pub end_date: int,
    pub is_new_business_key: bool,
}

/// The business key, the dates of validity and the novelty of the key of
/// one revision of a row of a slowly changing dimension.
#[derive(Debug, Clone)]
pub struct SlowlyChangingDimensionKey {
    business_key: String,
    start_date: i64,
    end_date: i64,
    is_new_business_key: bool,
}

impl View for SlowlyChangingDimensionKey {
    type V = ScdKeyView;

    closed spec fn view(&self) -> ScdKeyView {
        ScdKeyView {
            business_key: self.business_key@,
            start_date: self.start_date as int,
            end_date: self.end_date as int,
            is_new_business_key: self.is_new_business_key,
        }
    }
}

impl SlowlyChangingDimensionKey {
    /// A key from its parts.
    pub fn new(business_key: String, start_date: i64, end_date: i64, is_new_business_key: bool) -> (r:
        Self)
        ensures
            r@ == (ScdKeyView {
                business_key: business_key@,
                start_date: start_date as int,
                end_date: end_date as int,
                is_new_business_key,
            }),
    {
        SlowlyChangingDimensionKey { business_key, start_date, end_date, is_new_business_key }
    }

    /// The business key shared by all revisions of a row.
    pub fn get_business_key(&self) -> (r: &str)
        ensures
            r@ == self@.business_key,
    {
        self.business_key.as_str()
    }

    /// The first julian day the revision is valid.
    pub fn get_start_date(&self) -> (r: i64)
        ensures
            r == self@.start_date,
    {
        self.start_date
    }

    /// The last julian day the revision is valid, `-1` for the current revision.
    pub fn get_end_date(&self) -> (r: i64)
        ensures
            r == self@.end_date,
    {
        self.end_date
    }

    /// Whether this revision is the first of its business key.
    pub fn is_new_business_key(&self) -> (r: bool)
        ensures
            r == self@.is_new_business_key,
    {
        self.is_new_business_key
    }
}

/// The number of a table, its position among the tables.
pub open spec fn table_number(table: Table) -> int {
    match table {
        Table::CallCenter => 0,
        Table::Warehouse => 1,
        Table::ShipMode => 2,
        Table::Reason => 3,
        Table::IncomeBand => 4,
        Table::CustomerDemographics => 5,
    }
}

/// The position of a table among the tables.
pub fn get_table_number(table: Table) -> (r: i64)
    ensures
        r == table_number(table),
{
    match table {
        Table::CallCenter => 0,
        Table::Warehouse => 1,
        Table::ShipMode => 2,
        Table::Reason => 3,
        Table::IncomeBand => 4,
        Table::CustomerDemographics => 5,
    }
}

/// The remainder of `row_number` divided by six, rounded toward zero.
pub open spec fn row_phase(row_number: int) -> int {
    if row_number >= 0 {
        row_number % 6
    } else {
        -((-row_number) % 6)
    }
}

/// The first row of the revisions a row belongs to, whose number the
/// business key of the row spells.
pub open spec fn key_row(row_number: int) -> int {
    let phase = row_phase(row_number);
    if phase == 3 || phase == 5 {
        row_number - 1
    } else if phase == 0 {
        row_number - 2
    } else {
        row_number
    }
}

/// The revision key of a row. Rows come in groups of six that hold three
/// business keys: one with a single revision (phase 1), one with two
/// (phases 2 and 3) and one with three (phases 4, 5 and 0). The dates of a
/// table are shifted back by six days per table number.
pub open spec fn scd_key_spec(table: Table, row_number: int) -> ScdKeyView {
    let shift = table_number(table) * 6;
    let phase = row_phase(row_number);
    let (start, end, is_new) = if phase == 1 {
        (JULIAN_DATA_START_DATE - shift, -1int, true)
    } else if phase == 2 {
        (JULIAN_DATA_START_DATE - shift, ONE_HALF_DATE - shift, true)
    } else if phase == 3 {
        (ONE_HALF_DATE - shift + 1, -1int, false)
    } else if phase == 4 {
        (JULIAN_DATA_START_DATE - shift, ONE_THIRD_DATE - shift, true)
    } else if phase == 5 {
        (ONE_THIRD_DATE - shift + 1, TWO_THIRDS_DATE - shift, false)
    } else {
        (TWO_THIRDS_DATE - shift + 1, -1int, false)
    };
    ScdKeyView {
        business_key: business_key_spec(key_row(row_number)),
        start_date: start,
        end_date: if end > JULIAN_DATA_END_DATE {
            -1
        } else {
            end
        },
        is_new_business_key: is_new,
    }
}

/// Computes the revision key of a row of a table that keeps history.
pub fn compute_scd_key(table: Table, row_number: i64) -> (r: SlowlyChangingDimensionKey)
    requires
        row_number >= 0 || row_phase(row_number as int) == 0,
    ensures
        r@ == scd_key_spec(table, row_number as int),
{
    let modulo = row_number % 6;
    let table_number = get_table_number(table);
    let shift = table_number * 6;
    let (business_key, start_date, mut end_date, is_new_key) = if modulo == 1 {
        (make_business_key(row_number), JULIAN_DATA_START_DATE - shift, -1i64, true)
    } else if modulo == 2 {
        (
            make_business_key(row_number),
            JULIAN_DATA_START_DATE - shift,
            ONE_HALF_DATE - shift,
            true,
        )
    } else if modulo == 3 {
        (make_business_key(row_number - 1), ONE_HALF_DATE - shift + 1, -1i64, false)
    } else if modulo == 4 {
        (
            make_business_key(row_number),
            JULIAN_DATA_START_DATE - shift,
            ONE_THIRD_DATE - shift,
            true,
        )
    } else if modulo == 5 {
        (
            make_business_key(row_number - 1),
            ONE_THIRD_DATE - shift + 1,
            TWO_THIRDS_DATE - shift,
            false,
        )
    } else {
        (make_business_key(row_number - 2), TWO_THIRDS_DATE - shift + 1, -1i64, false)
    };
    if end_date > JULIAN_DATA_END_DATE {
        end_date = -1;
    }
    SlowlyChangingDimensionKey::new(business_key, start_date, end_date, is_new_key)
}

/// Each business key has one, two or three revisions on consecutive rows:
/// the first row of a group starts a new key, the following rows of the
/// group repeat its business key and take over the day after the previous
/// revision ends, and only the last revision stays open (end date -1).
pub proof fn lemma_revisions_of_a_business_key(table: Table, row_number: int)
    requires
        row_number >= 0,
    ensures
        ({
            let k0 = scd_key_spec(table, row_number);
            let k1 = scd_key_spec(table, row_number + 1);
            let k2 = scd_key_spec(table, row_number + 2);
            &&& row_phase(row_number) == 1 ==> k0.is_new_business_key && k0.end_date == -1
            &&& row_phase(row_number) == 2 ==> {
                &&& k0.is_new_business_key
                &&& k0.start_date <= k0.end_date
                &&& k1.business_key == k0.business_key
                &&& !k1.is_new_business_key
                &&& k1.start_date == k0.end_date + 1
                &&& k1.end_date == -1
            }
            &&& row_phase(row_number) == 4 ==> {
                &&& k0.is_new_business_key
                &&& k0.start_date <= k0.end_date
                &&& k1.business_key == k0.business_key
                &&& !k1.is_new_business_key
                &&& k1.start_date == k0.end_date + 1
                &&& k1.start_date <= k1.end_date
                &&& k2.business_key == k0.business_key
                &&& !k2.is_new_business_key
                &&& k2.start_date == k1.end_date + 1
                &&& k2.end_date == -1
            }
        }),
{
}

/// The revisions of a business key cover the data set's date range from its
/// first day, shifted back six days per table number: the first revision
/// starts on the first day of the data set; a key with two revisions changes
/// half way through the range, one with three after each third of it.
pub proof fn lemma_revision_dates_split_the_data_range(table: Table, row_number: int)
    requires
        row_number >= 0,
    ensures
        ({
            let k = scd_key_spec(table, row_number);
            let phase = row_phase(row_number);
            let shift = 6 * table_number(table);
            let range = JULIAN_DATA_END_DATE - JULIAN_DATA_START_DATE;
            &&& (phase == 1 || phase == 2 || phase == 4) ==> k.start_date == JULIAN_DATA_START_DATE
                - shift
            &&& phase == 2 ==> k.end_date == JULIAN_DATA_START_DATE + range / 2 - shift
            &&& phase == 4 ==> k.end_date == JULIAN_DATA_START_DATE + range / 3 - shift
            &&& phase == 5 ==> k.end_date == JULIAN_DATA_START_DATE + 2 * (range / 3) - shift
            &&& phase == 3 ==> k.start_date == JULIAN_DATA_START_DATE + range / 2 - shift + 1
            &&& phase == 5 ==> k.start_date == JULIAN_DATA_START_DATE + range / 3 - shift + 1
            &&& phase == 0 ==> k.start_date == JULIAN_DATA_START_DATE + 2 * (range / 3) - shift + 1
        }),
{
}

/// A revision starts a new business key exactly on the first row of its
/// group (phases 1, 2 and 4); an open revision (end date -1) is exactly the
/// last of its group (phases 1, 3 and 0), and a closed one ends no earlier
/// than it starts.
pub proof fn lemma_new_keys_and_open_revisions(table: Table, row_number: int)
    requires
        row_number >= 0,
    ensures
        ({
            let k = scd_key_spec(table, row_number);
            let phase = row_phase(row_number);
            &&& k.is_new_business_key <==> (phase == 1 || phase == 2 || phase == 4)
            &&& k.end_date == -1 <==> (phase == 1 || phase == 3 || phase == 0)
            &&& k.end_date != -1 ==> k.start_date <= k.end_date
        }),
{
}

/// Two revisions share a business key exactly when they are revisions of
/// the same row group, that is when they have the same first row.
pub proof fn lemma_same_business_key_same_first_row(table: Table, r1: i64, r2: i64)
    requires
        r1 >= 0,
        r2 >= 0,
    ensures
        scd_key_spec(table, r1 as int).business_key == scd_key_spec(table, r2 as int).business_key
            <==> key_row(r1 as int) == key_row(r2 as int),
{
    let k1 = key_row(r1 as int);
    let k2 = key_row(r2 as int);
    lemma_business_key_injective(k1 as i64, k2 as i64);
}

/// The number of rows among rows 1 to `n` of a table that start a new
/// business key.
pub open spec fn new_business_keys(table: Table, n: int) -> int
    decreases n,
{
    if n <= 0 {
        0
    } else {
        new_business_keys(table, n - 1) + if scd_key_spec(table, n).is_new_business_key {
            1int
        } else {
            0int
        }
    }
}

/// The id count of a table that keeps history is the number of distinct
/// business keys among its rows: rows 1 to `n` start exactly
/// `id_count_spec(n, true)` new business keys.
pub proof fn lemma_id_count_counts_new_business_keys(table: Table, n: int)
    requires
        n >= 0,
    ensures
        new_business_keys(table, n) == id_count_spec(n, true),
    decreases n,
{
    if n > 0 {
        lemma_id_count_counts_new_business_keys(table, n - 1);
        assert(n / 6 == (n - 1) / 6 + (if n % 6 == 0 {
            1int
        } else {
            0int
        }));
    }
}

/// Whether a field takes its new value in a revision: when its change flag
/// is even, or when the revision starts a new business key.
pub open spec fn should_change_dimension_spec(flags: int, is_new_key: bool) -> bool {
    flags % 2 == 0 || is_new_key
}

/// The value of a field in a revision: the new value where the field
/// changes, the previous one otherwise.
pub fn get_value_for_slowly_changing_dimension<T>(
    field_change_flag: i32,
    is_new_key: bool,
    old_value: T,
    new_value: T,
) -> (r: T)
    ensures
        r == (if should_change_dimension_spec(field_change_flag as int, is_new_key) {
            new_value
        } else {
            old_value
        }),
{
    if should_change_dimension(field_change_flag, is_new_key) {
        new_value
    } else {
        old_value
    }
}

/// Whether a field takes its new value in a revision.
pub fn should_change_dimension(flags: i32, is_new_key: bool) -> (r: bool)
    ensures
        r == should_change_dimension_spec(flags as int, is_new_key),
{
    flags % 2 == 0 || is_new_key
}

} // verus!
