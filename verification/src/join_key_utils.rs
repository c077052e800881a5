use vstd::prelude::*;
use crate::config::table::Table;
use crate::error::TpcdsError;
use crate::random::generator::{
    RandomValueGenerator,
    uniform_int_value,
    uniform_key_ok,
    uniform_key_value,
};
use crate::random::stream::{RandomNumberStreamImpl, StreamState, lemma_draw_in_range};
use vstd::arithmetic::div_mod::lemma_fundamental_div_mod_converse;
use crate::types::date::{
    Date,
    JULIAN_DATA_END_DATE,
    JULIAN_TODAYS_DATE,
    is_leap,
    julian_day_number,
};

verus! {

/// Number of web pages per web site.
pub const WEB_PAGES_PER_SITE: i32 = 123;

/// Days between the creation dates of consecutive web sites.
pub const WEB_DATE_STAGGER: i64 = 17;

/// Shortest delay between a catalog sale and its shipment, in days.
pub const CS_MIN_SHIP_DELAY: i32 = 2;

/// Longest delay between a catalog sale and its shipment, in days.
pub const CS_MAX_SHIP_DELAY: i32 = 90;

/// The time-of-day key drawn from `st`: an hour and a second within it.
pub open spec fn time_join_key_spec(st: StreamState) -> int {
    uniform_int_value(st.draw(0), 0, 23) * 3600 + uniform_int_value(st.draw(1), 0, 3599)
}

/// A time key is the second of the day of the drawn hour and of the drawn
/// second within that hour: the hour comes from the first draw (0 to 23),
/// the second from the next (0 to 3599).
pub proof fn lemma_time_key_is_second_of_day(st: StreamState)
    ensures
        0 <= time_join_key_spec(st) < 86400,
        time_join_key_spec(st) / 3600 == uniform_int_value(st.draw(0), 0, 23),
        time_join_key_spec(st) % 3600 == uniform_int_value(st.draw(1), 0, 3599),
        0 <= uniform_int_value(st.draw(0), 0, 23) <= 23,
        0 <= uniform_int_value(st.draw(1), 0, 3599) <= 3599,
{
    lemma_draw_in_range(st, 0);
    lemma_draw_in_range(st, 1);
    let h = uniform_int_value(st.draw(0), 0, 23);
    let sec = uniform_int_value(st.draw(1), 0, 3599);
    assert(0 <= h <= 23);
    assert(0 <= sec <= 3599);
    lemma_fundamental_div_mod_converse(h * 3600 + sec, 3600, h, sec);
}

/// The date key drawn from `st` for a day of `year`; `-1` when the day lies
/// after the date the data set treats as today.
pub open spec fn date_join_key_spec(st: StreamState, year: int) -> int {
    let max_day = if is_leap(year) {
        365
    } else {
        364
    };
    let result = julian_day_number(year, 1, 1) + uniform_int_value(st.draw(0), 0, max_day);
    if result > JULIAN_TODAYS_DATE {
        -1
    } else {
        result
    }
}

/// The key of a table that keeps history, drawn from `st`: `-1` for a date
/// after the end of the data set or for a key beyond the row count.
pub open spec fn scd_join_key_spec(
    st: StreamState,
    julian_date: int,
    row_count: int,
    id_count: int,
) -> int {
    if julian_date > JULIAN_DATA_END_DATE {
        -1
    } else {
        let key = uniform_key_value(st.draw(0), 1, id_count);
        if key > row_count {
            -1
        } else {
            key
        }
    }
}

/// Generates a foreign key to `to_table`. `row_count` and `id_count` are the
/// number of rows and of distinct business keys of `to_table` at the scale
/// of the data set; `join_count` is the date the key is drawn for, where the
/// target keeps history.
pub fn generate_join_key(
    random_number_stream: &mut RandomNumberStreamImpl,
    to_table: Table,
    join_count: i64,
    row_count: i64,
    id_count: i64,
) -> (r: Result<i64, TpcdsError>)
    requires
        !(to_table is CatalogPage || to_table is DateDim || to_table is TimeDim) ==> (if to_table.keeps_history_spec() {
            julian_count_needs_key(join_count as int) ==> uniform_key_ok(1, id_count as int)
        } else {
            uniform_key_ok(1, row_count as int)
        }),
    ensures
        to_table is CatalogPage ==> (r matches Err(e) && e@ == CATALOG_PAGE_MESSAGE@) && final(random_number_stream)@ == old(
            random_number_stream,
        )@,
        to_table is DateDim ==> ({
            let st = old(random_number_stream)@;
            let year = uniform_int_value(st.draw(0), 1998, 2002);
            &&& (r matches Ok(k) && k == date_join_key_spec(st.advance(1), year))
            &&& final(random_number_stream)@ == st.advance(2)
        }),
        to_table is TimeDim ==> (r matches Ok(k) && k == time_join_key_spec(old(random_number_stream)@)) && final(random_number_stream)@ == old(random_number_stream)@.advance(2),
        !(to_table is CatalogPage || to_table is DateDim || to_table is TimeDim) ==> (if to_table.keeps_history_spec() {
            &&& (r matches Ok(k) && k == scd_join_key_spec(
                    old(random_number_stream)@,
                    join_count as int,
                    row_count as int,
                    id_count as int,
                ))
            &&& final(random_number_stream)@ == old(random_number_stream)@.advance(
                if julian_count_needs_key(join_count as int) {
                    1nat
                } else {
                    0nat
                },
            )
        } else {
            &&& (r matches Ok(k) && k == uniform_key_value(old(random_number_stream)@.draw(0), 1, row_count as int))
            &&& final(random_number_stream)@ == old(random_number_stream)@.advance(1)
        }),
{
    match to_table {
        Table::CatalogPage => generate_catalog_page_join_key(random_number_stream, join_count),
        Table::DateDim => {
            let year = RandomValueGenerator::generate_uniform_random_int(
                1998,
                2002,
                random_number_stream,
            );
            proof {
                crate::random::stream::lemma_advance_step(old(random_number_stream)@, 1);
            }
            generate_date_join_key(random_number_stream, year)
        },
        Table::TimeDim => generate_time_join_key(random_number_stream),
        _ => {
            if to_table.keeps_history() {
                generate_scd_join_key(random_number_stream, join_count, row_count, id_count)
            } else {
                Ok(RandomValueGenerator::generate_uniform_random_key(1, row_count, random_number_stream))
            }
        },
    }
}

/// Whether a key is drawn for a revision date: dates after the end of the
/// data set have no revision.
pub open spec fn julian_count_needs_key(julian_date: int) -> bool {
    julian_date <= JULIAN_DATA_END_DATE
}

/// The message of a join key to the catalog page table.
pub const CATALOG_PAGE_MESSAGE: &'static str =
    "catalog_page join keys not yet implemented - needs CatalogPageDistributions (Phase 2.3)";

/// Join keys to the catalog page table need the catalog page distributions,
/// which this library does not hold: the call always fails and draws nothing.
pub fn generate_catalog_page_join_key(
    random_number_stream: &mut RandomNumberStreamImpl,
    julian_date: i64,
) -> (r: Result<i64, TpcdsError>)
    ensures
        r matches Err(e) && e@ == CATALOG_PAGE_MESSAGE@,
        final(random_number_stream)@ == old(random_number_stream)@,
{
    Err(TpcdsError::new(CATALOG_PAGE_MESSAGE))
}

/// Generates a key to the date table: a day of `year`, or `-1` for a day
/// after the date the data set treats as today.
pub fn generate_date_join_key(random_number_stream: &mut RandomNumberStreamImpl, year: i32) -> (r:
    Result<i64, TpcdsError>)
    requires
        1998 <= year <= 2002,
    ensures
        (r matches Ok(k) && k == date_join_key_spec(old(random_number_stream)@, year as int)),
        final(random_number_stream)@ == old(random_number_stream)@.advance(1),
{
    let max_day = if Date::is_leap_year(year) {
        365
    } else {
        364
    };
    let day_number = RandomValueGenerator::generate_uniform_random_int(
        0,
        max_day,
        random_number_stream,
    );
    let result = Date::new(year, 1, 1).to_julian_days() as i64 + day_number as i64;
    Ok(
        if result > JULIAN_TODAYS_DATE as i64 {
            -1
        } else {
            result
        },
    )
}

/// Generates a key to the time table: the second of the day of a uniformly
/// drawn hour and second within it.
pub fn generate_time_join_key(random_number_stream: &mut RandomNumberStreamImpl) -> (r: Result<
    i64,
    TpcdsError,
>)
    ensures
        (r matches Ok(k) && k == time_join_key_spec(old(random_number_stream)@)),
        0 <= time_join_key_spec(old(random_number_stream)@) < 86400,
        r matches Ok(k) && k / 3600 == uniform_int_value(old(random_number_stream)@.draw(0), 0, 23)
            && k % 3600 == uniform_int_value(old(random_number_stream)@.draw(1), 0, 3599),
        final(random_number_stream)@ == old(random_number_stream)@.advance(2),
{
    let ghost st = random_number_stream@;
    proof {
        lemma_time_key_is_second_of_day(st);
    }
    let hour = RandomValueGenerator::generate_uniform_random_int(0, 23, random_number_stream);
    proof {
        crate::random::stream::lemma_advance_step(st, 1);
    }
    let seconds = RandomValueGenerator::generate_uniform_random_int(0, 3599, random_number_stream);
    Ok((hour as i64 * 3600) + seconds as i64)
}

/// Generates a key to a table that keeps history: `-1` for a date after the
/// end of the data set (nothing is drawn then), otherwise a business key
/// between 1 and `id_count`, or `-1` when it exceeds `row_count`.
pub fn generate_scd_join_key(
    random_number_stream: &mut RandomNumberStreamImpl,
    julian_date: i64,
    row_count: i64,
    id_count: i64,
) -> (r: Result<i64, TpcdsError>)
    requires
        julian_count_needs_key(julian_date as int) ==> uniform_key_ok(1, id_count as int),
    ensures
        (r matches Ok(k) && k == scd_join_key_spec(
                old(random_number_stream)@,
                julian_date as int,
                row_count as int,
                id_count as int,
            )),
        final(random_number_stream)@ == old(random_number_stream)@.advance(
            if julian_count_needs_key(julian_date as int) {
                1nat
            } else {
                0nat
            },
        ),
{
    if julian_date > JULIAN_DATA_END_DATE {
        proof {
            reveal_with_fuel(crate::random::stream::nth_seed, 1);
            reveal_with_fuel(crate::random::stream::bump_n, 1);
            assert(old(random_number_stream)@.advance(0) == old(random_number_stream)@);
        }
        return Ok(-1);
    }
    let key = RandomValueGenerator::generate_uniform_random_key(1, id_count, random_number_stream);
    Ok(
        if key > row_count {
            -1
        } else {
            key
        },
    )
}

} // verus!
