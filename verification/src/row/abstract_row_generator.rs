use vstd::prelude::*;
use crate::generator::GeneratorColumn;
use crate::random::stream::{
    MAX_COLUMN,
    RandomNumberStreamImpl,
    StreamState,
    initial_state,
    nth_seed,
    lemma_advance_step,
    lemma_advance_zero,
    lemma_bump_n_from_zero,
    lemma_nth_seed_add,
};
use crate::table::{
    Table,
    first_global_column,
    generator_column_at,
    generator_column_count_of,
    seeds_of_column_number,
};

verus! {

/// The state of a stream once the current row has used all the values it
/// is allotted: the missing values are drawn and the counter is reset.
pub open spec fn row_completed(st: StreamState) -> StreamState {
    let missing = if st.seeds_used < st.seeds_per_row {
        st.seeds_per_row - st.seeds_used
    } else {
        0
    };
    StreamState { seed: nth_seed(st.seed, missing as nat), seeds_used: 0, ..st }
}

/// The state of a stream after skipping to the start of row `rows`.
pub open spec fn rows_skipped(st: StreamState, rows: int) -> StreamState {
    StreamState {
        seed: if rows * st.seeds_per_row > 0 {
            nth_seed(st.initial_seed, (rows * st.seeds_per_row) as nat)
        } else {
            st.initial_seed
        },
        ..st
    }
}

/// Rows are independent of one another: a stream at the start of row `row`
/// that draws any number of values up to its allotment and then completes
/// the row stands at the start of row `row + 1`, exactly where skipping
/// `row + 1` rows from its starting seed puts it. So generating rows one by
/// one and skipping to a row give the same values.
pub proof fn lemma_completed_row_is_skipped_row(st: StreamState, row: nat, k: nat)
    requires
        st.seeds_per_row >= 0,
        st.seeds_used == 0,
        st.seed == rows_skipped(st, row as int).seed,
        k <= st.seeds_per_row,
        st.seeds_per_row <= i32::MAX,
    ensures
        row_completed(st.advance(k)) == rows_skipped(st, row + 1int),
{
    let spr = st.seeds_per_row as nat;
    lemma_bump_n_from_zero(k);
    assert((row + 1) * spr == row * spr + spr) by (nonlinear_arith);
    assert(row * spr >= 0) by (nonlinear_arith);
    lemma_nth_seed_add(st.seed, k, (spr - k) as nat);
    lemma_nth_seed_add(st.initial_seed, row * spr, spr);
    reveal_with_fuel(nth_seed, 1);
}

/// The values a column draws per row, as a count of draws.
pub open spec fn draws_per_row(table: Table, number: int) -> nat {
    let s = seeds_of_column_number(table, number);
    if s > 0 {
        s as nat
    } else {
        0
    }
}

/// Moving to the next row draws, from the stream of each generator column
/// of a table (the last one included), exactly the values that column is
/// allotted per row; for a stream at the start of its row that is where
/// completing the row puts it.
pub proof fn lemma_next_row_draws_each_allotment(t: Table, i: int, st: StreamState)
    requires
        0 <= i < generator_column_count_of(t),
    ensures
        generator_column_at(t, i) matches Some(c) && {
            &&& draws_per_row(t, c.global_column_number_spec()) == if c.seeds_per_row_spec() > 0 {
                c.seeds_per_row_spec()
            } else {
                0
            }
            &&& (st.seeds_used == 0 && st.seeds_per_row == c.seeds_per_row_spec()
                && c.seeds_per_row_spec() >= 0) ==> st.advance(
                draws_per_row(t, c.global_column_number_spec()),
            ).seed == row_completed(st).seed
        },
{
}

/// Draws the values of the current row that a stream has not used of its
/// allotment, and resets its counter.
fn complete_row(stream: &mut RandomNumberStreamImpl)
    ensures
        final(stream)@ == row_completed(old(stream)@),
{
    let ghost st = stream@;
    let ghost mut k: nat = 0;
    while stream.get_seeds_used() < stream.get_seeds_per_row()
        invariant
            stream@ == st.advance(k),
            st.seeds_used < st.seeds_per_row ==> st.seeds_used + k <= st.seeds_per_row,
            st.seeds_used >= st.seeds_per_row ==> k == 0,
            stream@.seeds_used == (if st.seeds_used < st.seeds_per_row {
                st.seeds_used + k
            } else {
                st.seeds_used
            }),
        decreases st.seeds_per_row - st.seeds_used - k,
    {
        proof {
            lemma_advance_step(st, k);
        }
        crate::random::generator::RandomValueGenerator::generate_uniform_random_int(1, 100, stream);
        proof {
            k = k + 1;
        }
    }
    stream.reset_seeds_used();
}

/// Common state of the row generators: the table, and one random number
/// stream for each generator column that has been used, keyed by its global
/// column number. The streams sit in a vector beside their column numbers
/// (no number twice): every stream is visited and changed in place, and the
/// streams do not depend on one another, so the order they are kept in is
/// of no consequence.
pub struct AbstractRowGenerator {
    table: Table,
    column_numbers: Vec<i32>,
    random_number_streams: Vec<RandomNumberStreamImpl>,
}

impl AbstractRowGenerator {
    /// One stream per column number, and no column number twice.
    pub closed spec fn well_formed(&self) -> bool {
        &&& self.column_numbers@.len() == self.random_number_streams@.len()
        &&& self.column_numbers@.no_duplicates()
    }

    /// The table rows are generated for.
    pub closed spec fn table_spec(&self) -> Table {
        self.table
    }

    /// The global column numbers of the streams, in the order they were created.
    pub closed spec fn column_numbers_spec(&self) -> Seq<i32> {
        self.column_numbers@
    }

    /// The states of the streams, in the order of `column_numbers_spec`.
    pub closed spec fn streams_spec(&self) -> Seq<StreamState> {
        self.random_number_streams@.map_values(|s: RandomNumberStreamImpl| s@)
    }

    /// A generator for `table` that has created no stream yet.
    pub fn new(table: Table) -> (r: Self)
        ensures
            r.well_formed(),
            r.table_spec() == table,
            r.column_numbers_spec() == Seq::<i32>::empty(),
            r.streams_spec() == Seq::<StreamState>::empty(),
    {
        let r = AbstractRowGenerator {
            table,
            column_numbers: Vec::new(),
            random_number_streams: Vec::new(),
        };
        assert(r.random_number_streams@.map_values(|s: RandomNumberStreamImpl| s@) =~= Seq::<
            StreamState,
        >::empty());
        r
    }

    /// The table rows are generated for.
    pub fn get_table(&self) -> (r: Table)
        ensures
            r == self.table_spec(),
    {
        self.table
    }

    /// The number of streams created so far.
    pub fn stream_count(&self) -> (r: usize)
        requires
            self.well_formed(),
        ensures
            r == self.column_numbers_spec().len(),
            r == self.streams_spec().len(),
    {
        self.column_numbers.len()
    }

    /// The position of the stream of a global column number, if there is one.
    fn find_stream(&self, global_column_number: i32) -> (r: Option<usize>)
        ensures
            r matches Some(i) ==> i < self.column_numbers@.len() && self.column_numbers@[i as int]
                == global_column_number,
            r is None ==> !self.column_numbers@.contains(global_column_number),
    {
        let mut i: usize = 0;
        while i < self.column_numbers.len()
            invariant
                i <= self.column_numbers@.len(),
                forall|j: int| 0 <= j < i ==> self.column_numbers@[j] != global_column_number,
            decreases self.column_numbers@.len() - i,
        {
            if self.column_numbers[i] == global_column_number {
                return Some(i);
            }
            i += 1;
        }
        None
    }

    /// The stream of a generator column; it is created from the column's
    /// global column number and seeds per row when the column is first used.
    pub fn get_random_number_stream<C: GeneratorColumn>(&mut self, column: &C) -> (r:
        &mut RandomNumberStreamImpl)
        requires
            old(self).well_formed(),
            0 <= column.global_column_number_spec() <= MAX_COLUMN,
            column.seeds_per_row_spec() >= 0,
        ensures
            final(self).well_formed(),
            final(self).table_spec() == old(self).table_spec(),
            ({
                let n = column.global_column_number_spec() as i32;
                let old_numbers = old(self).column_numbers_spec();
                let old_streams = old(self).streams_spec();
                if old_numbers.contains(n) {
                    let i = old_numbers.index_of(n);
                    &&& r@ == old_streams[i]
                    &&& final(self).column_numbers_spec() == old_numbers
                    &&& final(self).streams_spec() == old_streams.update(i, final(r)@)
                } else {
                    &&& r@ == initial_state(n as int, column.seeds_per_row_spec())
                    &&& final(self).column_numbers_spec() == old_numbers.push(n)
                    &&& final(self).streams_spec() == old_streams.push(final(r)@)
                }
            }),
    {
        let global_column_number = column.get_global_column_number();
        let index = match self.find_stream(global_column_number) {
            Some(i) => i,
            None => {
                let seeds_per_row = column.get_seeds_per_row();
                let stream = RandomNumberStreamImpl::new_with_column(
                    global_column_number,
                    seeds_per_row,
                ).unwrap();
                self.column_numbers.push(global_column_number);
                self.random_number_streams.push(stream);
                self.random_number_streams.len() - 1
            },
        };
        &mut self.random_number_streams[index]
    }

    /// Draws, from every stream, the values the current row has not used of
    /// its allotment, and resets the counters for the next row.
    pub fn consume_remaining_seeds_for_row(&mut self)
        requires
            old(self).well_formed(),
        ensures
            final(self).well_formed(),
            final(self).table_spec() == old(self).table_spec(),
            final(self).column_numbers_spec() == old(self).column_numbers_spec(),
            final(self).streams_spec() == old(self).streams_spec().map_values(
                |st: StreamState| row_completed(st),
            ),
    {
        let n = self.random_number_streams.len();
        let ghost old_streams = self.streams_spec();
        let mut i: usize = 0;
        while i < n
            invariant
                n == self.random_number_streams@.len(),
                n == self.column_numbers@.len(),
                i <= n,
                self.table == old(self).table,
                self.column_numbers@ == old(self).column_numbers@,
                old_streams == old(self).streams_spec(),
                old_streams.len() == n,
                forall|j: int| 0 <= j < i ==> #[trigger] self.streams_spec()[j] == row_completed(old_streams[j]),
                forall|j: int| i <= j < n ==> #[trigger] self.streams_spec()[j] == old_streams[j],
            decreases n - i,
        {
            let ghost before = self.streams_spec();
            assert(before[i as int] == old_streams[i as int]);
            complete_row(&mut self.random_number_streams[i]);
            assert(self.streams_spec() =~= before.update(i as int, row_completed(old_streams[i as int])));
            i += 1;
        }
        assert(self.streams_spec() =~= old_streams.map_values(|st: StreamState| row_completed(st)));
    }

    /// Moves every stream to the start of row `starting_row_number`.
    pub fn skip_rows_until_starting_row_number(&mut self, starting_row_number: i64)
        requires
            old(self).well_formed(),
            forall|j: int|
                0 <= j < old(self).streams_spec().len() ==> i64::MIN <= starting_row_number
                    * #[trigger] old(self).streams_spec()[j].seeds_per_row <= i64::MAX,
        ensures
            final(self).well_formed(),
            final(self).table_spec() == old(self).table_spec(),
            final(self).column_numbers_spec() == old(self).column_numbers_spec(),
            final(self).streams_spec() == old(self).streams_spec().map_values(
                |st: StreamState| rows_skipped(st, starting_row_number as int),
            ),
    {
        let n = self.random_number_streams.len();
        let ghost old_streams = self.streams_spec();
        let mut i: usize = 0;
        while i < n
            invariant
                n == self.random_number_streams@.len(),
                n == self.column_numbers@.len(),
                old_streams.len() == n,
                i <= n,
                self.table == old(self).table,
                self.column_numbers@ == old(self).column_numbers@,
                old_streams == old(self).streams_spec(),
                forall|j: int|
                    0 <= j < n ==> i64::MIN <= starting_row_number * #[trigger] old_streams[j].seeds_per_row
                        <= i64::MAX,
                forall|j: int| 0 <= j < i ==> #[trigger] self.streams_spec()[j] == rows_skipped(old_streams[j], starting_row_number as int),
                forall|j: int| i <= j < n ==> #[trigger] self.streams_spec()[j] == old_streams[j],
            decreases n - i,
        {
            let ghost before = self.streams_spec();
            assert(before[i as int] == old_streams[i as int]);
            self.random_number_streams[i].skip_rows(starting_row_number);
            assert(self.streams_spec() =~= before.update(
                i as int,
                rows_skipped(old_streams[i as int], starting_row_number as int),
            ));
            i += 1;
        }
        assert(self.streams_spec() =~= old_streams.map_values(
            |st: StreamState| rows_skipped(st, starting_row_number as int),
        ));
    }

    /// Moves the streams of the table's generator columns past one row: each
    /// such stream draws the values its column is allotted per row.
    pub fn advance_to_next_row(&mut self, row_number: i64)
        requires
            old(self).well_formed(),
        ensures
            final(self).well_formed(),
            final(self).table_spec() == old(self).table_spec(),
            final(self).column_numbers_spec() == old(self).column_numbers_spec(),
            final(self).streams_spec().len() == old(self).streams_spec().len(),
            forall|j: int|
                0 <= j < old(self).streams_spec().len() ==> #[trigger] final(self).streams_spec()[j]
                    == old(self).streams_spec()[j].advance(
                    draws_per_row(old(self).table_spec(), old(self).column_numbers_spec()[j] as int),
                ),
    {
        let table = self.table;
        let generator_column_count = table.get_generator_column_count();
        let ghost old_streams = self.streams_spec();
        let ghost first = first_global_column(table);
        let mut i: usize = 0;
        while i < generator_column_count
            invariant
                self.well_formed(),
                self.table == table,
                table == old(self).table,
                generator_column_count == generator_column_count_of(table),
                first == first_global_column(table),
                i <= generator_column_count,
                self.column_numbers@ == old(self).column_numbers@,
                old_streams == old(self).streams_spec(),
                self.streams_spec().len() == old_streams.len(),
                forall|j: int|
                    0 <= j < old_streams.len() ==> #[trigger] self.streams_spec()[j]
                        == old_streams[j].advance(
                        if 0 <= self.column_numbers@[j] - first < i {
                            draws_per_row(table, self.column_numbers@[j] as int)
                        } else {
                            0
                        },
                    ),
            decreases generator_column_count - i,
        {
            if let Some(gen_col) = table.get_generator_column_by_index(i) {
                let global_column_number = gen_col.get_global_column_number();
                let seeds_per_row = gen_col.get_seeds_per_row();
                assert(global_column_number == first + i);
                assert(seeds_per_row == seeds_of_column_number(table, global_column_number as int));
                if let Some(j) = self.find_stream(global_column_number) {
                    let ghost before = self.streams_spec();
                    assert(before[j as int] == old_streams[j as int].advance(0));
                    proof {
                        lemma_advance_zero(old_streams[j as int]);
                    }
                    let mut k: i32 = 0;
                    while k < seeds_per_row
                        invariant
                            0 <= k,
                            seeds_per_row > 0 ==> k <= seeds_per_row,
                            seeds_per_row <= 0 ==> k == 0,
                            j < self.random_number_streams@.len(),
                            self.random_number_streams@.len() == before.len(),
                            self.well_formed(),
                            self.table == table,
                            self.column_numbers@ == old(self).column_numbers@,
                            self.column_numbers@[j as int] == global_column_number,
                            forall|m: int|
                                0 <= m < before.len() && m != j ==> #[trigger] self.streams_spec()[m]
                                    == before[m],
                            self.streams_spec()[j as int] == old_streams[j as int].advance(k as nat),
                        decreases seeds_per_row - k,
                    {
                        proof {
                            lemma_advance_step(old_streams[j as int], k as nat);
                        }
                        let ghost mid = self.streams_spec();
                        self.random_number_streams[j].next_random();
                        assert(self.streams_spec() =~= mid.update(
                            j as int,
                            old_streams[j as int].advance((k + 1) as nat),
                        ));
                        k += 1;
                    }
                    proof {
                        assert forall|m: int| 0 <= m < old_streams.len() implies #[trigger] self.streams_spec()[m]
                            == old_streams[m].advance(
                            if 0 <= self.column_numbers@[m] - first < i + 1 {
                                draws_per_row(table, self.column_numbers@[m] as int)
                            } else {
                                0
                            },
                        ) by {
                            if m != j {
                                assert(self.column_numbers@[m] != self.column_numbers@[j as int]);
                            }
                        }
                    }
                }
            }
            i += 1;
        }
        proof {
            assert forall|j: int|
                0 <= j < old_streams.len() implies #[trigger] self.streams_spec()[j]
                == old_streams[j].advance(draws_per_row(table, self.column_numbers@[j] as int)) by {
                let p = self.column_numbers@[j] - first;
                if !(0 <= p < generator_column_count) {
                    assert(generator_column_at(table, p) is None);
                }
            }
        }
    }
}

} // verus!
