use vstd::prelude::*;
use crate::distribution::utils::{WeightsBuilder, add_weight_spec};
use crate::error::TpcdsError;
use crate::text::{
    debug_strings,
    debug_text,
    decimal_string,
    decimal_text,
    int_parse_error_text,
    parse_error_text,
    parse_i32,
    parse_i32_spec,
};
use vstd::string::StringExecFns;

verus! {

/// Number of weight fields of a calendar line.
pub const NUM_WEIGHT_FIELDS: usize = 10;

/// Number of value fields of a calendar line.
pub const NUM_VALUE_FIELDS: usize = 8;

/// The start of the message of a line without eight values.
pub const VALUE_COUNT_PREFIX: &'static str = "Expected line to contain 8 values, but it contained ";

/// The start of the message of a line without ten weights.
pub const WEIGHT_COUNT_PREFIX: &'static str = "Expected line to contain 10 weights, but it contained ";

/// The start of the message of a field that is not an integer.
pub const PARSE_FAILURE_PREFIX: &'static str = "Failed to parse ";

/// The name of the day-of-year field in messages.
pub const DAY_OF_YEAR_FIELD: &'static str = "day_of_year";

/// The name of the quarter field in messages.
pub const QUARTER_FIELD: &'static str = "quarter";

/// The name of the holiday-flag field in messages.
pub const HOLIDAY_FLAG_FIELD: &'static str = "holiday_flag";

/// The name of a weight field in messages.
pub const WEIGHT_FIELD: &'static str = "weight";

/// The message of a line whose values are not eight: their number and
/// their `Debug` text.
pub open spec fn value_count_message(values: Seq<Seq<char>>) -> Seq<char> {
    VALUE_COUNT_PREFIX@ + decimal_text(values.len()) + ": "@ + debug_text(values)
}

/// The message of a line whose weights are not ten: their number and their
/// `Debug` text.
pub open spec fn weight_count_message(weights: Seq<Seq<char>>) -> Seq<char> {
    WEIGHT_COUNT_PREFIX@ + decimal_text(weights.len()) + ": "@ + debug_text(weights)
}

/// The message of a field whose text is not an integer: the field, the text
/// and the error of reading it.
pub open spec fn parse_failure_message(field: Seq<char>, text: Seq<char>) -> Seq<char> {
    PARSE_FAILURE_PREFIX@ + field + " '"@ + text + "': "@ + parse_error_text(text)
}

/// The abstract value of a calendar distribution.
pub struct CalendarView {
    pub days_of_year: Seq<i32>,
    pub quarters: Seq<i32>,
    pub holiday_flags: Seq<i32>,
    pub weights: Seq<Seq<i32>>,
}

/// The text of a parsed line: its values and its weights.
pub open spec fn line_view(line: (Vec<String>, Vec<String>)) -> (Seq<Seq<char>>, Seq<Seq<char>>) {
    (line.0@.map_values(|s: String| s@), line.1@.map_values(|s: String| s@))
}

/// The calendar before any line.
pub open spec fn empty_calendar() -> CalendarView {
    CalendarView {
        days_of_year: Seq::empty(),
        quarters: Seq::empty(),
        holiday_flags: Seq::empty(),
        weights: Seq::new(NUM_WEIGHT_FIELDS as nat, |i: int| Seq::<i32>::empty()),
    }
}

/// The cumulative weight lists after the first `k` weights of a line.
pub open spec fn add_line_weights(lists: Seq<Seq<i32>>, ws: Seq<Seq<char>>, k: nat) -> Result<
    Seq<Seq<i32>>,
    Seq<char>,
>
    decreases k,
{
    if k == 0 {
        Ok(lists)
    } else {
        match add_line_weights(lists, ws, (k - 1) as nat) {
            Err(e) => Err(e),
            Ok(l) => match parse_i32_spec(ws[k - 1]) {
                None => Err(parse_failure_message(WEIGHT_FIELD@, ws[k - 1])),
                Some(w) => match add_weight_spec(l[k - 1], w as int) {
                    Err(e) => Err(e),
                    Ok(nw) => Ok(l.update(k - 1, nw)),
                },
            },
        }
    }
}

/// The calendar after one more line, or the message of the line's error.
/// Only the day of the year, the quarter and the holiday flag are kept of
/// the values.
pub open spec fn add_line(v: CalendarView, values: Seq<Seq<char>>, weights: Seq<Seq<char>>) -> Result<
    CalendarView,
    Seq<char>,
> {
    if values.len() != NUM_VALUE_FIELDS {
        Err(value_count_message(values))
    } else if weights.len() != NUM_WEIGHT_FIELDS {
        Err(weight_count_message(weights))
    } else {
        match parse_i32_spec(values[0]) {
            None => Err(parse_failure_message(DAY_OF_YEAR_FIELD@, values[0])),
            Some(day) => match parse_i32_spec(values[5]) {
                None => Err(parse_failure_message(QUARTER_FIELD@, values[5])),
                Some(quarter) => match parse_i32_spec(values[7]) {
                    None => Err(parse_failure_message(HOLIDAY_FLAG_FIELD@, values[7])),
                    Some(holiday) => match add_line_weights(
                        v.weights,
                        weights,
                        NUM_WEIGHT_FIELDS as nat,
                    ) {
                        Err(e) => Err(e),
                        Ok(w) => Ok(
                            CalendarView {
                                days_of_year: v.days_of_year.push(day),
                                quarters: v.quarters.push(quarter),
                                holiday_flags: v.holiday_flags.push(holiday),
                                weights: w,
                            },
                        ),
                    },
                },
            },
        }
    }
}

/// The calendar built from parsed lines, or the message of the first error.
pub open spec fn build_spec(lines: Seq<(Seq<Seq<char>>, Seq<Seq<char>>)>) -> Result<
    CalendarView,
    Seq<char>,
>
    decreases lines.len(),
{
    if lines.len() == 0 {
        Ok(empty_calendar())
    } else {
        match build_spec(lines.drop_last()) {
            Err(e) => Err(e),
            Ok(v) => add_line(v, lines.last().0, lines.last().1),
        }
    }
}

/// Once a prefix of the lines fails, every longer prefix fails the same way.
proof fn lemma_build_error_persists(lines: Seq<(Seq<Seq<char>>, Seq<Seq<char>>)>, n: int, m: int)
    requires
        0 <= n <= m <= lines.len(),
        build_spec(lines.subrange(0, n)) is Err,
    ensures
        build_spec(lines.subrange(0, m)) == build_spec(lines.subrange(0, n)),
    decreases m - n,
{
    if m > n {
        lemma_build_error_persists(lines, n, m - 1);
        assert(lines.subrange(0, m).drop_last() =~= lines.subrange(0, m - 1));
    }
}

/// Once the first weights of a line fail, the whole line fails the same way.
proof fn lemma_weights_error_persists(lists: Seq<Seq<i32>>, ws: Seq<Seq<char>>, k: nat, m: nat)
    requires
        k <= m,
        add_line_weights(lists, ws, k) is Err,
    ensures
        add_line_weights(lists, ws, m) == add_line_weights(lists, ws, k),
    decreases m - k,
{
    if m > k {
        lemma_weights_error_persists(lists, ws, k, (m - 1) as nat);
    }
}

/// The error of a line with the wrong number of values or weights.
fn count_failure(prefix: &str, fields: &Vec<String>) -> (r: TpcdsError)
    ensures
        r@ == prefix@ + decimal_text(fields@.len()) + ": "@ + debug_text(
            fields@.map_values(|v: String| v@),
        ),
{
    let mut message = String::from_str(prefix);
    message.append(decimal_string(fields.len()).as_str());
    message.append(": ");
    message.append(debug_strings(fields).as_str());
    TpcdsError::from_string(message)
}

/// The error of a field whose text is not an integer.
fn parse_failure(field: &str, text: &str) -> (r: TpcdsError)
    ensures
        r@ == parse_failure_message(field@, text@),
{
    let mut message = String::from_str(PARSE_FAILURE_PREFIX);
    message.append(field);
    message.append(" '");
    message.append(text);
    message.append("': ");
    message.append(int_parse_error_text(text).as_str());
    TpcdsError::from_string(message)
}

/// The calendar distribution of the date dimension: for each day of the
/// year its quarter and holiday flag, and ten lists of cumulative weights.
pub struct CalendarDistribution {
    days_of_year: Vec<i32>,
    quarters: Vec<i32>,
    holiday_flags: Vec<i32>,
    weights_lists: Vec<Vec<i32>>,
}

impl View for CalendarDistribution {
    type V = CalendarView;

    closed spec fn view(&self) -> CalendarView {
        CalendarView {
            days_of_year: self.days_of_year@,
            quarters: self.quarters@,
            holiday_flags: self.holiday_flags@,
            weights: self.weights_lists@.map_values(|w: Vec<i32>| w@),
        }
    }
}

impl CalendarDistribution {
    /// Days before the first of each month, in a common year and in a leap year.
    pub const DAYS_BEFORE_MONTH: [[i32; 12]; 2] = [
        [0, 31, 59, 90, 120, 151, 181, 212, 243, 273, 304, 334],
        [0, 31, 60, 91, 121, 152, 182, 213, 244, 274, 305, 335],
    ];

    /// Builds the distribution from the parsed lines of the calendar file,
    /// each a list of values and a list of weights.
    pub fn build_calendar_distribution(parsed_lines: &[(Vec<String>, Vec<String>)]) -> (r: Result<
        Self,
        TpcdsError,
    >)
        ensures
            match build_spec(parsed_lines@.map_values(|l: (Vec<String>, Vec<String>)| line_view(l))) {
                Ok(v) => r matches Ok(d) && d@ == v,
                Err(m) => r matches Err(e) && e@ == m,
            },
    {
        let ghost lines = parsed_lines@.map_values(|l: (Vec<String>, Vec<String>)| line_view(l));
        let mut days_of_year: Vec<i32> = Vec::new();
        let mut quarters: Vec<i32> = Vec::new();
        let mut holiday_flags: Vec<i32> = Vec::new();
        let mut builders: Vec<WeightsBuilder> = Vec::new();
        let mut b: usize = 0;
        while b < NUM_WEIGHT_FIELDS
            invariant
                b <= NUM_WEIGHT_FIELDS,
                builders@.len() == b,
                forall|j: int| 0 <= j < b ==> (#[trigger] builders@[j]).well_formed() && builders@[j]@ == Seq::<i32>::empty(),
            decreases NUM_WEIGHT_FIELDS - b,
        {
            builders.push(WeightsBuilder::new());
            b += 1;
        }
        assert(builders@.map_values(|w: WeightsBuilder| w@) =~= empty_calendar().weights);
        assert(lines.subrange(0, 0) =~= Seq::<(Seq<Seq<char>>, Seq<Seq<char>>)>::empty());
        let mut i: usize = 0;
        while i < parsed_lines.len()
            invariant
                i <= parsed_lines@.len(),
                lines == parsed_lines@.map_values(|l: (Vec<String>, Vec<String>)| line_view(l)),
                builders@.len() == NUM_WEIGHT_FIELDS,
                forall|j: int| 0 <= j < builders@.len() ==> (#[trigger] builders@[j]).well_formed(),
                build_spec(lines.subrange(0, i as int)) == Ok::<CalendarView, Seq<char>>(
                    CalendarView {
                        days_of_year: days_of_year@,
                        quarters: quarters@,
                        holiday_flags: holiday_flags@,
                        weights: builders@.map_values(|w: WeightsBuilder| w@),
                    },
                ),
            decreases parsed_lines@.len() - i,
        {
            let values = &parsed_lines[i].0;
            let weights = &parsed_lines[i].1;
            let ghost before = CalendarView {
                days_of_year: days_of_year@,
                quarters: quarters@,
                holiday_flags: holiday_flags@,
                weights: builders@.map_values(|w: WeightsBuilder| w@),
            };
            let ghost vs = lines[i as int].0;
            let ghost ws = lines[i as int].1;
            proof {
                assert(lines.subrange(0, i + 1).drop_last() =~= lines.subrange(0, i as int));
                assert(vs.len() == values@.len());
                assert(ws.len() == weights@.len());
            }
            if values.len() != NUM_VALUE_FIELDS {
                proof {
                    lemma_build_error_persists(lines, i + 1, lines.len() as int);
                    assert(lines.subrange(0, lines.len() as int) =~= lines);
                }
                return Err(count_failure(VALUE_COUNT_PREFIX, values));
            }
            if weights.len() != NUM_WEIGHT_FIELDS {
                proof {
                    lemma_build_error_persists(lines, i + 1, lines.len() as int);
                    assert(lines.subrange(0, lines.len() as int) =~= lines);
                }
                return Err(count_failure(WEIGHT_COUNT_PREFIX, weights));
            }
            assert(vs[0] == values@[0]@);
            let day = match parse_i32(values[0].as_str()) {
                Some(d) => d,
                None => {
                    proof {
                        lemma_build_error_persists(lines, i + 1, lines.len() as int);
                        assert(lines.subrange(0, lines.len() as int) =~= lines);
                    }
                    return Err(parse_failure(DAY_OF_YEAR_FIELD, values[0].as_str()));
                },
            };
            assert(vs[5] == values@[5]@);
            let quarter = match parse_i32(values[5].as_str()) {
                Some(q) => q,
                None => {
                    proof {
                        lemma_build_error_persists(lines, i + 1, lines.len() as int);
                        assert(lines.subrange(0, lines.len() as int) =~= lines);
                    }
                    return Err(parse_failure(QUARTER_FIELD, values[5].as_str()));
                },
            };
            assert(vs[7] == values@[7]@);
            let holiday = match parse_i32(values[7].as_str()) {
                Some(h) => h,
                None => {
                    proof {
                        lemma_build_error_persists(lines, i + 1, lines.len() as int);
                        assert(lines.subrange(0, lines.len() as int) =~= lines);
                    }
                    return Err(parse_failure(HOLIDAY_FLAG_FIELD, values[7].as_str()));
                },
            };
            let mut k: usize = 0;
            while k < NUM_WEIGHT_FIELDS
                invariant
                    k <= NUM_WEIGHT_FIELDS,
                    weights@.len() == NUM_WEIGHT_FIELDS,
                    ws == weights@.map_values(|s: String| s@),
                    builders@.len() == NUM_WEIGHT_FIELDS,
                    forall|j: int| 0 <= j < builders@.len() ==> (#[trigger] builders@[j]).well_formed(),
                    add_line_weights(before.weights, ws, k as nat) == Ok::<
                        Seq<Seq<i32>>,
                        Seq<char>,
                    >(builders@.map_values(|w: WeightsBuilder| w@)),
                    i < lines.len(),
                    lines == parsed_lines@.map_values(|l: (Vec<String>, Vec<String>)| line_view(l)),
                    lines[i as int] == (vs, ws),
                    vs.len() == NUM_VALUE_FIELDS,
                    build_spec(lines.subrange(0, i as int)) == Ok::<CalendarView, Seq<char>>(before),
                    lines.subrange(0, i + 1).drop_last() == lines.subrange(0, i as int),
                    parse_i32_spec(vs[0]) == Some(day),
                    parse_i32_spec(vs[5]) == Some(quarter),
                    parse_i32_spec(vs[7]) == Some(holiday),
                decreases NUM_WEIGHT_FIELDS - k,
            {
                assert(ws[k as int] == weights@[k as int]@);
                let weight = match parse_i32(weights[k].as_str()) {
                    Some(w) => w,
                    None => {
                        proof {
                            lemma_weights_error_persists(before.weights, ws, (k + 1) as nat, NUM_WEIGHT_FIELDS as nat);
                            lemma_build_error_persists(lines, i + 1, lines.len() as int);
                            assert(lines.subrange(0, lines.len() as int) =~= lines);
                        }
                        return Err(parse_failure(WEIGHT_FIELD, weights[k].as_str()));
                    },
                };
                let ghost current = builders@.map_values(|w: WeightsBuilder| w@);
                let result = builders[k].compute_and_add_next_weight(weight);
                match result {
                    Ok(()) => {},
                    Err(e) => {
                        proof {
                            lemma_weights_error_persists(before.weights, ws, (k + 1) as nat, NUM_WEIGHT_FIELDS as nat);
                            lemma_build_error_persists(lines, i + 1, lines.len() as int);
                            assert(lines.subrange(0, lines.len() as int) =~= lines);
                        }
                        return Err(e);
                    },
                }
                assert(builders@.map_values(|w: WeightsBuilder| w@) =~= current.update(
                    k as int,
                    builders@[k as int]@,
                ));
                k += 1;
            }
            days_of_year.push(day);
            quarters.push(quarter);
            holiday_flags.push(holiday);
            i += 1;
        }
        assert(lines.subrange(0, lines.len() as int) =~= lines);
        let mut weights_lists: Vec<Vec<i32>> = Vec::new();
        let ghost all = builders@.map_values(|w: WeightsBuilder| w@);
        let mut m: usize = 0;
        while builders.len() > 0
            invariant
                m + builders@.len() == NUM_WEIGHT_FIELDS,
                all.len() == NUM_WEIGHT_FIELDS,
                weights_lists@.map_values(|w: Vec<i32>| w@) == all.subrange(0, m as int),
                builders@.map_values(|w: WeightsBuilder| w@) == all.subrange(m as int, NUM_WEIGHT_FIELDS as int),
                lines == parsed_lines@.map_values(|l: (Vec<String>, Vec<String>)| line_view(l)),
                build_spec(lines) == Ok::<CalendarView, Seq<char>>(
                    CalendarView {
                        days_of_year: days_of_year@,
                        quarters: quarters@,
                        holiday_flags: holiday_flags@,
                        weights: all,
                    },
                ),
            decreases builders@.len(),
        {
            let ghost rest = builders@.map_values(|w: WeightsBuilder| w@);
            assert(rest[0] == builders@[0]@);
            let builder = builders.remove(0);
            let built = builder.build();
            assert(built@ == all[m as int]);
            let ghost prev = weights_lists@;
            assert(prev.map_values(|w: Vec<i32>| w@).len() == prev.len());
            assert(prev.len() == m);
            weights_lists.push(built);
            assert(weights_lists@ == prev.push(built));
            assert forall|j: int| 0 <= j <= m implies #[trigger] weights_lists@[j]@ == all[j] by {
                if j < m {
                    assert(prev.map_values(|w: Vec<i32>| w@)[j] == all.subrange(0, m as int)[j]);
                }
            }
            assert(builders@.map_values(|w: WeightsBuilder| w@) =~= rest.drop_first());
            assert(weights_lists@.map_values(|w: Vec<i32>| w@) =~= all.subrange(0, m + 1));
            m += 1;
        }
        assert(all.subrange(0, NUM_WEIGHT_FIELDS as int) =~= all);
        Ok(CalendarDistribution { days_of_year, quarters, holiday_flags, weights_lists })
    }

    /// The days of the year, one per line.
    pub fn days_of_year(&self) -> (r: &[i32])
        ensures
            r@ == self@.days_of_year,
    {
        self.days_of_year.as_slice()
    }

    /// The quarters, one per line.
    pub fn quarters(&self) -> (r: &[i32])
        ensures
            r@ == self@.quarters,
    {
        self.quarters.as_slice()
    }

    /// The holiday flags, one per line.
    pub fn holiday_flags(&self) -> (r: &[i32])
        ensures
            r@ == self@.holiday_flags,
    {
        self.holiday_flags.as_slice()
    }

    /// The quarter of the day with a 1-based index.
    pub fn get_quarter_at_index(&self, index: i32) -> (r: i32)
        requires
            1 <= index <= self@.quarters.len(),
        ensures
            r == self@.quarters[index - 1],
    {
        self.quarters[(index - 1) as usize]
    }

    /// The holiday flag of the day with a 1-based index.
    pub fn get_is_holiday_flag_at_index(&self, index: i32) -> (r: i32)
        requires
            1 <= index <= self@.holiday_flags.len(),
        ensures
            r == self@.holiday_flags[index - 1],
    {
        self.holiday_flags[(index - 1) as usize]
    }
}

} // verus!
