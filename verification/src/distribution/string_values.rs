use vstd::prelude::*;
use crate::distribution::utils::{
    WeightsBuilder,
    cumulative_weights_spec,
    last_weight,
    lemma_refused_weight_persists,
};
use crate::error::TpcdsError;
use crate::random::generator::{RandomValueGenerator, uniform_int_value};
use crate::random::stream::{RandomNumberStreamImpl, StreamState, lemma_advance_zero, lemma_draw_in_range};

verus! {

/// The abstract value of a distribution of strings: the strings and their
/// cumulative weights.
pub struct StringsView {
    pub values: Seq<Seq<char>>,
    pub weights: Seq<i32>,
}

/// The first position whose cumulative weight reaches `w`, from `i` on.
pub open spec fn first_reaching(weights: Seq<i32>, w: int, i: int) -> int
    decreases weights.len() - i,
{
    if i >= weights.len() || i < 0 {
        weights.len() as int
    } else if w <= weights[i] {
        i
    } else {
        first_reaching(weights, w, i + 1)
    }
}

/// The string a draw picks from a distribution and the state after it:
/// nothing, and no draw, from an empty distribution.
pub open spec fn pick_spec(d: StringsView, st: StreamState) -> (Option<Seq<char>>, StreamState) {
    if d.values.len() == 0 {
        (None, st)
    } else {
        let w = uniform_int_value(st.draw(0), 1, d.weights.last() as int);
        (Some(d.values[first_reaching(d.weights, w, 0)]), st.advance(1))
    }
}

/// A distribution view as a distribution holds it: a cumulative weight per
/// value, and a positive total unless there is no value.
pub open spec fn strings_well_formed(d: StringsView) -> bool {
    &&& d.values.len() == d.weights.len()
    &&& d.values.len() > 0 ==> d.weights.last() >= 1
}

/// A weight no larger than the last cumulative weight is reached at some
/// position.
proof fn lemma_first_reaching_in_range(weights: Seq<i32>, w: int, i: int)
    requires
        0 <= i < weights.len(),
        w <= weights.last(),
    ensures
        i <= first_reaching(weights, w, i) < weights.len(),
    decreases weights.len() - i,
{
    if w > weights[i] {
        lemma_first_reaching_in_range(weights, w, i + 1);
    }
}

/// A draw from a distribution gives one of its values and uses one value of
/// the stream; a draw from an empty distribution gives nothing and uses
/// none.
pub proof fn lemma_pick_is_a_value(d: StringsView, st: StreamState)
    requires
        strings_well_formed(d),
    ensures
        d.values.len() > 0 ==> (pick_spec(d, st).0 matches Some(v) && d.values.contains(v)
            && pick_spec(d, st).1 == st.advance(1)),
        d.values.len() == 0 ==> pick_spec(d, st) == (None::<Seq<char>>, st),
{
    if d.values.len() > 0 {
        lemma_draw_in_range(st, 0);
        let w = uniform_int_value(st.draw(0), 1, d.weights.last() as int);
        assert(1 <= w <= d.weights.last());
        lemma_first_reaching_in_range(d.weights, w, 0);
        let k = first_reaching(d.weights, w, 0);
        assert(d.values[k] == d.values[first_reaching(d.weights, w, 0)]);
    }
}

/// The message of a distribution whose values and weights differ in number.
pub const LENGTH_MISMATCH_MESSAGE: &'static str = "values and weights differ in number";

/// The message of a distribution whose weights are all zero.
pub const ZERO_WEIGHT_MESSAGE: &'static str = "total weight must be positive";

/// A distribution of strings, each with a weight; a string is picked with
/// probability proportional to its weight.
#[derive(Debug)]
pub struct StringValuesDistribution {
    values: Vec<String>,
    weights: Vec<i32>,
}

impl View for StringValuesDistribution {
    type V = StringsView;

    closed spec fn view(&self) -> StringsView {
        StringsView { values: self.values@.map_values(|s: String| s@), weights: self.weights@ }
    }
}

/// Cumulative weights that start at or above zero and never decrease.
pub open spec fn cumulative(weights: Seq<i32>) -> bool {
    &&& forall|i: int| 0 <= i < weights.len() ==> 0 <= #[trigger] weights[i]
    &&& forall|i: int, j: int| 0 <= i <= j < weights.len() ==> weights[i] <= weights[j]
}

impl StringValuesDistribution {
    #[verifier::type_invariant]
    spec fn well_formed(self) -> bool {
        &&& self.values@.len() == self.weights@.len()
        &&& cumulative(self.weights@)
        &&& self.weights@.len() > 0 ==> self.weights@.last() >= 1
    }

    /// Builds a distribution from strings and their weights. The weights
    /// must be as many as the strings, none negative, and their total must
    /// fit an `i32` and be positive unless there are no strings; the
    /// distribution keeps the cumulative weights.
    pub fn new(values: Vec<String>, weights: &[i32]) -> (r: Result<Self, TpcdsError>)
        ensures
            values@.len() != weights@.len() ==> (r matches Err(e) && e@
                == LENGTH_MISMATCH_MESSAGE@),
            values@.len() == weights@.len() ==> match cumulative_weights_spec(weights@) {
                Err(m) => r matches Err(e) && e@ == m,
                Ok(c) => if c.len() > 0 && c.last() < 1 {
                    r matches Err(e) && e@ == ZERO_WEIGHT_MESSAGE@
                } else {
                    r matches Ok(d) && d@ == (StringsView {
                        values: values@.map_values(|s: String| s@),
                        weights: c,
                    })
                },
            },
    {
        if values.len() != weights.len() {
            return Err(TpcdsError::new(LENGTH_MISMATCH_MESSAGE));
        }
        let mut builder = WeightsBuilder::new();
        let mut i: usize = 0;
        while i < weights.len()
            invariant
                i <= weights@.len(),
                values@.len() == weights@.len(),
                builder.well_formed(),
                builder@.len() == i,
                cumulative_weights_spec(weights@.take(i as int)) == Ok::<Seq<i32>, Seq<char>>(
                    builder@,
                ),
                cumulative(builder@),
            decreases weights@.len() - i,
        {
            let ghost before = builder@;
            assert(weights@.take(i + 1).drop_last() =~= weights@.take(i as int));
            match builder.compute_and_add_next_weight(weights[i]) {
                Ok(()) => {},
                Err(e) => {
                    proof {
                        lemma_refused_weight_persists(weights@, i + 1);
                    }
                    return Err(e);
                },
            }
            assert(builder@ == before.push((last_weight(before) + weights@[i as int]) as i32));
            i += 1;
        }
        assert(weights@.take(weights@.len() as int) =~= weights@);
        let cumulative_weights = builder.build();
        if cumulative_weights.len() > 0 && cumulative_weights[cumulative_weights.len() - 1] < 1 {
            return Err(TpcdsError::new(ZERO_WEIGHT_MESSAGE));
        }
        Ok(StringValuesDistribution { values, weights: cumulative_weights })
    }

    /// The number of strings.
    pub fn get_size(&self) -> (r: usize)
        ensures
            r == self@.values.len(),
            strings_well_formed(self@),
    {
        proof {
            use_type_invariant(self);
        }
        self.values.len()
    }

    /// The string at a position, if there is one.
    pub fn get_value_at_index(&self, index: usize) -> (r: Option<&str>)
        ensures
            match r {
                Some(s) => index < self@.values.len() && s@ == self@.values[index as int],
                None => index >= self@.values.len(),
            },
    {
        if index < self.values.len() {
            Some(self.values[index].as_str())
        } else {
            None
        }
    }

    /// Picks a string: a value is drawn between 1 and the total weight, and
    /// the first string whose cumulative weight reaches it is returned.
    pub fn pick_random_value(&self, random_number_stream: &mut RandomNumberStreamImpl) -> (r:
        Option<&str>)
        ensures
            ({
                let (v, st) = pick_spec(self@, old(random_number_stream)@);
                &&& final(random_number_stream)@ == st
                &&& match r {
                    Some(s) => v == Some(s@),
                    None => v is None,
                }
            }),
    {
        proof {
            use_type_invariant(self);
        }
        let n = self.weights.len();
        if n == 0 {
            return None;
        }
        let ghost st = random_number_stream@;
        let weight = RandomValueGenerator::generate_uniform_random_int(
            1,
            self.weights[n - 1],
            random_number_stream,
        );
        let mut index: usize = 0;
        while index < n
            invariant
                n == self.weights@.len(),
                n == self.values@.len(),
                index <= n,
                cumulative(self.weights@),
                1 <= weight <= self.weights@[n - 1],
                forall|j: int| 0 <= j < index ==> weight > #[trigger] self.weights@[j],
                st == old(random_number_stream)@,
                random_number_stream@ == st.advance(1),
                weight == uniform_int_value(st.draw(0), 1, self.weights@[n - 1] as int),
                first_reaching(self.weights@, weight as int, 0) == first_reaching(
                    self.weights@,
                    weight as int,
                    index as int,
                ),
            decreases n - index,
        {
            if weight <= self.weights[index] {
                return Some(self.values[index].as_str());
            }
            index += 1;
        }
        assert(weight > self.weights@[n - 1]);
        None
    }
}

} // verus!
