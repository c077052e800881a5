use vstd::prelude::*;
use crate::error::TpcdsError;
use crate::random::generator::prefix_sum;

verus! {

/// The last cumulative weight, 0 before the first.
pub open spec fn last_weight(weights: Seq<i32>) -> int {
    if weights.len() == 0 {
        0
    } else {
        weights.last() as int
    }
}

/// The cumulative weights after one more weight, or the message of the
/// error the weight causes: a negative weight, or a total beyond `i32`.
pub open spec fn add_weight_spec(weights: Seq<i32>, weight: int) -> Result<Seq<i32>, Seq<char>> {
    if weight < 0 {
        Err(NEGATIVE_WEIGHT_MESSAGE@)
    } else if last_weight(weights) + weight > i32::MAX {
        Err(WEIGHT_OVERFLOW_MESSAGE@)
    } else {
        Ok(weights.push((last_weight(weights) + weight) as i32))
    }
}

/// The cumulative weights of a list of weights, or the message of the first
/// weight that is refused.
pub open spec fn cumulative_weights_spec(weights: Seq<i32>) -> Result<Seq<i32>, Seq<char>>
    decreases weights.len(),
{
    if weights.len() == 0 {
        Ok(Seq::<i32>::empty())
    } else {
        match cumulative_weights_spec(weights.drop_last()) {
            Ok(c) => add_weight_spec(c, weights.last() as int),
            Err(m) => Err(m),
        }
    }
}

/// Once a weight is refused, the weights that follow it do not matter.
pub proof fn lemma_refused_weight_persists(weights: Seq<i32>, i: int)
    requires
        0 <= i <= weights.len(),
        cumulative_weights_spec(weights.take(i)) is Err,
    ensures
        cumulative_weights_spec(weights) == cumulative_weights_spec(weights.take(i)),
    decreases weights.len() - i,
{
    if i < weights.len() {
        assert(weights.take(i + 1).drop_last() =~= weights.take(i));
        lemma_refused_weight_persists(weights, i + 1);
    } else {
        assert(weights.take(i) =~= weights);
    }
}

/// The sum of the first `n` weights does not look past them.
proof fn lemma_prefix_sum_of_front(ws: Seq<i32>, n: int)
    requires
        0 <= n < ws.len(),
    ensures
        prefix_sum(ws.drop_last(), n) == prefix_sum(ws, n),
    decreases n,
{
    if n > 0 {
        lemma_prefix_sum_of_front(ws, n - 1);
    }
}

/// Weights are accepted exactly when none is negative and their total fits
/// an `i32`; the cumulative weights are then the running sums of the
/// weights.
pub proof fn lemma_cumulative_weights_are_running_sums(ws: Seq<i32>)
    ensures
        cumulative_weights_spec(ws) is Ok <==> ((forall|i: int| 0 <= i < ws.len() ==> 0 <= #[trigger] ws[i])
            && prefix_sum(ws, ws.len() as int) <= i32::MAX),
        cumulative_weights_spec(ws) matches Ok(c) ==> c.len() == ws.len() && forall|i: int|
            0 <= i < ws.len() ==> #[trigger] c[i] == prefix_sum(ws, i + 1),
    decreases ws.len(),
{
    if ws.len() > 0 {
        let front = ws.drop_last();
        lemma_cumulative_weights_are_running_sums(front);
        lemma_prefix_sum_of_front(ws, front.len() as int);
        assert forall|i: int| 0 <= i < front.len() implies #[trigger] prefix_sum(front, i + 1)
            == prefix_sum(ws, i + 1) by {
            lemma_prefix_sum_of_front(ws, i + 1);
        }
        if forall|i: int| 0 <= i < ws.len() ==> 0 <= #[trigger] ws[i] {
            assert(forall|i: int| 0 <= i < front.len() ==> 0 <= #[trigger] front[i]) by {
                assert forall|i: int| 0 <= i < front.len() implies 0 <= #[trigger] front[i] by {
                    assert(front[i] == ws[i]);
                }
            }
        } else {
            let k = choose|i: int| 0 <= i < ws.len() && !(0 <= #[trigger] ws[i]);
            if k < front.len() {
                assert(front[k] == ws[k]);
            }
        }
        if (forall|i: int| 0 <= i < front.len() ==> 0 <= #[trigger] front[i]) && ws.last() >= 0 {
            assert forall|i: int| 0 <= i < ws.len() implies 0 <= #[trigger] ws[i] by {
                if i < front.len() {
                    assert(front[i] == ws[i]);
                }
            }
        }
    }
}

/// The message of a negative weight.
pub const NEGATIVE_WEIGHT_MESSAGE: &'static str = "Weight cannot be negative.";

/// The message of a total weight beyond `i32`.
pub const WEIGHT_OVERFLOW_MESSAGE: &'static str = "Total weight does not fit in an i32.";

/// Accumulates weights into the cumulative weights a distribution draws by.
#[derive(Debug, Clone)]
pub struct WeightsBuilder {
    weights: Vec<i32>,
    previous_weight: i32,
}

impl View for WeightsBuilder {
    type V = Seq<i32>;

    closed spec fn view(&self) -> Seq<i32> {
        self.weights@
    }
}

impl WeightsBuilder {
    /// The previous weight is the last cumulative weight.
    pub closed spec fn well_formed(&self) -> bool {
        self.previous_weight == last_weight(self.weights@) && self.previous_weight >= 0
    }

    /// A builder with no weight yet.
    pub fn new() -> (r: Self)
        ensures
            r.well_formed(),
            r@ == Seq::<i32>::empty(),
    {
        WeightsBuilder { weights: Vec::new(), previous_weight: 0 }
    }

    /// Adds the cumulative weight after `weight`; a negative weight, or a
    /// total beyond `i32`, is refused and leaves the builder unchanged.
    pub fn compute_and_add_next_weight(&mut self, weight: i32) -> (r: Result<(), TpcdsError>)
        requires
            old(self).well_formed(),
        ensures
            final(self).well_formed(),
            match add_weight_spec(old(self)@, weight as int) {
                Ok(w) => r is Ok && final(self)@ == w,
                Err(m) => (r matches Err(e) && e@ == m) && final(self)@ == old(self)@,
            },
    {
        if weight < 0 {
            return Err(TpcdsError::new(NEGATIVE_WEIGHT_MESSAGE));
        }
        if weight > i32::MAX - self.previous_weight {
            return Err(TpcdsError::new(WEIGHT_OVERFLOW_MESSAGE));
        }
        let new_weight = self.previous_weight + weight;
        self.weights.push(new_weight);
        self.previous_weight = new_weight;
        Ok(())
    }

    /// The cumulative weights.
    pub fn build(self) -> (r: Vec<i32>)
        ensures
            r@ == self@,
    {
        self.weights
    }
}

} // verus!
