use vstd::prelude::*;
use crate::error::TpcdsError;

verus! {

/// Number of scale factors a table lists a row count for.
pub const SCALE_SLOT_COUNT: usize = 10;

/// The message of a negative multiplier.
pub const NEGATIVE_MULTIPLIER_MESSAGE: &'static str =
    "multiplier is not greater than or equal to zero";

/// The message of a list of row counts of the wrong length.
pub const ROW_COUNT_SLOTS_MESSAGE: &'static str = "row counts must be given for every scale factor";

/// The message of a negative row count.
pub const NEGATIVE_ROW_COUNT_MESSAGE: &'static str = "row counts cannot be negative";

/// The message of a negative update percentage.
pub const NEGATIVE_UPDATE_PERCENTAGE_MESSAGE: &'static str =
    "update percentage is not greater than or equal to zero";

/// How the row count of a table grows with the scale factor.
#[derive(Debug, Clone, Copy, PartialEq, Eq, Hash, Structural)]
pub enum ScalingModel {
    Static,
    Linear,
    Logarithmic,
}

/// How the number of rows of a table depends on the scale factor: a row
/// count for each listed scale factor, multiplied by `10^multiplier`.
#[derive(Debug, Clone)]
pub struct ScalingInfo {
    multiplier: i32,
    scaling_model: ScalingModel,
    row_counts: Vec<i32>,
    update_percentage: i32,
}

impl ScalingInfo {
    /// The power of ten the listed row counts are multiplied by.
    pub closed spec fn multiplier_spec(&self) -> int {
        self.multiplier as int
    }

    /// The scaling model.
    pub closed spec fn scaling_model_spec(&self) -> ScalingModel {
        self.scaling_model
    }

    /// The listed row counts, one per scale factor.
    pub closed spec fn row_counts_spec(&self) -> Seq<i32> {
        self.row_counts@
    }

    /// The share of rows that an update touches, in percent.
    pub closed spec fn update_percentage_spec(&self) -> int {
        self.update_percentage as int
    }

    /// Creates scaling information; the multiplier, the update percentage and
    /// every row count must not be negative, and a row count must be given
    /// for each of the scale factors.
    pub fn new(
        multiplier: i32,
        scaling_model: ScalingModel,
        row_counts: &[i32],
        update_percentage: i32,
    ) -> (r: Result<Self, TpcdsError>)
        ensures
            r is Ok <==> (multiplier >= 0 && row_counts@.len() == SCALE_SLOT_COUNT && (forall|i: int|
                0 <= i < row_counts@.len() ==> #[trigger] row_counts@[i] >= 0) && update_percentage
                >= 0),
            r matches Ok(s) ==> s.multiplier_spec() == multiplier && s.scaling_model_spec()
                == scaling_model && s.row_counts_spec() == row_counts@
                && s.update_percentage_spec() == update_percentage,
            r matches Err(e) ==> e@ == (if multiplier < 0 {
                NEGATIVE_MULTIPLIER_MESSAGE@
            } else if row_counts@.len() != SCALE_SLOT_COUNT {
                ROW_COUNT_SLOTS_MESSAGE@
            } else if exists|i: int| 0 <= i < row_counts@.len() && #[trigger] row_counts@[i] < 0 {
                NEGATIVE_ROW_COUNT_MESSAGE@
            } else {
                NEGATIVE_UPDATE_PERCENTAGE_MESSAGE@
            }),
    {
        if multiplier < 0 {
            return Err(TpcdsError::new(NEGATIVE_MULTIPLIER_MESSAGE));
        }
        if row_counts.len() != SCALE_SLOT_COUNT {
            return Err(TpcdsError::new(ROW_COUNT_SLOTS_MESSAGE));
        }
        let mut counts: Vec<i32> = Vec::new();
        let mut i: usize = 0;
        while i < row_counts.len()
            invariant
                i <= row_counts@.len(),
                multiplier >= 0,
                row_counts@.len() == SCALE_SLOT_COUNT,
                counts@ == row_counts@.subrange(0, i as int),
                forall|j: int| 0 <= j < i ==> #[trigger] row_counts@[j] >= 0,
            decreases row_counts@.len() - i,
        {
            if row_counts[i] < 0 {
                assert(row_counts@[i as int] < 0);
                return Err(TpcdsError::new(NEGATIVE_ROW_COUNT_MESSAGE));
            }
            counts.push(row_counts[i]);
            i += 1;
        }
        if update_percentage < 0 {
            return Err(TpcdsError::new(NEGATIVE_UPDATE_PERCENTAGE_MESSAGE));
        }
        assert(counts@ == row_counts@);
        Ok(ScalingInfo { multiplier, scaling_model, row_counts: counts, update_percentage })
    }

    /// The power of ten the listed row counts are multiplied by.
    pub fn get_multiplier(&self) -> (r: i32)
        ensures
            r == self.multiplier_spec(),
    {
        self.multiplier
    }

    /// The scaling model.
    pub fn get_scaling_model(&self) -> (r: ScalingModel)
        ensures
            r == self.scaling_model_spec(),
    {
        self.scaling_model
    }

    /// The share of rows that an update touches, in percent.
    pub fn get_update_percentage(&self) -> (r: i32)
        ensures
            r == self.update_percentage_spec(),
    {
        self.update_percentage
    }
}

} // verus!
