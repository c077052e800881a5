use vstd::prelude::*;
use crate::error::TpcdsError;

verus! {

/// The message of a negative precision.
pub const NEGATIVE_PRECISION_MESSAGE: &'static str = "precision must be greater or equal to zero";

/// A fixed-point decimal: `number` scaled by `10^-precision`.
#[derive(Debug, Clone, Copy)]
pub struct Decimal {
    number: i64,
    precision: i32,
}

impl Decimal {
    #[verifier::type_invariant]
    spec fn well_formed(self) -> bool {
        self.precision >= 0
    }

    /// The unscaled value.
    pub closed spec fn number_spec(self) -> int {
        self.number as int
    }

    /// The number of digits after the decimal point.
    pub closed spec fn precision_spec(self) -> int {
        self.precision as int
    }

    /// Creates a decimal; the precision must not be negative.
    pub fn new(number: i64, precision: i32) -> (r: Result<Self, TpcdsError>)
        ensures
            r is Ok <==> precision >= 0,
            r matches Ok(d) ==> d.number_spec() == number && d.precision_spec() == precision,
            r matches Err(e) ==> e@ == NEGATIVE_PRECISION_MESSAGE@,
    {
        if precision < 0 {
            Err(TpcdsError::new(NEGATIVE_PRECISION_MESSAGE))
        } else {
            Ok(Decimal { number, precision })
        }
    }

    /// The unscaled value.
    pub fn get_number(&self) -> (r: i64)
        ensures
            r == self.number_spec(),
    {
        self.number
    }

    /// The number of digits after the decimal point.
    pub fn get_precision(&self) -> (r: i32)
        ensures
            r == self.precision_spec(),
            r >= 0,
    {
        proof {
            use_type_invariant(self);
        }
        self.precision
    }
}

} // verus!
