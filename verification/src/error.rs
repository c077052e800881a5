use vstd::prelude::*;

verus! {

/// The error type of the generator: a human-readable message.
#[derive(Debug, Clone)]
pub struct TpcdsError {
    message: String,
}

impl View for TpcdsError {
    type V = Seq<char>;

    closed spec fn view(&self) -> Seq<char> {
        self.message@
    }
}

impl TpcdsError {
    /// Creates an error carrying the given message.
    pub fn new(message: &str) -> (r: Self)
        ensures
            r@ == message@,
    {
        TpcdsError { message: String::from_str(message) }
    }

    /// Creates an error from an owned message.
    pub fn from_string(message: String) -> (r: Self)
        ensures
            r@ == message@,
    {
        TpcdsError { message }
    }

    /// The message of this error.
    pub fn message(&self) -> (r: &str)
        ensures
            r@ == self@,
    {
        self.message.as_str()
    }
}

} // verus!
