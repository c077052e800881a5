use vstd::prelude::*;

verus! {

/// One row of a table, as the text of its values.
pub trait TableRow {
    /// The values of the row, one per column, as they are written out.
    fn get_values(&self) -> Vec<String>;

    /// The number of values of the row: the length of what `get_values`
    /// returns.
    fn get_column_count(&self) -> (r: usize)
        ensures
            exists|values: Vec<String>|
                call_ensures(Self::get_values, (self,), values) && r == values@.len(),
    {
        self.get_values().len()
    }
}

} // verus!
