use vstd::prelude::*;

verus! {

/// Properties of a table that steer its generation.
#[derive(Debug, Clone, Copy, PartialEq, Eq, Hash, Structural)]
pub struct TableFlags {
    pub keeps_history: bool,
    pub is_small: bool,
    pub is_date_based: bool,
}

impl TableFlags {
    /// Whether the rows of the table are revisions that keep history.
    pub fn keeps_history(&self) -> (r: bool)
        ensures
            r == self.keeps_history,
    {
        self.keeps_history
    }

    /// Whether the table is small enough to be generated in one piece.
    pub fn is_small(&self) -> (r: bool)
        ensures
            r == self.is_small,
    {
        self.is_small
    }

    /// Whether the rows of the table are generated date by date.
    pub fn is_date_based(&self) -> (r: bool)
        ensures
            r == self.is_date_based,
    {
        self.is_date_based
    }
}

/// Builds table flags; every flag starts unset.
#[derive(Debug, Clone, Copy, PartialEq, Eq, Hash, Structural)]
pub struct TableFlagsBuilder {
    pub keeps_history: bool,
    pub is_small: bool,
    pub is_date_based: bool,
}

impl TableFlagsBuilder {
    /// A builder with every flag unset.
    pub fn new() -> (r: Self)
        ensures
            r == (TableFlagsBuilder { keeps_history: false, is_small: false, is_date_based: false }),
    {
        TableFlagsBuilder { keeps_history: false, is_small: false, is_date_based: false }
    }

    /// Sets the flag of tables that keep history.
    pub fn set_keeps_history(self) -> (r: Self)
        ensures
            r == (TableFlagsBuilder { keeps_history: true, ..self }),
    {
        TableFlagsBuilder { keeps_history: true, ..self }
    }

    /// Sets the flag of small tables.
    pub fn set_is_small(self) -> (r: Self)
        ensures
            r == (TableFlagsBuilder { is_small: true, ..self }),
    {
        TableFlagsBuilder { is_small: true, ..self }
    }

    /// Sets the flag of date-based tables.
    pub fn set_is_date_based(self) -> (r: Self)
        ensures
            r == (TableFlagsBuilder { is_date_based: true, ..self }),
    {
        TableFlagsBuilder { is_date_based: true, ..self }
    }

    /// The flags set so far.
    pub fn build(self) -> (r: TableFlags)
        ensures
            r == (TableFlags {
                keeps_history: self.keeps_history,
                is_small: self.is_small,
                is_date_based: self.is_date_based,
            }),
    {
        TableFlags {
            keeps_history: self.keeps_history,
            is_small: self.is_small,
            is_date_based: self.is_date_based,
        }
    }
}

} // verus!
