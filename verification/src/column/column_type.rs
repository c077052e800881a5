use vstd::prelude::*;

verus! {

/// The base types of the columns.
#[derive(Debug, Clone, Copy, PartialEq, Eq, Hash, Structural)]
pub enum ColumnTypeBase {
    Integer,
    Identifier,
    Date,
    Decimal,
    Varchar,
    Char,
    Time,
}

/// The type of a column: a base type with an optional precision and scale.
#[derive(Debug, Clone, Copy, PartialEq, Eq, Hash, Structural)]
pub struct ColumnType {
    pub base: ColumnTypeBase,
    pub precision: Option<i32>,
    pub scale: Option<i32>,
}

impl ColumnType {
    /// A type from its parts.
    pub fn new(base: ColumnTypeBase, precision: Option<i32>, scale: Option<i32>) -> (r: ColumnType)
        ensures
            r == (ColumnType { base, precision, scale }),
    {
        ColumnType { base, precision, scale }
    }

    /// The base type.
    pub fn get_base(&self) -> (r: ColumnTypeBase)
        ensures
            r == self.base,
    {
        self.base
    }

    /// The precision, where the type has one.
    pub fn get_precision(&self) -> (r: Option<i32>)
        ensures
            r == self.precision,
    {
        self.precision
    }

    /// The scale, where the type has one.
    pub fn get_scale(&self) -> (r: Option<i32>)
        ensures
            r == self.scale,
    {
        self.scale
    }

    /// The type of surrogate keys.
    pub fn identifier() -> (r: ColumnType)
        ensures
            r == (ColumnType { base: ColumnTypeBase::Identifier, precision: None, scale: None }),
    {
        ColumnType { base: ColumnTypeBase::Identifier, precision: None, scale: None }
    }

    /// The type of integers.
    pub fn integer() -> (r: ColumnType)
        ensures
            r == (ColumnType { base: ColumnTypeBase::Integer, precision: None, scale: None }),
    {
        ColumnType { base: ColumnTypeBase::Integer, precision: None, scale: None }
    }

    /// The type of dates.
    pub fn date() -> (r: ColumnType)
        ensures
            r == (ColumnType { base: ColumnTypeBase::Date, precision: None, scale: None }),
    {
        ColumnType { base: ColumnTypeBase::Date, precision: None, scale: None }
    }

    /// The type of times of day.
    pub fn time() -> (r: ColumnType)
        ensures
            r == (ColumnType { base: ColumnTypeBase::Time, precision: None, scale: None }),
    {
        ColumnType { base: ColumnTypeBase::Time, precision: None, scale: None }
    }

    /// The type of fixed-length strings of `length` characters.
    pub fn character(length: i32) -> (r: ColumnType)
        ensures
            r == (ColumnType { base: ColumnTypeBase::Char, precision: Some(length), scale: None }),
    {
        ColumnType { base: ColumnTypeBase::Char, precision: Some(length), scale: None }
    }

    /// The type of strings of at most `length` characters.
    pub fn varchar(length: i32) -> (r: ColumnType)
        ensures
            r == (ColumnType { base: ColumnTypeBase::Varchar, precision: Some(length), scale: None }),
    {
        ColumnType { base: ColumnTypeBase::Varchar, precision: Some(length), scale: None }
    }

    /// The type of decimals of `precision` digits, `scale` of them after the point.
    pub fn decimal(precision: i32, scale: i32) -> (r: ColumnType)
        ensures
            r == (ColumnType {
                base: ColumnTypeBase::Decimal,
                precision: Some(precision),
                scale: Some(scale),
            }),
    {
        ColumnType { base: ColumnTypeBase::Decimal, precision: Some(precision), scale: Some(scale) }
    }
}

} // verus!
