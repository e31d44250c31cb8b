use vstd::prelude::*;

verus! {

/// Error: a numeric symbol value outside the supported range.
#[derive(Copy, Clone, Debug, PartialEq, Eq, Structural)]
pub struct RangeError {
    pub value: u8,
}

/// The number shown on an uncovered tile. Its value is always between 0 and 8,
/// the largest count of neighbouring tiles a square tile can have.
#[derive(Copy, Clone, Debug, PartialEq, Eq, Structural, Hash, PartialOrd, Ord)]
pub struct NumberSymbol {
    value: u8,
}

impl NumberSymbol {
    /// The numeric value carried by the symbol.
    pub closed spec fn spec_value(self) -> u8 {
        self.value
    }

    /// Every number symbol carries a value of at most 8.
    pub closed spec fn wf(self) -> bool {
        self.value <= 8
    }

    /// Builds a number symbol; a value above 8 is rejected with a `RangeError`.
    pub fn try_from(value: u8) -> (r: Result<NumberSymbol, RangeError>)
        ensures
            r is Ok <==> value <= 8,
            r matches Ok(n) ==> n.spec_value() == value && n.wf(),
            r matches Err(e) ==> e == (RangeError { value }),
    {
        if value > 8 {
            return Err(RangeError { value });
        }
        Ok(NumberSymbol { value })
    }

    /// The numeric value, between 0 and 8.
    pub fn value(self) -> (v: u8)
        ensures
            v == self.spec_value(),
    {
        self.value
    }
}

impl From<NumberSymbol> for u8 {
    fn from(value: NumberSymbol) -> (v: u8)
        ensures
            v == value.spec_value(),
    {
        value.value
    }
}

impl vstd::std_specs::convert::FromSpecImpl<NumberSymbol> for u8 {
    open spec fn obeys_from_spec() -> bool {
        true
    }

    open spec fn from_spec(value: NumberSymbol) -> u8 {
        value.spec_value()
    }
}

impl Default for NumberSymbol {
    fn default() -> (n: NumberSymbol)
        ensures
            n.spec_value() == 0,
            n.wf(),
    {
        NumberSymbol { value: 0 }
    }
}

/// What one grid tile shows.
#[derive(Copy, Clone, Debug, PartialEq, Eq, Structural, Hash)]
pub enum Symbol {
    Cover,
    Flag,
    Number(NumberSymbol),
    Bomb,
}

impl Default for Symbol {
    /// A tile shows a cover until something else is set.
    fn default() -> (s: Symbol)
        ensures
            s == Symbol::Cover,
    {
        Symbol::Cover
    }
}

} // verus!
