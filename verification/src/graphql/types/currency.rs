//! The currency object.

use vstd::prelude::*;

use crate::domain::currency::Currency;

verus! {

/// A currency as returned by the API.
pub struct CurrencyType(pub Currency);

impl From<Currency> for CurrencyType {
    fn from(c: Currency) -> (t: Self)
        ensures
            t.0 == c,
    {
        CurrencyType(c)
    }
}

impl vstd::std_specs::convert::FromSpecImpl<Currency> for CurrencyType {
    open spec fn obeys_from_spec() -> bool {
        true
    }

    open spec fn from_spec(c: Currency) -> Self {
        CurrencyType(c)
    }
}

impl CurrencyType {
    /// The ISO 4217 code.
    pub fn code(&self) -> (text: &str)
        ensures
            text@ == self.0.code@,
    {
        self.0.code.as_str()
    }

    /// The name.
    pub fn name(&self) -> (text: &str)
        ensures
            text@ == self.0.name@,
    {
        self.0.name.as_str()
    }

    /// The symbol.
    pub fn symbol(&self) -> (text: &str)
        ensures
            text@ == self.0.symbol@,
    {
        self.0.symbol.as_str()
    }

    /// The number of decimal places of the minor unit.
    pub fn minor_unit(&self) -> (value: i32)
        ensures
            value == self.0.minor_unit,
    {
        self.0.minor_unit
    }
}

} // verus!
