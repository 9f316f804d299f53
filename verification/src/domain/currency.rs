//! Currencies.

use vstd::prelude::*;

verus! {

/// A supported currency; amounts are kept in its minor unit, of which
/// `minor_unit` decimal places make one major unit.
#[derive(Debug, Clone)]
pub struct Currency {
    pub code: String,
    pub name: String,
    pub symbol: String,
    pub minor_unit: i32,
}

} // verus!
