//! Default values of query parameters.
use vstd::prelude::*;

verus! {

/// The default timeframe: `all`.
pub fn timeframe() -> (r: String)
    ensures
        r@ == "all"@,
{
    "all".to_owned()
}

/// The default currency: `USD`.
pub fn currency() -> (r: String)
    ensures
        r@ == "USD"@,
{
    "USD".to_owned()
}

/// The default APR basis: `nominal`.
pub fn apr_basis() -> (r: String)
    ensures
        r@ == "nominal"@,
{
    "nominal".to_owned()
}

} // verus!
