//! The query of a vault's KPIs.
use vstd::prelude::*;

verus! {

/// The default timeframe of the vault KPI query: `all`.
pub fn default_timeframe() -> (r: String)
    ensures
        r@ == "all"@,
{
    "all".to_owned()
}

} // verus!
