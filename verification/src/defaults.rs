//! Default values for optional configuration inputs.

use vstd::prelude::*;

verus! {

/// Default failure budget: three consecutive fetch failures are tolerated.
pub fn default_retries() -> (r: u8)
    ensures
        r == 3,
{
    3
}

/// Default poll interval in seconds: the upstream statistic changes hourly.
pub fn default_timing() -> (r: u64)
    ensures
        r == 3600,
{
    3600
}

/// Default country code used when a postal code is given without one.
pub fn default_country() -> (r: Option<String>)
    ensures
        r matches Some(c) && c@ == "US"@,
{
    Some(String::from_str("US"))
}

} // verus!
