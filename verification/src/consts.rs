use vstd::prelude::*;

verus! {

/// The fixed base URL that every endpoint path starts with.
pub open spec fn api_base() -> Seq<char> {
    "https://api.mist.com/api/v1"@
}

/// The base URL as an owned string, for path building.
pub fn api_base_owned() -> (r: String)
    ensures
        r@ == api_base(),
{
    "https://api.mist.com/api/v1".to_owned()
}

} // verus!
