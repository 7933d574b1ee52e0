//! URLs of the authentication endpoints.

use vstd::prelude::*;
use vstd::string::StringExecFns;

use crate::consts::api_base;
use crate::consts::api_base_owned;

verus! {

pub open spec fn login_path() -> Seq<char> {
    api_base() + "/login"@
}

pub open spec fn logout_path() -> Seq<char> {
    api_base() + "/logout"@
}

pub open spec fn privileges_path() -> Seq<char> {
    api_base() + "/self"@
}

/// URL of the login endpoint.
pub fn login() -> (r: String)
    ensures
        r@ == login_path(),
{
    let mut s = api_base_owned();
    s.append("/login");
    s
}

/// URL of the logout endpoint.
pub fn logout() -> (r: String)
    ensures
        r@ == logout_path(),
{
    let mut s = api_base_owned();
    s.append("/logout");
    s
}

/// URL of the whoami/privileges endpoint.
pub fn get_privileges() -> (r: String)
    ensures
        r@ == privileges_path(),
{
    let mut s = api_base_owned();
    s.append("/self");
    s
}

} // verus!
