//! Login, logout, and the caller's own privileges.
//!
//! The login endpoint is the one place where a decoded reply is not enough
//! for success: the API signals "accepted" with an empty JSON object, and
//! anything else — a populated error object, an array, a bare value —
//! means the credentials were rejected.

use vstd::prelude::*;

use crate::auth::paths;
use crate::http::Request;
use crate::http::Verb;
use crate::json::arr_v;
use crate::json::fv_opt_str;
use crate::json::fv_opt_strs;
use crate::json::fv_str;
use crate::json::fv_strs;
use crate::json::get_opt_str;
use crate::json::get_opt_strs;
use crate::json::get_str;
use crate::json::get_strs;
use crate::json::kvs_v;
use crate::json::lemma_arr_v_props;
use crate::json::lemma_kvs_v_props;
use crate::json::lookup;
use crate::json::no_entries;
use crate::json::obj_get;
use crate::json::opt_v;
use crate::json::put_str;
use crate::json::wf_opt_str;
use crate::json::wf_opt_strs;
use crate::json::wf_str;
use crate::json::wf_strs;
use crate::json::Json;
use crate::json::JsonV;

verus! {

/// The caller's profile, as the whoami endpoint reports it.
#[derive(Debug, PartialEq, Eq)]
pub struct Whoami {
    pub email: String,
    pub first_name: String,
    pub last_name: String,
    pub phone: Option<String>,
    pub via_sso: Option<String>,
    pub privileges: Vec<Privilege>,
    pub tags: Vec<String>,
}

/// One scoped role grant of the caller.
#[derive(Debug, PartialEq, Eq)]
pub struct Privilege {
    pub scope: String,
    pub org_id: String,
    pub org_name: Option<String>,
    pub msp_id: Option<String>,
    pub msp_name: Option<String>,
    pub orggroup_ids: Option<Vec<String>>,
    pub name: String,
    pub role: String,
    pub site_id: Option<String>,
    pub sitegroup_ids: Option<Vec<String>>,
}

pub open spec fn privilege_wf(v: JsonV) -> bool {
    v matches JsonV::Obj(es) && {
        &&& wf_str(es, "scope"@)
        &&& wf_str(es, "org_id"@)
        &&& wf_opt_str(es, "org_name"@)
        &&& wf_opt_str(es, "msp_id"@)
        &&& wf_opt_str(es, "msp_name"@)
        &&& wf_opt_strs(es, "orggroup_ids"@)
        &&& wf_str(es, "name"@)
        &&& wf_str(es, "role"@)
        &&& wf_opt_str(es, "site_id"@)
        &&& wf_opt_strs(es, "sitegroup_ids"@)
    }
}

pub open spec fn privilege_fields(v: JsonV, p: Privilege) -> bool {
    v matches JsonV::Obj(es) && {
        &&& fv_str(es, "scope"@, p.scope@)
        &&& fv_str(es, "org_id"@, p.org_id@)
        &&& fv_opt_str(es, "org_name"@, opt_v(p.org_name))
        &&& fv_opt_str(es, "msp_id"@, opt_v(p.msp_id))
        &&& fv_opt_str(es, "msp_name"@, opt_v(p.msp_name))
        &&& fv_opt_strs(es, "orggroup_ids"@, crate::json::opt_dv(p.orggroup_ids))
        &&& fv_str(es, "name"@, p.name@)
        &&& fv_str(es, "role"@, p.role@)
        &&& fv_opt_str(es, "site_id"@, opt_v(p.site_id))
        &&& fv_opt_strs(es, "sitegroup_ids"@, crate::json::opt_dv(p.sitegroup_ids))
    }
}

impl Privilege {
    /// Decodes one privilege object.
    pub fn from_json(j: &Json) -> (r: Option<Privilege>)
        ensures
            r is Some <==> privilege_wf(j@),
            r matches Some(p) ==> privilege_fields(j@, p),
    {
        let es = match j {
            Json::Obj(es) => es,
            _ => {
                return None;
            },
        };
        let scope = match get_str(es, "scope") {
            Some(s) => s,
            None => {
                return None;
            },
        };
        let org_id = match get_str(es, "org_id") {
            Some(s) => s,
            None => {
                return None;
            },
        };
        let org_name = match get_opt_str(es, "org_name") {
            Some(v) => v,
            None => {
                return None;
            },
        };
        let msp_id = match get_opt_str(es, "msp_id") {
            Some(v) => v,
            None => {
                return None;
            },
        };
        let msp_name = match get_opt_str(es, "msp_name") {
            Some(v) => v,
            None => {
                return None;
            },
        };
        let orggroup_ids = match get_opt_strs(es, "orggroup_ids") {
            Some(v) => v,
            None => {
                return None;
            },
        };
        let name = match get_str(es, "name") {
            Some(s) => s,
            None => {
                return None;
            },
        };
        let role = match get_str(es, "role") {
            Some(s) => s,
            None => {
                return None;
            },
        };
        let site_id = match get_opt_str(es, "site_id") {
            Some(v) => v,
            None => {
                return None;
            },
        };
        let sitegroup_ids = match get_opt_strs(es, "sitegroup_ids") {
            Some(v) => v,
            None => {
                return None;
            },
        };
        Some(
            Privilege {
                scope,
                org_id,
                org_name,
                msp_id,
                msp_name,
                orggroup_ids,
                name,
                role,
                site_id,
                sitegroup_ids,
            },
        )
    }
}

pub open spec fn privileges_wf(a: Seq<JsonV>) -> bool {
    forall|i: int| 0 <= i < a.len() ==> privilege_wf(#[trigger] a[i])
}

pub open spec fn privileges_fields(a: Seq<JsonV>, ps: Seq<Privilege>) -> bool {
    ps.len() == a.len() && forall|i: int|
        0 <= i < a.len() ==> privilege_fields(#[trigger] a[i], ps[i])
}

pub open spec fn whoami_wf(v: JsonV) -> bool {
    v matches JsonV::Obj(es) && {
        &&& wf_str(es, "email"@)
        &&& wf_str(es, "first_name"@)
        &&& wf_str(es, "last_name"@)
        &&& wf_opt_str(es, "phone"@)
        &&& wf_opt_str(es, "via_sso"@)
        &&& (lookup(es, "privileges"@) matches Some(JsonV::Arr(a)) && privileges_wf(a))
        &&& wf_strs(es, "tags"@)
    }
}

pub open spec fn whoami_fields(v: JsonV, w: Whoami) -> bool {
    v matches JsonV::Obj(es) && {
        &&& fv_str(es, "email"@, w.email@)
        &&& fv_str(es, "first_name"@, w.first_name@)
        &&& fv_str(es, "last_name"@, w.last_name@)
        &&& fv_opt_str(es, "phone"@, opt_v(w.phone))
        &&& fv_opt_str(es, "via_sso"@, opt_v(w.via_sso))
        &&& (lookup(es, "privileges"@) matches Some(JsonV::Arr(a)) && privileges_fields(
            a,
            w.privileges@,
        ))
        &&& fv_strs(es, "tags"@, w.tags.deep_view())
    }
}

impl Whoami {
    /// Decodes the whoami reply.
    #[verifier::loop_isolation(false)]
    pub fn from_json(j: &Json) -> (r: Option<Whoami>)
        ensures
            r is Some <==> whoami_wf(j@),
            r matches Some(w) ==> whoami_fields(j@, w),
    {
        broadcast use lemma_arr_v_props;

        let es = match j {
            Json::Obj(es) => es,
            _ => {
                return None;
            },
        };
        let email = match get_str(es, "email") {
            Some(s) => s,
            None => {
                return None;
            },
        };
        let first_name = match get_str(es, "first_name") {
            Some(s) => s,
            None => {
                return None;
            },
        };
        let last_name = match get_str(es, "last_name") {
            Some(s) => s,
            None => {
                return None;
            },
        };
        let phone = match get_opt_str(es, "phone") {
            Some(v) => v,
            None => {
                return None;
            },
        };
        let via_sso = match get_opt_str(es, "via_sso") {
            Some(v) => v,
            None => {
                return None;
            },
        };
        let pj = match obj_get(es, "privileges") {
            Some(pj) => pj,
            None => {
                return None;
            },
        };
        let arr = match pj {
            Json::Arr(a) => a,
            _ => {
                return None;
            },
        };
        proof {
            assert(pj.v() == JsonV::Arr(arr_v(arr@)));
            assert(lookup(kvs_v(es@), "privileges"@) == Some(JsonV::Arr(arr_v(arr@))));
        }
        let mut privileges: Vec<Privilege> = Vec::new();
        let n = arr.len();
        let mut i: usize = 0;
        while i < n
            invariant
                n == arr.len(),
                i <= n,
                privileges@.len() == i,
                forall|k: int| 0 <= k < i ==> privilege_wf(#[trigger] arr_v(arr@)[k]),
                forall|k: int|
                    0 <= k < i ==> privilege_fields(#[trigger] arr_v(arr@)[k], privileges@[k]),
            decreases n - i,
        {
            match Privilege::from_json(&arr[i]) {
                Some(p) => {
                    privileges.push(p);
                },
                None => {
                    proof {
                        assert(arr_v(arr@)[i as int] == arr@[i as int].v());
                    }
                    return None;
                },
            }
            i = i + 1;
        }
        proof {
            assert(privileges@.len() == arr_v(arr@).len());
            assert(privileges_fields(arr_v(arr@), privileges@));
        }
        let tags = match get_strs(es, "tags") {
            Some(v) => v,
            None => {
                return None;
            },
        };
        Some(Whoami { email, first_name, last_name, phone, via_sso, privileges, tags })
    }
}

/// The body of a login call.
pub open spec fn login_body(
    email: Seq<char>,
    password: Seq<char>,
    otp: Option<Seq<char>>,
) -> JsonV {
    let es = no_entries().push(("email"@, JsonV::Str(email))).push(
        ("password"@, JsonV::Str(password)),
    );
    JsonV::Obj(
        match otp {
            Some(c) => es.push(("two_factor"@, JsonV::Str(c))),
            None => es,
        },
    )
}

/// Builds the login call: the credentials, and the one-time code when one
/// was given, posted to the login endpoint.
pub fn login_request(email: &str, password: &str, otp: Option<&str>) -> (r: Request)
    ensures
        r.verb == Verb::Post,
        r.url@ == paths::login_path(),
        r.body@ == login_body(email@, password@, opt_v(otp)),
{
    let mut es: Vec<(String, Json)> = Vec::new();
    put_str(&mut es, "email", email);
    put_str(&mut es, "password", password);
    match otp {
        Some(c) => put_str(&mut es, "two_factor", c),
        None => (),
    }
    Request { verb: Verb::Post, url: paths::login(), body: Json::Obj(es) }
}

/// Whether a login reply is the API's "accepted" signal: a JSON object
/// with zero members.
pub open spec fn login_accepted(resp: Option<Json>) -> bool {
    resp matches Some(j) && j@ matches JsonV::Obj(es) && es.len() == 0
}

/// Decides a login reply: only the empty object means the credentials were
/// accepted; every other document, and every transport failure, is a
/// failed login.
pub fn login_result(resp: &Option<Json>) -> (r: Result<(), ()>)
    ensures
        r is Ok <==> login_accepted(*resp),
{
    broadcast use lemma_kvs_v_props;

    match resp {
        Some(j) => match j {
            Json::Obj(es) => {
                if es.len() == 0 {
                    Ok(())
                } else {
                    Err(())
                }
            },
            _ => Err(()),
        },
        None => Err(()),
    }
}

/// Builds the logout call: a bare post to the logout endpoint.
pub fn logout_request() -> (r: Request)
    ensures
        r.verb == Verb::Post,
        r.url@ == paths::logout_path(),
        r.body@ == JsonV::Null,
{
    Request { verb: Verb::Post, url: paths::logout(), body: Json::Null }
}

/// Decides a logout reply: any decoded document counts as success.
pub fn logout_result(resp: &Option<Json>) -> (r: Result<(), ()>)
    ensures
        r is Ok <==> resp is Some,
{
    match resp {
        Some(_) => Ok(()),
        None => Err(()),
    }
}

/// Builds the whoami call.
pub fn get_privileges_request() -> (r: Request)
    ensures
        r.verb == Verb::Get,
        r.url@ == paths::privileges_path(),
        r.body@ == JsonV::Null,
{
    Request { verb: Verb::Get, url: paths::get_privileges(), body: Json::Null }
}

/// Decides a whoami reply: success exactly when the document decodes as a
/// profile record.
pub fn get_privileges_result(resp: &Option<Json>) -> (r: Result<Whoami, ()>)
    ensures
        match r {
            Ok(w) => resp matches Some(j) && whoami_wf(j@) && whoami_fields(j@, w),
            Err(_) => !(resp matches Some(j) && whoami_wf(j@)),
        },
{
    match resp {
        Some(j) => match Whoami::from_json(j) {
            Some(w) => Ok(w),
            None => Err(()),
        },
        None => Err(()),
    }
}

} // verus!

