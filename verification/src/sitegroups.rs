//! Site groups: named collections of sites for bulk operations, with one
//! request/decide pair per remote operation.

use vstd::prelude::*;
use vstd::string::StringExecFns;

use crate::consts::api_base;
use crate::http::Request;
use crate::http::Verb;
use crate::json::arr_v;
use crate::json::fv_opt_str;
use crate::json::fv_str;
use crate::json::fv_strs_or_empty;
use crate::json::get_opt_str;
use crate::json::get_str;
use crate::json::get_strs_or_empty;
use crate::json::lemma_arr_v_props;
use crate::json::no_entries;
use crate::json::opt_v;
use crate::json::put_opt_str;
use crate::json::put_str;
use crate::json::put_strs;
use crate::json::strs_to_jsons;
use crate::json::wf_opt_str;
use crate::json::wf_str;
use crate::json::wf_strs_or_empty;
use crate::json::Json;
use crate::json::JsonV;

verus! {

/// A named collection of sites within an org.
#[derive(Debug, PartialEq, Eq)]
pub struct SiteGroup {
    pub id: Option<String>,
    pub name: String,
    pub org_id: Option<String>,
    pub site_ids: Vec<String>,
}

pub open spec fn sitegroup_entries(g: SiteGroup) -> Seq<(Seq<char>, JsonV)> {
    let es = match g.id {
        Some(x) => no_entries().push(("id"@, JsonV::Str(x@))),
        None => no_entries(),
    };
    let es = es.push(("name"@, JsonV::Str(g.name@)));
    let es = match g.org_id {
        Some(x) => es.push(("org_id"@, JsonV::Str(x@))),
        None => es,
    };
    es.push(("site_ids"@, JsonV::Arr(strs_to_jsons(g.site_ids.deep_view()))))
}

pub open spec fn sitegroup_json(g: SiteGroup) -> JsonV {
    JsonV::Obj(sitegroup_entries(g))
}

pub open spec fn sitegroup_wf(v: JsonV) -> bool {
    v matches JsonV::Obj(es) && {
        &&& wf_opt_str(es, "id"@)
        &&& wf_str(es, "name"@)
        &&& wf_opt_str(es, "org_id"@)
        &&& wf_strs_or_empty(es, "site_ids"@)
    }
}

pub open spec fn sitegroup_fields(v: JsonV, g: SiteGroup) -> bool {
    v matches JsonV::Obj(es) && {
        &&& fv_opt_str(es, "id"@, opt_v(g.id))
        &&& fv_str(es, "name"@, g.name@)
        &&& fv_opt_str(es, "org_id"@, opt_v(g.org_id))
        &&& fv_strs_or_empty(es, "site_ids"@, g.site_ids.deep_view())
    }
}

impl SiteGroup {
    /// Encodes this record, writing the identifiers only when they are
    /// populated.
    pub fn to_json(&self) -> (r: Json)
        ensures
            r@ == sitegroup_json(*self),
    {
        let mut es: Vec<(String, Json)> = Vec::new();
        put_opt_str(&mut es, "id", &self.id);
        put_str(&mut es, "name", self.name.as_str());
        put_opt_str(&mut es, "org_id", &self.org_id);
        put_strs(&mut es, "site_ids", &self.site_ids);
        Json::Obj(es)
    }

    /// Decodes a site-group record; the site list falls back to empty
    /// when the API omits it.
    pub fn from_json(j: &Json) -> (r: Option<SiteGroup>)
        ensures
            r is Some <==> sitegroup_wf(j@),
            r matches Some(g) ==> sitegroup_fields(j@, g),
    {
        let es = match j {
            Json::Obj(es) => es,
            _ => {
                return None;
            },
        };
        let id = match get_opt_str(es, "id") {
            Some(v) => v,
            None => {
                return None;
            },
        };
        let name = match get_str(es, "name") {
            Some(s) => s,
            None => {
                return None;
            },
        };
        let org_id = match get_opt_str(es, "org_id") {
            Some(v) => v,
            None => {
                return None;
            },
        };
        let site_ids = match get_strs_or_empty(es, "site_ids") {
            Some(v) => v,
            None => {
                return None;
            },
        };
        Some(SiteGroup { id, name, org_id, site_ids })
    }
}

pub open spec fn sitegroups_wf(v: JsonV) -> bool {
    v matches JsonV::Arr(a) && forall|i: int| 0 <= i < a.len() ==> sitegroup_wf(#[trigger] a[i])
}

pub open spec fn sitegroups_fields(v: JsonV, gs: Seq<SiteGroup>) -> bool {
    v matches JsonV::Arr(a) && gs.len() == a.len() && forall|i: int|
        0 <= i < a.len() ==> sitegroup_fields(#[trigger] a[i], gs[i])
}

/// Decodes a list of site-group records.
#[verifier::loop_isolation(false)]
pub fn sitegroups_from_json(j: &Json) -> (r: Option<Vec<SiteGroup>>)
    ensures
        r is Some <==> sitegroups_wf(j@),
        r matches Some(gs) ==> sitegroups_fields(j@, gs@),
{
    broadcast use lemma_arr_v_props;

    let arr = match j {
        Json::Arr(a) => a,
        _ => {
            return None;
        },
    };
    let mut out: Vec<SiteGroup> = Vec::new();
    let n = arr.len();
    let mut i: usize = 0;
    while i < n
        invariant
            n == arr.len(),
            i <= n,
            out@.len() == i,
            forall|k: int| 0 <= k < i ==> sitegroup_wf(#[trigger] arr_v(arr@)[k]),
            forall|k: int| 0 <= k < i ==> sitegroup_fields(#[trigger] arr_v(arr@)[k], out@[k]),
        decreases n - i,
    {
        match SiteGroup::from_json(&arr[i]) {
            Some(g) => {
                out.push(g);
            },
            None => {
                proof {
                    assert(arr_v(arr@)[i as int] == arr@[i as int].v());
                    assert(j@ == JsonV::Arr(arr_v(arr@)));
                    if sitegroups_wf(j@) {
                        let a = j@->Arr_0;
                        assert(a == arr_v(arr@));
                        assert((i as int) < a.len());
                        assert(sitegroup_wf(a[i as int]));
                    }
                }
                return None;
            },
        }
        i = i + 1;
    }
    Some(out)
}

pub open spec fn sitegroups_path_spec(org: Seq<char>) -> Seq<char> {
    api_base() + "/orgs/"@ + org + "/sitegroups"@
}

pub open spec fn sitegroup_path_spec(org: Seq<char>, group: Seq<char>) -> Seq<char> {
    sitegroups_path_spec(org) + "/"@ + group
}

/// URL of an org's site-group collection.
pub fn sitegroups_path(org_id: &str) -> (r: String)
    ensures
        r@ == sitegroups_path_spec(org_id@),
{
    let mut s = crate::consts::api_base_owned();
    s.append("/orgs/");
    s.append(org_id);
    s.append("/sitegroups");
    s
}

/// URL of one site group of an org.
pub fn sitegroup_path(org_id: &str, group_id: &str) -> (r: String)
    ensures
        r@ == sitegroup_path_spec(org_id@, group_id@),
{
    let mut s = sitegroups_path(org_id);
    s.append("/");
    s.append(group_id);
    s
}

/// Builds the site-group list call.
pub fn list_request(org_id: &str) -> (r: Request)
    ensures
        r.verb == Verb::Get,
        r.url@ == sitegroups_path_spec(org_id@),
        r.body@ == JsonV::Null,
{
    Request { verb: Verb::Get, url: sitegroups_path(org_id), body: Json::Null }
}

/// Decides a site-group list reply.
pub fn list_result(resp: &Option<Json>) -> (r: Result<Vec<SiteGroup>, ()>)
    ensures
        match r {
            Ok(gs) => resp matches Some(j) && sitegroups_wf(j@) && sitegroups_fields(j@, gs@),
            Err(_) => !(resp matches Some(j) && sitegroups_wf(j@)),
        },
{
    match resp {
        Some(j) => match sitegroups_from_json(j) {
            Some(gs) => Ok(gs),
            None => Err(()),
        },
        None => Err(()),
    }
}

/// Builds the single-group read.
pub fn get_request(org_id: &str, group_id: &str) -> (r: Request)
    ensures
        r.verb == Verb::Get,
        r.url@ == sitegroup_path_spec(org_id@, group_id@),
        r.body@ == JsonV::Null,
{
    Request { verb: Verb::Get, url: sitegroup_path(org_id, group_id), body: Json::Null }
}

/// Decides a single-group reply.
pub fn get_result(resp: &Option<Json>) -> (r: Result<SiteGroup, ()>)
    ensures
        match r {
            Ok(g) => resp matches Some(j) && sitegroup_wf(j@) && sitegroup_fields(j@, g),
            Err(_) => !(resp matches Some(j) && sitegroup_wf(j@)),
        },
{
    match resp {
        Some(j) => match SiteGroup::from_json(j) {
            Some(g) => Ok(g),
            None => Err(()),
        },
        None => Err(()),
    }
}

/// Builds the group-creation call.
pub fn create_request(org_id: &str, group: &SiteGroup) -> (r: Request)
    ensures
        r.verb == Verb::Post,
        r.url@ == sitegroups_path_spec(org_id@),
        r.body@ == sitegroup_json(*group),
{
    Request { verb: Verb::Post, url: sitegroups_path(org_id), body: group.to_json() }
}

/// Decides a group-creation reply.
pub fn create_result(resp: &Option<Json>) -> (r: Result<SiteGroup, ()>)
    ensures
        match r {
            Ok(g) => resp matches Some(j) && sitegroup_wf(j@) && sitegroup_fields(j@, g),
            Err(_) => !(resp matches Some(j) && sitegroup_wf(j@)),
        },
{
    match resp {
        Some(j) => match SiteGroup::from_json(j) {
            Some(g) => Ok(g),
            None => Err(()),
        },
        None => Err(()),
    }
}

/// Builds the group-update call.
pub fn update_request(org_id: &str, group_id: &str, group: &SiteGroup) -> (r: Request)
    ensures
        r.verb == Verb::Put,
        r.url@ == sitegroup_path_spec(org_id@, group_id@),
        r.body@ == sitegroup_json(*group),
{
    Request { verb: Verb::Put, url: sitegroup_path(org_id, group_id), body: group.to_json() }
}

/// Decides a group-update reply.
pub fn update_result(resp: &Option<Json>) -> (r: Result<SiteGroup, ()>)
    ensures
        match r {
            Ok(g) => resp matches Some(j) && sitegroup_wf(j@) && sitegroup_fields(j@, g),
            Err(_) => !(resp matches Some(j) && sitegroup_wf(j@)),
        },
{
    match resp {
        Some(j) => match SiteGroup::from_json(j) {
            Some(g) => Ok(g),
            None => Err(()),
        },
        None => Err(()),
    }
}

/// Builds the group-deletion call.
pub fn delete_group_request(org_id: &str, group_id: &str) -> (r: Request)
    ensures
        r.verb == Verb::Delete,
        r.url@ == sitegroup_path_spec(org_id@, group_id@),
        r.body@ == JsonV::Null,
{
    Request { verb: Verb::Delete, url: sitegroup_path(org_id, group_id), body: Json::Null }
}

/// Decides a group-deletion reply: any decoded document counts as
/// success, so a bare no-body acknowledgement is still reported as a
/// failure, exactly as every other endpoint treats an undecodable reply.
pub fn delete_group_result(resp: &Option<Json>) -> (r: Result<(), ()>)
    ensures
        r is Ok <==> resp is Some,
{
    match resp {
        Some(_) => Ok(()),
        None => Err(()),
    }
}

} // verus!
