//! Sites: the records, their JSON form, the URLs, and one request/decide
//! pair per remote operation.

use vstd::prelude::*;
use vstd::string::StringExecFns;

use crate::consts::api_base;
use crate::http::Request;
use crate::http::Verb;
use crate::json::arr_v;
use crate::json::fv_opt_str;
use crate::json::fv_opt_strs;
use crate::json::fv_str;
use crate::json::fv_int_or;
use crate::json::fv_opt_int;
use crate::json::get_i64_in_or;
use crate::json::get_opt_i64_in;
use crate::json::get_opt_str;
use crate::json::get_opt_strs;
use crate::json::get_str;
use crate::json::lemma_arr_v_props;
use crate::json::lemma_lookup_push;
use crate::json::lemma_strs_to_jsons_injective;
use crate::json::lookup;
use crate::json::no_entries;
use crate::json::obj_get;
use crate::json::opt_dv;
use crate::json::opt_v;
use crate::json::put_json;
use crate::json::put_opt_str;
use crate::json::put_opt_strs;
use crate::json::put_str;
use crate::json::wf_int_or;
use crate::json::wf_opt_int_in;
use crate::json::wf_opt_str;
use crate::json::wf_opt_strs;
use crate::json::wf_str;
use crate::json::Json;
use crate::json::JsonV;

verus! {

/// One numeric coordinate, as it stood in the document: an integer, or
/// any other numeric literal carried as its text.
#[derive(Debug, PartialEq, Eq)]
pub enum Coord {
    Int(i64),
    Num(String),
}

pub open spec fn coord_v(c: Coord) -> JsonV {
    match c {
        Coord::Int(n) => JsonV::Int(n as int),
        Coord::Num(s) => JsonV::Num(s@),
    }
}

pub open spec fn wf_coord(v: JsonV) -> bool {
    v is Int || v is Num
}

impl Coord {
    pub fn to_json(&self) -> (r: Json)
        ensures
            r@ == coord_v(*self),
    {
        match self {
            Coord::Int(n) => Json::Int(*n),
            Coord::Num(s) => Json::Num(s.clone()),
        }
    }

    pub fn from_json(j: &Json) -> (r: Option<Coord>)
        ensures
            r is Some <==> wf_coord(j@),
            r matches Some(c) ==> coord_v(c) == j@,
    {
        match j {
            Json::Int(n) => Some(Coord::Int(*n)),
            Json::Num(s) => Some(Coord::Num(s.clone())),
            _ => None,
        }
    }
}

/// A latitude/longitude pair.
#[derive(Debug, PartialEq, Eq)]
pub struct LatLng {
    pub lat: Coord,
    pub lng: Coord,
}

pub open spec fn latlng_entries(l: LatLng) -> Seq<(Seq<char>, JsonV)> {
    no_entries().push(("lat"@, coord_v(l.lat))).push(("lng"@, coord_v(l.lng)))
}

pub open spec fn latlng_json(l: LatLng) -> JsonV {
    JsonV::Obj(latlng_entries(l))
}

pub open spec fn latlng_wf(v: JsonV) -> bool {
    v matches JsonV::Obj(es) && {
        &&& (lookup(es, "lat"@) matches Some(x) && wf_coord(x))
        &&& (lookup(es, "lng"@) matches Some(y) && wf_coord(y))
    }
}

pub open spec fn latlng_fields(v: JsonV, l: LatLng) -> bool {
    v matches JsonV::Obj(es) && {
        &&& lookup(es, "lat"@) == Some(coord_v(l.lat))
        &&& lookup(es, "lng"@) == Some(coord_v(l.lng))
    }
}

impl LatLng {
    pub fn to_json(&self) -> (r: Json)
        ensures
            r@ == latlng_json(*self),
    {
        let mut es: Vec<(String, Json)> = Vec::new();
        put_json(&mut es, "lat", self.lat.to_json());
        put_json(&mut es, "lng", self.lng.to_json());
        Json::Obj(es)
    }

    pub fn from_json(j: &Json) -> (r: Option<LatLng>)
        ensures
            r is Some <==> latlng_wf(j@),
            r matches Some(l) ==> latlng_fields(j@, l),
    {
        let es = match j {
            Json::Obj(es) => es,
            _ => {
                return None;
            },
        };
        let latj = match obj_get(es, "lat") {
            Some(x) => x,
            None => {
                return None;
            },
        };
        let lat = match Coord::from_json(latj) {
            Some(c) => c,
            None => {
                return None;
            },
        };
        let lngj = match obj_get(es, "lng") {
            Some(x) => x,
            None => {
                return None;
            },
        };
        let lng = match Coord::from_json(lngj) {
            Some(c) => c,
            None => {
                return None;
            },
        };
        Some(LatLng { lat, lng })
    }
}

pub open spec fn opt_latlng_v(o: Option<LatLng>) -> Option<(JsonV, JsonV)> {
    match o {
        Some(l) => Some((coord_v(l.lat), coord_v(l.lng))),
        None => None,
    }
}

/// A site record, as the API sends and receives it.
#[derive(Debug, PartialEq, Eq)]
pub struct Site {
    pub name: String,
    pub timezone: Option<String>,
    pub country_code: Option<String>,
    pub secpolicy_id: Option<String>,
    pub alarmtemplate_id: Option<String>,
    pub networktemplate_id: Option<String>,
    pub latlng: Option<LatLng>,
    pub sitegroup_ids: Option<Vec<String>>,
    pub address: Option<String>,
    pub notes: Option<String>,
}

pub open spec fn site_entries(s: Site) -> Seq<(Seq<char>, JsonV)> {
    let es = no_entries().push(("name"@, JsonV::Str(s.name@)));
    let es = match s.timezone {
        Some(x) => es.push(("timezone"@, JsonV::Str(x@))),
        None => es,
    };
    let es = match s.country_code {
        Some(x) => es.push(("country_code"@, JsonV::Str(x@))),
        None => es,
    };
    let es = match s.secpolicy_id {
        Some(x) => es.push(("secpolicy_id"@, JsonV::Str(x@))),
        None => es,
    };
    let es = match s.alarmtemplate_id {
        Some(x) => es.push(("alarmtemplate_id"@, JsonV::Str(x@))),
        None => es,
    };
    let es = match s.networktemplate_id {
        Some(x) => es.push(("networktemplate_id"@, JsonV::Str(x@))),
        None => es,
    };
    let es = match s.latlng {
        Some(l) => es.push(("latlng"@, latlng_json(l))),
        None => es,
    };
    let es = match s.sitegroup_ids {
        Some(v) => es.push(("sitegroup_ids"@, JsonV::Arr(crate::json::strs_to_jsons(v.deep_view())))),
        None => es,
    };
    let es = match s.address {
        Some(x) => es.push(("address"@, JsonV::Str(x@))),
        None => es,
    };
    match s.notes {
        Some(x) => es.push(("notes"@, JsonV::Str(x@))),
        None => es,
    }
}

pub open spec fn site_json(s: Site) -> JsonV {
    JsonV::Obj(site_entries(s))
}

pub open spec fn site_wf(v: JsonV) -> bool {
    v matches JsonV::Obj(es) && {
        &&& wf_str(es, "name"@)
        &&& wf_opt_str(es, "timezone"@)
        &&& wf_opt_str(es, "country_code"@)
        &&& wf_opt_str(es, "secpolicy_id"@)
        &&& wf_opt_str(es, "alarmtemplate_id"@)
        &&& wf_opt_str(es, "networktemplate_id"@)
        &&& (match lookup(es, "latlng"@) {
            None => true,
            Some(JsonV::Null) => true,
            Some(v2) => latlng_wf(v2),
        })
        &&& wf_opt_strs(es, "sitegroup_ids"@)
        &&& wf_opt_str(es, "address"@)
        &&& wf_opt_str(es, "notes"@)
    }
}

pub open spec fn site_fields(v: JsonV, s: Site) -> bool {
    v matches JsonV::Obj(es) && {
        &&& fv_str(es, "name"@, s.name@)
        &&& fv_opt_str(es, "timezone"@, opt_v(s.timezone))
        &&& fv_opt_str(es, "country_code"@, opt_v(s.country_code))
        &&& fv_opt_str(es, "secpolicy_id"@, opt_v(s.secpolicy_id))
        &&& fv_opt_str(es, "alarmtemplate_id"@, opt_v(s.alarmtemplate_id))
        &&& fv_opt_str(es, "networktemplate_id"@, opt_v(s.networktemplate_id))
        &&& (match s.latlng {
            Some(l) => lookup(es, "latlng"@) matches Some(v2) && latlng_fields(v2, l),
            None => lookup(es, "latlng"@) is None || lookup(es, "latlng"@) == Some(JsonV::Null),
        })
        &&& fv_opt_strs(es, "sitegroup_ids"@, opt_dv(s.sitegroup_ids))
        &&& fv_opt_str(es, "address"@, opt_v(s.address))
        &&& fv_opt_str(es, "notes"@, opt_v(s.notes))
    }
}

/// Two site records that mean the same document.
pub open spec fn site_same(a: Site, b: Site) -> bool {
    &&& a.name@ == b.name@
    &&& opt_v(a.timezone) == opt_v(b.timezone)
    &&& opt_v(a.country_code) == opt_v(b.country_code)
    &&& opt_v(a.secpolicy_id) == opt_v(b.secpolicy_id)
    &&& opt_v(a.alarmtemplate_id) == opt_v(b.alarmtemplate_id)
    &&& opt_v(a.networktemplate_id) == opt_v(b.networktemplate_id)
    &&& opt_latlng_v(a.latlng) == opt_latlng_v(b.latlng)
    &&& opt_dv(a.sitegroup_ids) == opt_dv(b.sitegroup_ids)
    &&& opt_v(a.address) == opt_v(b.address)
    &&& opt_v(a.notes) == opt_v(b.notes)
}

impl Site {
    /// Encodes this record, writing each optional member only when it is
    /// populated.
    pub fn to_json(&self) -> (r: Json)
        ensures
            r@ == site_json(*self),
    {
        let mut es: Vec<(String, Json)> = Vec::new();
        put_str(&mut es, "name", self.name.as_str());
        put_opt_str(&mut es, "timezone", &self.timezone);
        put_opt_str(&mut es, "country_code", &self.country_code);
        put_opt_str(&mut es, "secpolicy_id", &self.secpolicy_id);
        put_opt_str(&mut es, "alarmtemplate_id", &self.alarmtemplate_id);
        put_opt_str(&mut es, "networktemplate_id", &self.networktemplate_id);
        match &self.latlng {
            Some(l) => put_json(&mut es, "latlng", l.to_json()),
            None => (),
        }
        put_opt_strs(&mut es, "sitegroup_ids", &self.sitegroup_ids);
        put_opt_str(&mut es, "address", &self.address);
        put_opt_str(&mut es, "notes", &self.notes);
        Json::Obj(es)
    }

    /// Decodes a site record.
    pub fn from_json(j: &Json) -> (r: Option<Site>)
        ensures
            r is Some <==> site_wf(j@),
            r matches Some(s) ==> site_fields(j@, s),
    {
        let es = match j {
            Json::Obj(es) => es,
            _ => {
                return None;
            },
        };
        let name = match get_str(es, "name") {
            Some(s) => s,
            None => {
                return None;
            },
        };
        let timezone = match get_opt_str(es, "timezone") {
            Some(v) => v,
            None => {
                return None;
            },
        };
        let country_code = match get_opt_str(es, "country_code") {
            Some(v) => v,
            None => {
                return None;
            },
        };
        let secpolicy_id = match get_opt_str(es, "secpolicy_id") {
            Some(v) => v,
            None => {
                return None;
            },
        };
        let alarmtemplate_id = match get_opt_str(es, "alarmtemplate_id") {
            Some(v) => v,
            None => {
                return None;
            },
        };
        let networktemplate_id = match get_opt_str(es, "networktemplate_id") {
            Some(v) => v,
            None => {
                return None;
            },
        };
        let latlng = match obj_get(es, "latlng") {
            None => None,
            Some(j2) => match j2 {
                Json::Null => None,
                _ => match LatLng::from_json(j2) {
                    Some(l) => Some(l),
                    None => {
                        return None;
                    },
                },
            },
        };
        let sitegroup_ids = match get_opt_strs(es, "sitegroup_ids") {
            Some(v) => v,
            None => {
                return None;
            },
        };
        let address = match get_opt_str(es, "address") {
            Some(v) => v,
            None => {
                return None;
            },
        };
        let notes = match get_opt_str(es, "notes") {
            Some(v) => v,
            None => {
                return None;
            },
        };
        Some(
            Site {
                name,
                timezone,
                country_code,
                secpolicy_id,
                alarmtemplate_id,
                networktemplate_id,
                latlng,
                sitegroup_ids,
                address,
                notes,
            },
        )
    }
}

/// Encoding a site and decoding the result loses nothing: the encoded
/// document is well-formed, and any record decoded from it means the same
/// document as the one encoded.
#[verifier::rlimit(100)]
pub proof fn lemma_site_round_trip(s: Site)
    ensures
        site_wf(site_json(s)),
        forall|b: Site| site_fields(site_json(s), b) ==> site_same(s, b),
{
    broadcast use lemma_lookup_push;
    broadcast use vstd::string::group_string_axioms;

    reveal_strlit("name");
    reveal_strlit("timezone");
    reveal_strlit("country_code");
    reveal_strlit("secpolicy_id");
    reveal_strlit("alarmtemplate_id");
    reveal_strlit("networktemplate_id");
    reveal_strlit("latlng");
    reveal_strlit("sitegroup_ids");
    reveal_strlit("address");
    reveal_strlit("notes");
    reveal_strlit("lat");
    reveal_strlit("lng");
    assert("name"@.len() == 4);
    assert("timezone"@.len() == 8);
    assert("country_code"@.len() == 12);
    assert("secpolicy_id"@.len() == 12);
    assert("alarmtemplate_id"@.len() == 16);
    assert("networktemplate_id"@.len() == 18);
    assert("latlng"@.len() == 6);
    assert("sitegroup_ids"@.len() == 13);
    assert("address"@.len() == 7);
    assert("notes"@.len() == 5);
    assert("lat"@.len() == 3);
    assert("lng"@.len() == 3);
    assert("country_code"@[0] == 'c');
    assert("secpolicy_id"@[0] == 's');
    assert("lat"@[1] == 'a');
    assert("lng"@[1] == 'n');
    assert forall|b: Site| site_fields(site_json(s), b) implies site_same(s, b) by {
        match (s.sitegroup_ids, b.sitegroup_ids) {
            (Some(sv), Some(bv)) => {
                lemma_strs_to_jsons_injective(sv.deep_view(), bv.deep_view());
            },
            _ => {},
        }
    }
}

/// A list of site records.
#[derive(Debug, PartialEq, Eq)]
pub struct Sites(pub Vec<Site>);

pub open spec fn sites_wf(v: JsonV) -> bool {
    v matches JsonV::Arr(a) && forall|i: int| 0 <= i < a.len() ==> site_wf(#[trigger] a[i])
}

pub open spec fn sites_fields(v: JsonV, s: Sites) -> bool {
    v matches JsonV::Arr(a) && s.0@.len() == a.len() && forall|i: int|
        0 <= i < a.len() ==> site_fields(#[trigger] a[i], s.0@[i])
}

impl Sites {
    /// Decodes a list of site records.
    #[verifier::loop_isolation(false)]
    pub fn from_json(j: &Json) -> (r: Option<Sites>)
        ensures
            r is Some <==> sites_wf(j@),
            r matches Some(s) ==> sites_fields(j@, s),
    {
        broadcast use lemma_arr_v_props;

        let arr = match j {
            Json::Arr(a) => a,
            _ => {
                return None;
            },
        };
        let mut out: Vec<Site> = Vec::new();
        let n = arr.len();
        let mut i: usize = 0;
        while i < n
            invariant
                n == arr.len(),
                i <= n,
                out@.len() == i,
                forall|k: int| 0 <= k < i ==> site_wf(#[trigger] arr_v(arr@)[k]),
                forall|k: int| 0 <= k < i ==> site_fields(#[trigger] arr_v(arr@)[k], out@[k]),
            decreases n - i,
        {
            match Site::from_json(&arr[i]) {
                Some(s) => {
                    out.push(s);
                },
                None => {
                    proof {
                        assert(arr_v(arr@)[i as int] == arr@[i as int].v());
                    }
                    return None;
                },
            }
            i = i + 1;
        }
        Some(Sites(out))
    }
}

/// Site statistics, as the stats endpoint reports them.
#[derive(Debug, PartialEq, Eq)]
pub struct SiteStats {
    pub name: String,
    pub id: String,
    pub address: Option<String>,
    pub alarmtemplate_id: Option<String>,
    pub country_code: Option<String>,
    pub created_time: Option<u32>,
    pub lat: Option<Coord>,
    pub latlng: Option<LatLng>,
    pub lng: Option<Coord>,
    pub modified_time: Option<u32>,
    pub msp_id: Option<String>,
    pub networktemplate_id: Option<String>,
    pub num_ap: u16,
    pub num_ap_connected: u16,
    pub num_clients: u16,
    pub num_devices: u16,
    pub num_devices_connected: u16,
    pub num_gateway: u16,
    pub num_gateway_connected: u16,
    pub num_switch: u16,
    pub num_switch_connected: u16,
    pub org_id: Option<String>,
    pub rftemplate_id: Option<String>,
    pub secpolicy_id: Option<String>,
    pub timezone: Option<String>,
    pub tzoffset: Option<i32>,
}

pub open spec fn wf_opt_coord(es: Seq<(Seq<char>, JsonV)>, k: Seq<char>) -> bool {
    match lookup(es, k) {
        None => true,
        Some(JsonV::Null) => true,
        Some(x) => wf_coord(x),
    }
}

pub open spec fn fv_opt_coord(
    es: Seq<(Seq<char>, JsonV)>,
    k: Seq<char>,
    c: Option<Coord>,
) -> bool {
    match c {
        Some(x) => lookup(es, k) == Some(coord_v(x)),
        None => lookup(es, k) is None || lookup(es, k) == Some(JsonV::Null),
    }
}

pub open spec fn site_stats_wf(v: JsonV) -> bool {
    v matches JsonV::Obj(es) && {
        &&& wf_str(es, "name"@)
        &&& wf_str(es, "id"@)
        &&& wf_opt_str(es, "address"@)
        &&& wf_opt_str(es, "alarmtemplate_id"@)
        &&& wf_opt_str(es, "country_code"@)
        &&& wf_opt_int_in(es, "created_time"@, 0, u32::MAX as int)
        &&& wf_opt_coord(es, "lat"@)
        &&& (match lookup(es, "latlng"@) {
            None => true,
            Some(JsonV::Null) => true,
            Some(v2) => latlng_wf(v2),
        })
        &&& wf_opt_coord(es, "lng"@)
        &&& wf_opt_int_in(es, "modified_time"@, 0, u32::MAX as int)
        &&& wf_opt_str(es, "msp_id"@)
        &&& wf_opt_str(es, "networktemplate_id"@)
        &&& wf_int_or(es, "num_ap"@, 0, u16::MAX as int)
        &&& wf_int_or(es, "num_ap_connected"@, 0, u16::MAX as int)
        &&& wf_int_or(es, "num_clients"@, 0, u16::MAX as int)
        &&& wf_int_or(es, "num_devices"@, 0, u16::MAX as int)
        &&& wf_int_or(es, "num_devices_connected"@, 0, u16::MAX as int)
        &&& wf_int_or(es, "num_gateway"@, 0, u16::MAX as int)
        &&& wf_int_or(es, "num_gateway_connected"@, 0, u16::MAX as int)
        &&& wf_int_or(es, "num_switch"@, 0, u16::MAX as int)
        &&& wf_int_or(es, "num_switch_connected"@, 0, u16::MAX as int)
        &&& wf_opt_str(es, "org_id"@)
        &&& wf_opt_str(es, "rftemplate_id"@)
        &&& wf_opt_str(es, "secpolicy_id"@)
        &&& wf_opt_str(es, "timezone"@)
        &&& wf_opt_int_in(es, "tzoffset"@, i32::MIN as int, i32::MAX as int)
    }
}

pub open spec fn site_stats_fields(v: JsonV, t: SiteStats) -> bool {
    v matches JsonV::Obj(es) && {
        &&& fv_str(es, "name"@, t.name@)
        &&& fv_str(es, "id"@, t.id@)
        &&& fv_opt_str(es, "address"@, opt_v(t.address))
        &&& fv_opt_str(es, "alarmtemplate_id"@, opt_v(t.alarmtemplate_id))
        &&& fv_opt_str(es, "country_code"@, opt_v(t.country_code))
        &&& fv_opt_int(es, "created_time"@, match t.created_time {
            Some(n) => Some(n as int),
            None => None,
        })
        &&& fv_opt_coord(es, "lat"@, t.lat)
        &&& (match t.latlng {
            Some(l) => lookup(es, "latlng"@) matches Some(v2) && latlng_fields(v2, l),
            None => lookup(es, "latlng"@) is None || lookup(es, "latlng"@) == Some(JsonV::Null),
        })
        &&& fv_opt_coord(es, "lng"@, t.lng)
        &&& fv_opt_int(es, "modified_time"@, match t.modified_time {
            Some(n) => Some(n as int),
            None => None,
        })
        &&& fv_opt_str(es, "msp_id"@, opt_v(t.msp_id))
        &&& fv_opt_str(es, "networktemplate_id"@, opt_v(t.networktemplate_id))
        &&& fv_int_or(es, "num_ap"@, 0, t.num_ap as int)
        &&& fv_int_or(es, "num_ap_connected"@, 0, t.num_ap_connected as int)
        &&& fv_int_or(es, "num_clients"@, 0, t.num_clients as int)
        &&& fv_int_or(es, "num_devices"@, 0, t.num_devices as int)
        &&& fv_int_or(es, "num_devices_connected"@, 0, t.num_devices_connected as int)
        &&& fv_int_or(es, "num_gateway"@, 0, t.num_gateway as int)
        &&& fv_int_or(es, "num_gateway_connected"@, 0, t.num_gateway_connected as int)
        &&& fv_int_or(es, "num_switch"@, 0, t.num_switch as int)
        &&& fv_int_or(es, "num_switch_connected"@, 0, t.num_switch_connected as int)
        &&& fv_opt_str(es, "org_id"@, opt_v(t.org_id))
        &&& fv_opt_str(es, "rftemplate_id"@, opt_v(t.rftemplate_id))
        &&& fv_opt_str(es, "secpolicy_id"@, opt_v(t.secpolicy_id))
        &&& fv_opt_str(es, "timezone"@, opt_v(t.timezone))
        &&& fv_opt_int(es, "tzoffset"@, match t.tzoffset {
            Some(n) => Some(n as int),
            None => None,
        })
    }
}

impl SiteStats {
    /// Decodes a site statistics record.
    pub fn from_json(j: &Json) -> (r: Option<SiteStats>)
        ensures
            r is Some <==> site_stats_wf(j@),
            r matches Some(t) ==> site_stats_fields(j@, t),
    {
        let es = match j {
            Json::Obj(es) => es,
            _ => {
                return None;
            },
        };
        let name = match get_str(es, "name") {
            Some(s) => s,
            None => {
                return None;
            },
        };
        let id = match get_str(es, "id") {
            Some(s) => s,
            None => {
                return None;
            },
        };
        let address = match get_opt_str(es, "address") {
            Some(v) => v,
            None => {
                return None;
            },
        };
        let alarmtemplate_id = match get_opt_str(es, "alarmtemplate_id") {
            Some(v) => v,
            None => {
                return None;
            },
        };
        let country_code = match get_opt_str(es, "country_code") {
            Some(v) => v,
            None => {
                return None;
            },
        };
        let created_time = match get_opt_i64_in(es, "created_time", 0, 4294967295) {
            Some(v) => match v {
                Some(n) => Some(n as u32),
                None => None,
            },
            None => {
                return None;
            },
        };
        let lat = match obj_get(es, "lat") {
            None => None,
            Some(j2) => match j2 {
                Json::Null => None,
                _ => match Coord::from_json(j2) {
                    Some(c) => Some(c),
                    None => {
                        return None;
                    },
                },
            },
        };
        let latlng = match obj_get(es, "latlng") {
            None => None,
            Some(j2) => match j2 {
                Json::Null => None,
                _ => match LatLng::from_json(j2) {
                    Some(l) => Some(l),
                    None => {
                        return None;
                    },
                },
            },
        };
        let lng = match obj_get(es, "lng") {
            None => None,
            Some(j2) => match j2 {
                Json::Null => None,
                _ => match Coord::from_json(j2) {
                    Some(c) => Some(c),
                    None => {
                        return None;
                    },
                },
            },
        };
        let modified_time = match get_opt_i64_in(es, "modified_time", 0, 4294967295) {
            Some(v) => match v {
                Some(n) => Some(n as u32),
                None => None,
            },
            None => {
                return None;
            },
        };
        let msp_id = match get_opt_str(es, "msp_id") {
            Some(v) => v,
            None => {
                return None;
            },
        };
        let networktemplate_id = match get_opt_str(es, "networktemplate_id") {
            Some(v) => v,
            None => {
                return None;
            },
        };
        let num_ap = match get_i64_in_or(es, "num_ap", 0, 65535, 0) {
            Some(n) => n as u16,
            None => {
                return None;
            },
        };
        let num_ap_connected = match get_i64_in_or(es, "num_ap_connected", 0, 65535, 0) {
            Some(n) => n as u16,
            None => {
                return None;
            },
        };
        let num_clients = match get_i64_in_or(es, "num_clients", 0, 65535, 0) {
            Some(n) => n as u16,
            None => {
                return None;
            },
        };
        let num_devices = match get_i64_in_or(es, "num_devices", 0, 65535, 0) {
            Some(n) => n as u16,
            None => {
                return None;
            },
        };
        let num_devices_connected = match get_i64_in_or(es, "num_devices_connected", 0, 65535, 0) {
            Some(n) => n as u16,
            None => {
                return None;
            },
        };
        let num_gateway = match get_i64_in_or(es, "num_gateway", 0, 65535, 0) {
            Some(n) => n as u16,
            None => {
                return None;
            },
        };
        let num_gateway_connected = match get_i64_in_or(es, "num_gateway_connected", 0, 65535, 0) {
            Some(n) => n as u16,
            None => {
                return None;
            },
        };
        let num_switch = match get_i64_in_or(es, "num_switch", 0, 65535, 0) {
            Some(n) => n as u16,
            None => {
                return None;
            },
        };
        let num_switch_connected = match get_i64_in_or(es, "num_switch_connected", 0, 65535, 0) {
            Some(n) => n as u16,
            None => {
                return None;
            },
        };
        let org_id = match get_opt_str(es, "org_id") {
            Some(v) => v,
            None => {
                return None;
            },
        };
        let rftemplate_id = match get_opt_str(es, "rftemplate_id") {
            Some(v) => v,
            None => {
                return None;
            },
        };
        let secpolicy_id = match get_opt_str(es, "secpolicy_id") {
            Some(v) => v,
            None => {
                return None;
            },
        };
        let timezone = match get_opt_str(es, "timezone") {
            Some(v) => v,
            None => {
                return None;
            },
        };
        let tzoffset = match get_opt_i64_in(es, "tzoffset", -2147483648, 2147483647) {
            Some(v) => match v {
                Some(n) => Some(n as i32),
                None => None,
            },
            None => {
                return None;
            },
        };
        Some(
            SiteStats {
                name,
                id,
                address,
                alarmtemplate_id,
                country_code,
                created_time,
                lat,
                latlng,
                lng,
                modified_time,
                msp_id,
                networktemplate_id,
                num_ap,
                num_ap_connected,
                num_clients,
                num_devices,
                num_devices_connected,
                num_gateway,
                num_gateway_connected,
                num_switch,
                num_switch_connected,
                org_id,
                rftemplate_id,
                secpolicy_id,
                timezone,
                tzoffset,
            },
        )
    }
}

pub open spec fn sites_path_spec(org: Seq<char>) -> Seq<char> {
    api_base() + "/orgs/"@ + org + "/sites"@
}

pub open spec fn site_path_spec(org: Seq<char>, site: Seq<char>) -> Seq<char> {
    sites_path_spec(org) + "/"@ + site
}

pub open spec fn site_stats_path_spec(site: Seq<char>) -> Seq<char> {
    api_base() + "/sites/"@ + site + "/stats"@
}

/// URL of an org's site collection.
pub fn sites_path(org_id: &str) -> (r: String)
    ensures
        r@ == sites_path_spec(org_id@),
{
    let mut s = crate::consts::api_base_owned();
    s.append("/orgs/");
    s.append(org_id);
    s.append("/sites");
    s
}

/// URL of one site of an org.
pub fn site_path(org_id: &str, site_id: &str) -> (r: String)
    ensures
        r@ == site_path_spec(org_id@, site_id@),
{
    let mut s = sites_path(org_id);
    s.append("/");
    s.append(site_id);
    s
}

/// URL of a site's statistics.
pub fn site_stats_path(site_id: &str) -> (r: String)
    ensures
        r@ == site_stats_path_spec(site_id@),
{
    let mut s = crate::consts::api_base_owned();
    s.append("/sites/");
    s.append(site_id);
    s.append("/stats");
    s
}

/// Path building composes: the collection URL, one slash, and the site id
/// give exactly the single-site URL, for every pair of identifiers; and
/// that URL is the base, the org segment and the site segment, nothing
/// else.
pub proof fn lemma_site_path_compose(org: Seq<char>, site: Seq<char>)
    ensures
        sites_path_spec(org) + "/"@ + site == site_path_spec(org, site),
        site_path_spec(org, site) == api_base() + "/orgs/"@ + org + "/sites/"@ + site,
{
    broadcast use vstd::string::group_string_axioms;

    reveal_strlit("/sites");
    reveal_strlit("/");
    reveal_strlit("/sites/");
    assert("/sites"@.len() == 6);
    assert("/"@.len() == 1);
    assert("/sites/"@.len() == 7);
    assert("/sites"@ + "/"@ =~= "/sites/"@);
    assert(site_path_spec(org, site) =~= api_base() + "/orgs/"@ + org + "/sites/"@ + site);
}

/// Builds the site-stats call.
pub fn get_stats_request(site_id: &str) -> (r: Request)
    ensures
        r.verb == Verb::Get,
        r.url@ == site_stats_path_spec(site_id@),
        r.body@ == JsonV::Null,
{
    Request { verb: Verb::Get, url: site_stats_path(site_id), body: Json::Null }
}

/// Decides a site-stats reply.
pub fn get_stats_result(resp: &Option<Json>) -> (r: Result<SiteStats, ()>)
    ensures
        match r {
            Ok(t) => resp matches Some(j) && site_stats_wf(j@) && site_stats_fields(j@, t),
            Err(_) => !(resp matches Some(j) && site_stats_wf(j@)),
        },
{
    match resp {
        Some(j) => match SiteStats::from_json(j) {
            Some(t) => Ok(t),
            None => Err(()),
        },
        None => Err(()),
    }
}

/// Builds the site-list call.
pub fn list_request(org_id: &str) -> (r: Request)
    ensures
        r.verb == Verb::Get,
        r.url@ == sites_path_spec(org_id@),
        r.body@ == JsonV::Null,
{
    Request { verb: Verb::Get, url: sites_path(org_id), body: Json::Null }
}

/// Decides a site-list reply.
pub fn list_result(resp: &Option<Json>) -> (r: Result<Sites, ()>)
    ensures
        match r {
            Ok(s) => resp matches Some(j) && sites_wf(j@) && sites_fields(j@, s),
            Err(_) => !(resp matches Some(j) && sites_wf(j@)),
        },
{
    match resp {
        Some(j) => match Sites::from_json(j) {
            Some(s) => Ok(s),
            None => Err(()),
        },
        None => Err(()),
    }
}

/// Builds the single-site read.
pub fn get_request(org_id: &str, site_id: &str) -> (r: Request)
    ensures
        r.verb == Verb::Get,
        r.url@ == site_path_spec(org_id@, site_id@),
        r.body@ == JsonV::Null,
{
    Request { verb: Verb::Get, url: site_path(org_id, site_id), body: Json::Null }
}

/// Decides a single-site reply.
pub fn get_result(resp: &Option<Json>) -> (r: Result<Site, ()>)
    ensures
        match r {
            Ok(s) => resp matches Some(j) && site_wf(j@) && site_fields(j@, s),
            Err(_) => !(resp matches Some(j) && site_wf(j@)),
        },
{
    match resp {
        Some(j) => match Site::from_json(j) {
            Some(s) => Ok(s),
            None => Err(()),
        },
        None => Err(()),
    }
}

/// Builds the site-creation call.
pub fn create_request(org_id: &str, site: &Site) -> (r: Request)
    ensures
        r.verb == Verb::Post,
        r.url@ == sites_path_spec(org_id@),
        r.body@ == site_json(*site),
{
    Request { verb: Verb::Post, url: sites_path(org_id), body: site.to_json() }
}

/// Decides a site-creation reply.
pub fn create_result(resp: &Option<Json>) -> (r: Result<Site, ()>)
    ensures
        match r {
            Ok(s) => resp matches Some(j) && site_wf(j@) && site_fields(j@, s),
            Err(_) => !(resp matches Some(j) && site_wf(j@)),
        },
{
    match resp {
        Some(j) => match Site::from_json(j) {
            Some(s) => Ok(s),
            None => Err(()),
        },
        None => Err(()),
    }
}

/// Builds the site-update call.
pub fn update_request(org_id: &str, site_id: &str, site: &Site) -> (r: Request)
    ensures
        r.verb == Verb::Put,
        r.url@ == site_path_spec(org_id@, site_id@),
        r.body@ == site_json(*site),
{
    Request { verb: Verb::Put, url: site_path(org_id, site_id), body: site.to_json() }
}

/// Decides a site-update reply.
pub fn update_result(resp: &Option<Json>) -> (r: Result<Site, ()>)
    ensures
        match r {
            Ok(s) => resp matches Some(j) && site_wf(j@) && site_fields(j@, s),
            Err(_) => !(resp matches Some(j) && site_wf(j@)),
        },
{
    match resp {
        Some(j) => match Site::from_json(j) {
            Some(s) => Ok(s),
            None => Err(()),
        },
        None => Err(()),
    }
}

/// Builds the site-deletion call.
pub fn delete_request(org_id: &str, site_id: &str) -> (r: Request)
    ensures
        r.verb == Verb::Delete,
        r.url@ == site_path_spec(org_id@, site_id@),
        r.body@ == JsonV::Null,
{
    Request { verb: Verb::Delete, url: site_path(org_id, site_id), body: Json::Null }
}

/// Decides a site-deletion reply: any decoded document counts as success.
pub fn delete_result(resp: &Option<Json>) -> (r: Result<(), ()>)
    ensures
        r is Ok <==> resp is Some,
{
    match resp {
        Some(_) => Ok(()),
        None => Err(()),
    }
}

} // verus!
