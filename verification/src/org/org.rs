//! Organizations: the records, their JSON form, the URLs, and one
//! request/decide pair per remote operation.

use vstd::prelude::*;
use vstd::string::StringExecFns;

use crate::consts::api_base;
use crate::http::Request;
use crate::http::Verb;
use crate::json::arr_v;
use crate::json::fv_bool;
use crate::json::fv_bool_or;
use crate::json::fv_int;
use crate::json::fv_opt_str;
use crate::json::fv_opt_strs;
use crate::json::fv_str;
use crate::json::fv_strs;
use crate::json::get_bool;
use crate::json::get_bool_or;
use crate::json::get_i64_in;
use crate::json::get_opt_i64_in;
use crate::json::get_opt_str;
use crate::json::get_opt_strs;
use crate::json::get_str;
use crate::json::get_strs;
use crate::json::kvs_v;
use crate::json::lemma_arr_v_props;
use crate::json::lemma_kvs_v_props;
use crate::json::lemma_lookup_push;
use crate::json::lemma_strs_to_jsons_injective;
use crate::json::no_entries;
use crate::json::opt_dv;
use crate::json::opt_v;
use crate::json::put_bool;
use crate::json::put_int;
use crate::json::put_json;
use crate::json::put_opt_bool;
use crate::json::put_opt_str;
use crate::json::put_opt_strs;
use crate::json::put_str;
use crate::json::put_strs;
use crate::json::strs_to_jsons;
use crate::json::wf_bool;
use crate::json::wf_bool_or;
use crate::json::wf_int_in;
use crate::json::wf_opt_int_in;
use crate::json::wf_opt_str;
use crate::json::wf_opt_strs;
use crate::json::wf_str;
use crate::json::wf_strs;
use crate::json::Json;
use crate::json::JsonV;

verus! {

/// The default the API's decoder fills in for an org's `allow_mist` flag.
pub fn default_allow_mist() -> (r: bool)
    ensures
        r == true,
{
    true
}

/// The default for members documented as enabled when absent.
pub fn default_enabled() -> (r: bool)
    ensures
        r == true,
{
    true
}

/// The default for members documented as disabled when absent.  Note: it
/// resolves to `true`, exactly as the wire format has behaved so far; kept
/// that way for compatibility.
pub fn default_disabled() -> (r: bool)
    ensures
        r == true,
{
    true
}

/// An organization record.
#[derive(Debug, PartialEq, Eq)]
pub struct Org {
    pub name: String,
    pub session_expiry: Option<u16>,
    pub alarmtemplate_id: Option<String>,
    pub orggroup_ids: Option<Vec<String>>,
    pub allow_mist: bool,
}

pub open spec fn org_entries(o: Org) -> Seq<(Seq<char>, JsonV)> {
    let es = no_entries().push(("name"@, JsonV::Str(o.name@)));
    let es = match o.session_expiry {
        Some(n) => es.push(("session_expiry"@, JsonV::Int(n as int))),
        None => es,
    };
    let es = match o.alarmtemplate_id {
        Some(x) => es.push(("alarmtemplate_id"@, JsonV::Str(x@))),
        None => es,
    };
    let es = match o.orggroup_ids {
        Some(v) => es.push(("orggroup_ids"@, JsonV::Arr(strs_to_jsons(v.deep_view())))),
        None => es,
    };
    es.push(("allow_mist"@, JsonV::Bool(o.allow_mist)))
}

pub open spec fn org_json(o: Org) -> JsonV {
    JsonV::Obj(org_entries(o))
}

pub open spec fn org_wf(v: JsonV) -> bool {
    v matches JsonV::Obj(es) && {
        &&& wf_str(es, "name"@)
        &&& wf_opt_int_in(es, "session_expiry"@, 0, u16::MAX as int)
        &&& wf_opt_str(es, "alarmtemplate_id"@)
        &&& wf_opt_strs(es, "orggroup_ids"@)
        &&& wf_bool_or(es, "allow_mist"@)
    }
}

pub open spec fn org_fields(v: JsonV, o: Org) -> bool {
    v matches JsonV::Obj(es) && {
        &&& fv_str(es, "name"@, o.name@)
        &&& crate::json::fv_opt_int(es, "session_expiry"@, match o.session_expiry {
            Some(n) => Some(n as int),
            None => None,
        })
        &&& fv_opt_str(es, "alarmtemplate_id"@, opt_v(o.alarmtemplate_id))
        &&& fv_opt_strs(es, "orggroup_ids"@, opt_dv(o.orggroup_ids))
        &&& fv_bool_or(es, "allow_mist"@, true, o.allow_mist)
    }
}

/// Two org records that mean the same document.
pub open spec fn org_same(a: Org, b: Org) -> bool {
    &&& a.name@ == b.name@
    &&& a.session_expiry == b.session_expiry
    &&& opt_v(a.alarmtemplate_id) == opt_v(b.alarmtemplate_id)
    &&& opt_dv(a.orggroup_ids) == opt_dv(b.orggroup_ids)
    &&& a.allow_mist == b.allow_mist
}

impl Org {
    /// Encodes this record, writing each optional member only when it is
    /// populated.
    pub fn to_json(&self) -> (r: Json)
        ensures
            r@ == org_json(*self),
    {
        let mut es: Vec<(String, Json)> = Vec::new();
        put_str(&mut es, "name", self.name.as_str());
        match self.session_expiry {
            Some(n) => put_int(&mut es, "session_expiry", n as i64),
            None => (),
        }
        put_opt_str(&mut es, "alarmtemplate_id", &self.alarmtemplate_id);
        put_opt_strs(&mut es, "orggroup_ids", &self.orggroup_ids);
        put_bool(&mut es, "allow_mist", self.allow_mist);
        Json::Obj(es)
    }

    /// Decodes an org record; `allow_mist` falls back to its declared
    /// default when absent.
    pub fn from_json(j: &Json) -> (r: Option<Org>)
        ensures
            r is Some <==> org_wf(j@),
            r matches Some(o) ==> org_fields(j@, o),
    {
        let es = match j {
            Json::Obj(es) => es,
            _ => {
                return None;
            },
        };
        let name = match get_str(es, "name") {
            Some(s) => s,
            None => {
                return None;
            },
        };
        let session_expiry = match get_opt_i64_in(es, "session_expiry", 0, 65535) {
            Some(v) => match v {
                Some(n) => Some(n as u16),
                None => None,
            },
            None => {
                return None;
            },
        };
        let alarmtemplate_id = match get_opt_str(es, "alarmtemplate_id") {
            Some(v) => v,
            None => {
                return None;
            },
        };
        let orggroup_ids = match get_opt_strs(es, "orggroup_ids") {
            Some(v) => v,
            None => {
                return None;
            },
        };
        let allow_mist = match get_bool_or(es, "allow_mist", default_allow_mist()) {
            Some(b) => b,
            None => {
                return None;
            },
        };
        Some(Org { name, session_expiry, alarmtemplate_id, orggroup_ids, allow_mist })
    }
}

/// Encoding an org record and decoding the result loses nothing.
#[verifier::rlimit(100)]
pub proof fn lemma_org_round_trip(o: Org)
    ensures
        org_wf(org_json(o)),
        forall|b: Org| org_fields(org_json(o), b) ==> org_same(o, b),
{
    broadcast use lemma_lookup_push;
    broadcast use vstd::string::group_string_axioms;

    reveal_strlit("name");
    reveal_strlit("session_expiry");
    reveal_strlit("alarmtemplate_id");
    reveal_strlit("orggroup_ids");
    reveal_strlit("allow_mist");
    assert("name"@.len() == 4);
    assert("session_expiry"@.len() == 14);
    assert("alarmtemplate_id"@.len() == 16);
    assert("orggroup_ids"@.len() == 12);
    assert("allow_mist"@.len() == 10);
    assert forall|b: Org| org_fields(org_json(o), b) implies org_same(o, b) by {
        match (o.orggroup_ids, b.orggroup_ids) {
            (Some(ov), Some(bv)) => {
                lemma_strs_to_jsons_injective(ov.deep_view(), bv.deep_view());
            },
            _ => {},
        }
    }
}

/// A list of org records.
#[derive(Debug, PartialEq, Eq)]
pub struct Orgs(pub Vec<Org>);

pub open spec fn orgs_wf(v: JsonV) -> bool {
    v matches JsonV::Arr(a) && forall|i: int| 0 <= i < a.len() ==> org_wf(#[trigger] a[i])
}

pub open spec fn orgs_fields(v: JsonV, s: Orgs) -> bool {
    v matches JsonV::Arr(a) && s.0@.len() == a.len() && forall|i: int|
        0 <= i < a.len() ==> org_fields(#[trigger] a[i], s.0@[i])
}

impl Orgs {
    /// Decodes a list of org records.
    #[verifier::loop_isolation(false)]
    pub fn from_json(j: &Json) -> (r: Option<Orgs>)
        ensures
            r is Some <==> orgs_wf(j@),
            r matches Some(s) ==> orgs_fields(j@, s),
    {
        broadcast use lemma_arr_v_props;

        let arr = match j {
            Json::Arr(a) => a,
            _ => {
                return None;
            },
        };
        let mut out: Vec<Org> = Vec::new();
        let n = arr.len();
        let mut i: usize = 0;
        while i < n
            invariant
                n == arr.len(),
                i <= n,
                out@.len() == i,
                forall|k: int| 0 <= k < i ==> org_wf(#[trigger] arr_v(arr@)[k]),
                forall|k: int| 0 <= k < i ==> org_fields(#[trigger] arr_v(arr@)[k], out@[k]),
            decreases n - i,
        {
            match Org::from_json(&arr[i]) {
                Some(o) => {
                    out.push(o);
                },
                None => {
                    proof {
                        assert(arr_v(arr@)[i as int] == arr@[i as int].v());
                    }
                    return None;
                },
            }
            i = i + 1;
        }
        Some(Orgs(out))
    }
}

/// An org's statistics, as the stats endpoint reports them.
#[derive(Debug, PartialEq, Eq)]
pub struct OrgStats {
    pub name: String,
    pub id: String,
    pub orggroup_ids: Option<Vec<String>>,
    pub allow_mist: bool,
    pub num_inventory: u32,
    pub num_devices: u32,
    pub num_devices_connected: u16,
    pub num_devices_disconnected: u16,
    pub num_sites: u16,
}

pub open spec fn org_stats_wf(v: JsonV) -> bool {
    v matches JsonV::Obj(es) && {
        &&& wf_str(es, "name"@)
        &&& wf_str(es, "id"@)
        &&& wf_opt_strs(es, "orggroup_ids"@)
        &&& wf_bool(es, "allow_mist"@)
        &&& wf_int_in(es, "num_inventory"@, 0, u32::MAX as int)
        &&& wf_int_in(es, "num_devices"@, 0, u32::MAX as int)
        &&& wf_int_in(es, "num_devices_connected"@, 0, u16::MAX as int)
        &&& wf_int_in(es, "num_devices_disconnected"@, 0, u16::MAX as int)
        &&& wf_int_in(es, "num_sites"@, 0, u16::MAX as int)
    }
}

pub open spec fn org_stats_fields(v: JsonV, t: OrgStats) -> bool {
    v matches JsonV::Obj(es) && {
        &&& fv_str(es, "name"@, t.name@)
        &&& fv_str(es, "id"@, t.id@)
        &&& fv_opt_strs(es, "orggroup_ids"@, opt_dv(t.orggroup_ids))
        &&& fv_bool(es, "allow_mist"@, t.allow_mist)
        &&& fv_int(es, "num_inventory"@, t.num_inventory as int)
        &&& fv_int(es, "num_devices"@, t.num_devices as int)
        &&& fv_int(es, "num_devices_connected"@, t.num_devices_connected as int)
        &&& fv_int(es, "num_devices_disconnected"@, t.num_devices_disconnected as int)
        &&& fv_int(es, "num_sites"@, t.num_sites as int)
    }
}

impl OrgStats {
    /// Decodes an org statistics record.
    pub fn from_json(j: &Json) -> (r: Option<OrgStats>)
        ensures
            r is Some <==> org_stats_wf(j@),
            r matches Some(t) ==> org_stats_fields(j@, t),
    {
        let es = match j {
            Json::Obj(es) => es,
            _ => {
                return None;
            },
        };
        let name = match get_str(es, "name") {
            Some(s) => s,
            None => {
                return None;
            },
        };
        let id = match get_str(es, "id") {
            Some(s) => s,
            None => {
                return None;
            },
        };
        let orggroup_ids = match get_opt_strs(es, "orggroup_ids") {
            Some(v) => v,
            None => {
                return None;
            },
        };
        let allow_mist = match get_bool(es, "allow_mist") {
            Some(b) => b,
            None => {
                return None;
            },
        };
        let num_inventory = match get_i64_in(es, "num_inventory", 0, 4294967295) {
            Some(n) => n as u32,
            None => {
                return None;
            },
        };
        let num_devices = match get_i64_in(es, "num_devices", 0, 4294967295) {
            Some(n) => n as u32,
            None => {
                return None;
            },
        };
        let num_devices_connected = match get_i64_in(es, "num_devices_connected", 0, 65535) {
            Some(n) => n as u16,
            None => {
                return None;
            },
        };
        let num_devices_disconnected = match get_i64_in(es, "num_devices_disconnected", 0, 65535) {
            Some(n) => n as u16,
            None => {
                return None;
            },
        };
        let num_sites = match get_i64_in(es, "num_sites", 0, 65535) {
            Some(n) => n as u16,
            None => {
                return None;
            },
        };
        Some(
            OrgStats {
                name,
                id,
                orggroup_ids,
                allow_mist,
                num_inventory,
                num_devices,
                num_devices_connected,
                num_devices_disconnected,
                num_sites,
            },
        )
    }
}

/// An org's settings record, as the settings endpoint reports it.
#[derive(Debug, PartialEq, Eq)]
pub struct OrgSetting {
    pub id: String,
    pub for_site: bool,
    pub site_id: String,
    pub org_id: String,
    pub created_time: u32,
    pub modified_time: u32,
    pub tags: Vec<String>,
}

pub open spec fn org_setting_wf(v: JsonV) -> bool {
    v matches JsonV::Obj(es) && {
        &&& wf_str(es, "id"@)
        &&& wf_bool_or(es, "for_site"@)
        &&& wf_str(es, "site_id"@)
        &&& wf_str(es, "org_id"@)
        &&& wf_int_in(es, "created_time"@, 0, u32::MAX as int)
        &&& wf_int_in(es, "modified_time"@, 0, u32::MAX as int)
        &&& wf_strs(es, "tags"@)
    }
}

pub open spec fn org_setting_fields(v: JsonV, t: OrgSetting) -> bool {
    v matches JsonV::Obj(es) && {
        &&& fv_str(es, "id"@, t.id@)
        &&& fv_bool_or(es, "for_site"@, true, t.for_site)
        &&& fv_str(es, "site_id"@, t.site_id@)
        &&& fv_str(es, "org_id"@, t.org_id@)
        &&& fv_int(es, "created_time"@, t.created_time as int)
        &&& fv_int(es, "modified_time"@, t.modified_time as int)
        &&& fv_strs(es, "tags"@, t.tags.deep_view())
    }
}

impl OrgSetting {
    /// Decodes an org settings record; `for_site` falls back to its
    /// declared default when absent.
    pub fn from_json(j: &Json) -> (r: Option<OrgSetting>)
        ensures
            r is Some <==> org_setting_wf(j@),
            r matches Some(t) ==> org_setting_fields(j@, t),
    {
        let es = match j {
            Json::Obj(es) => es,
            _ => {
                return None;
            },
        };
        let id = match get_str(es, "id") {
            Some(s) => s,
            None => {
                return None;
            },
        };
        let for_site = match get_bool_or(es, "for_site", default_disabled()) {
            Some(b) => b,
            None => {
                return None;
            },
        };
        let site_id = match get_str(es, "site_id") {
            Some(s) => s,
            None => {
                return None;
            },
        };
        let org_id = match get_str(es, "org_id") {
            Some(s) => s,
            None => {
                return None;
            },
        };
        let created_time = match get_i64_in(es, "created_time", 0, 4294967295) {
            Some(n) => n as u32,
            None => {
                return None;
            },
        };
        let modified_time = match get_i64_in(es, "modified_time", 0, 4294967295) {
            Some(n) => n as u32,
            None => {
                return None;
            },
        };
        let tags = match get_strs(es, "tags") {
            Some(v) => v,
            None => {
                return None;
            },
        };
        Some(OrgSetting { id, for_site, site_id, org_id, created_time, modified_time, tags })
    }
}

/// A password policy, inside an org's settings parameters.
#[derive(Debug, PartialEq, Eq)]
pub struct PasswordPolicy {
    pub enabled: bool,
    pub freshness: u32,
    pub min_length: u32,
    pub requires_special_char: bool,
    pub requires_two_factor_auth: bool,
}

pub open spec fn password_policy_json(p: PasswordPolicy) -> JsonV {
    JsonV::Obj(
        no_entries().push(("enabled"@, JsonV::Bool(p.enabled))).push(
            ("freshness"@, JsonV::Int(p.freshness as int)),
        ).push(("min_length"@, JsonV::Int(p.min_length as int))).push(
            ("requires_special_char"@, JsonV::Bool(p.requires_special_char)),
        ).push(("requires_two_factor_auth"@, JsonV::Bool(p.requires_two_factor_auth))),
    )
}

impl PasswordPolicy {
    pub fn to_json(&self) -> (r: Json)
        ensures
            r@ == password_policy_json(*self),
    {
        let mut es: Vec<(String, Json)> = Vec::new();
        put_bool(&mut es, "enabled", self.enabled);
        put_int(&mut es, "freshness", self.freshness as i64);
        put_int(&mut es, "min_length", self.min_length as i64);
        put_bool(&mut es, "requires_special_char", self.requires_special_char);
        put_bool(&mut es, "requires_two_factor_auth", self.requires_two_factor_auth);
        Json::Obj(es)
    }
}

/// Management-tunnel settings, inside an org's settings parameters.
#[derive(Debug, PartialEq, Eq)]
pub struct Management {
    pub use_wxtunnel: bool,
    pub use_mxtunnel: bool,
    pub mxtunnel_ids: Vec<String>,
}

pub open spec fn management_json(m: Management) -> JsonV {
    JsonV::Obj(
        no_entries().push(("use_wxtunnel"@, JsonV::Bool(m.use_wxtunnel))).push(
            ("use_mxtunnel"@, JsonV::Bool(m.use_mxtunnel)),
        ).push(("mxtunnel_ids"@, JsonV::Arr(strs_to_jsons(m.mxtunnel_ids.deep_view())))),
    )
}

impl Management {
    pub fn to_json(&self) -> (r: Json)
        ensures
            r@ == management_json(*self),
    {
        let mut es: Vec<(String, Json)> = Vec::new();
        put_bool(&mut es, "use_wxtunnel", self.use_wxtunnel);
        put_bool(&mut es, "use_mxtunnel", self.use_mxtunnel);
        put_strs(&mut es, "mxtunnel_ids", &self.mxtunnel_ids);
        Json::Obj(es)
    }
}

/// Packet-capture settings, inside an org's settings parameters.
#[derive(Debug, PartialEq, Eq)]
pub struct Pcap {
    pub bucket: String,
    pub max_pkt_len: u16,
}

pub open spec fn pcap_json(p: Pcap) -> JsonV {
    JsonV::Obj(
        no_entries().push(("bucket"@, JsonV::Str(p.bucket@))).push(
            ("max_pkt_len"@, JsonV::Int(p.max_pkt_len as int)),
        ),
    )
}

impl Pcap {
    pub fn to_json(&self) -> (r: Json)
        ensures
            r@ == pcap_json(*self),
    {
        let mut es: Vec<(String, Json)> = Vec::new();
        put_str(&mut es, "bucket", self.bucket.as_str());
        put_int(&mut es, "max_pkt_len", self.max_pkt_len as i64);
        Json::Obj(es)
    }
}

/// Security settings, inside an org's settings parameters.
#[derive(Debug, PartialEq, Eq)]
pub struct Security {
    pub disable_local_ssh: bool,
    pub limit_ssh_access: bool,
    pub fips_zeroize_password: String,
}

pub open spec fn security_json(s: Security) -> JsonV {
    JsonV::Obj(
        no_entries().push(("disable_local_ssh"@, JsonV::Bool(s.disable_local_ssh))).push(
            ("limit_ssh_access"@, JsonV::Bool(s.limit_ssh_access)),
        ).push(("fips_zeroize_password"@, JsonV::Str(s.fips_zeroize_password@))),
    )
}

impl Security {
    pub fn to_json(&self) -> (r: Json)
        ensures
            r@ == security_json(*self),
    {
        let mut es: Vec<(String, Json)> = Vec::new();
        put_bool(&mut es, "disable_local_ssh", self.disable_local_ssh);
        put_bool(&mut es, "limit_ssh_access", self.limit_ssh_access);
        put_str(&mut es, "fips_zeroize_password", self.fips_zeroize_password.as_str());
        Json::Obj(es)
    }
}

/// Installer settings, inside an org's settings parameters.
#[derive(Debug, PartialEq, Eq)]
pub struct Installer {
    pub grace_period: u32,
    pub extra_site_ids: Vec<String>,
    pub allow_all_sites: bool,
}

pub open spec fn installer_json(i: Installer) -> JsonV {
    JsonV::Obj(
        no_entries().push(("grace_period"@, JsonV::Int(i.grace_period as int))).push(
            ("extra_site_ids"@, JsonV::Arr(strs_to_jsons(i.extra_site_ids.deep_view()))),
        ).push(("allow_all_sites"@, JsonV::Bool(i.allow_all_sites))),
    )
}

impl Installer {
    pub fn to_json(&self) -> (r: Json)
        ensures
            r@ == installer_json(*self),
    {
        let mut es: Vec<(String, Json)> = Vec::new();
        put_int(&mut es, "grace_period", self.grace_period as i64);
        put_strs(&mut es, "extra_site_ids", &self.extra_site_ids);
        put_bool(&mut es, "allow_all_sites", self.allow_all_sites);
        Json::Obj(es)
    }
}

/// One remote syslog server, inside an org's settings parameters.
#[derive(Debug, PartialEq, Eq)]
pub struct RemoteSyslogServer {
    pub host: String,
    pub port: u16,
    pub protocol: String,
    pub facility: String,
    pub severity: String,
    pub tag: String,
}

pub open spec fn syslog_server_json(s: RemoteSyslogServer) -> JsonV {
    JsonV::Obj(
        no_entries().push(("host"@, JsonV::Str(s.host@))).push(
            ("port"@, JsonV::Int(s.port as int)),
        ).push(("protocol"@, JsonV::Str(s.protocol@))).push(
            ("facility"@, JsonV::Str(s.facility@)),
        ).push(("severity"@, JsonV::Str(s.severity@))).push(("tag"@, JsonV::Str(s.tag@))),
    )
}

impl RemoteSyslogServer {
    pub fn to_json(&self) -> (r: Json)
        ensures
            r@ == syslog_server_json(*self),
    {
        let mut es: Vec<(String, Json)> = Vec::new();
        put_str(&mut es, "host", self.host.as_str());
        put_int(&mut es, "port", self.port as i64);
        put_str(&mut es, "protocol", self.protocol.as_str());
        put_str(&mut es, "facility", self.facility.as_str());
        put_str(&mut es, "severity", self.severity.as_str());
        put_str(&mut es, "tag", self.tag.as_str());
        Json::Obj(es)
    }
}

/// Remote syslog settings, inside an org's settings parameters.
#[derive(Debug, PartialEq, Eq)]
pub struct RemoteSyslog {
    pub enabled: bool,
    pub send_to_all_servers: bool,
    pub servers: Vec<RemoteSyslogServer>,
}

pub open spec fn syslog_servers_v(s: Seq<RemoteSyslogServer>) -> Seq<JsonV> {
    Seq::new(s.len(), |i: int| syslog_server_json(s[i]))
}

pub open spec fn remote_syslog_json(r: RemoteSyslog) -> JsonV {
    JsonV::Obj(
        no_entries().push(("enabled"@, JsonV::Bool(r.enabled))).push(
            ("send_to_all_servers"@, JsonV::Bool(r.send_to_all_servers)),
        ).push(("servers"@, JsonV::Arr(syslog_servers_v(r.servers@)))),
    )
}

impl RemoteSyslog {
    #[verifier::loop_isolation(false)]
    pub fn to_json(&self) -> (r: Json)
        ensures
            r@ == remote_syslog_json(*self),
    {
        broadcast use lemma_arr_v_props;

        let mut arr: Vec<Json> = Vec::new();
        let n = self.servers.len();
        let mut i: usize = 0;
        while i < n
            invariant
                n == self.servers.len(),
                i <= n,
                arr@.len() == i,
                forall|k: int| 0 <= k < i ==> arr@[k].v() == syslog_server_json(self.servers@[k]),
            decreases n - i,
        {
            arr.push(self.servers[i].to_json());
            i = i + 1;
        }
        proof {
            assert(arr_v(arr@) =~= syslog_servers_v(self.servers@));
        }
        let mut es: Vec<(String, Json)> = Vec::new();
        put_bool(&mut es, "enabled", self.enabled);
        put_bool(&mut es, "send_to_all_servers", self.send_to_all_servers);
        put_json(&mut es, "servers", Json::Arr(arr));
        Json::Obj(es)
    }
}

/// One matching rule of an automatic assignment or naming setting: its
/// members, each a string.
pub open spec fn rule_entries(s: Seq<(String, String)>) -> Seq<(Seq<char>, JsonV)> {
    Seq::new(s.len(), |i: int| (s[i].0@, JsonV::Str(s[i].1@)))
}

pub open spec fn rules_v(rs: Seq<Vec<(String, String)>>) -> Seq<JsonV> {
    Seq::new(rs.len(), |i: int| JsonV::Obj(rule_entries(rs[i]@)))
}

/// Encodes a list of string-valued rules.
#[verifier::loop_isolation(false)]
fn rules_to_json(rules: &Vec<Vec<(String, String)>>) -> (r: Json)
    ensures
        r@ == JsonV::Arr(rules_v(rules@)),
{
    broadcast use lemma_arr_v_props;
    broadcast use lemma_kvs_v_props;

    let mut arr: Vec<Json> = Vec::new();
    let n = rules.len();
    let mut i: usize = 0;
    while i < n
        invariant
            n == rules.len(),
            i <= n,
            arr@.len() == i,
            forall|k: int| 0 <= k < i ==> arr@[k].v() == JsonV::Obj(rule_entries(rules@[k]@)),
        decreases n - i,
    {
        let rule = &rules[i];
        let mut es: Vec<(String, Json)> = Vec::new();
        let m = rule.len();
        let mut k: usize = 0;
        while k < m
            invariant
                m == rule.len(),
                k <= m,
                es@.len() == k,
                forall|t: int| 0 <= t < k ==> kvs_v(es@)[t] == rule_entries(rule@)[t],
            decreases m - k,
        {
            es.push((rule[k].0.clone(), Json::Str(rule[k].1.clone())));
            k = k + 1;
        }
        proof {
            assert(kvs_v(es@) =~= rule_entries(rule@));
        }
        arr.push(Json::Obj(es));
        i = i + 1;
    }
    proof {
        assert(arr_v(arr@) =~= rules_v(rules@));
    }
    Json::Arr(arr)
}

/// Automatic site assignment, inside an org's settings parameters.
#[derive(Debug, PartialEq, Eq)]
pub struct AutoSiteAssignment {
    pub enable: bool,
    pub rules: Vec<Vec<(String, String)>>,
}

pub open spec fn auto_site_assignment_json(a: AutoSiteAssignment) -> JsonV {
    JsonV::Obj(
        no_entries().push(("enable"@, JsonV::Bool(a.enable))).push(
            ("rules"@, JsonV::Arr(rules_v(a.rules@))),
        ),
    )
}

impl AutoSiteAssignment {
    pub fn to_json(&self) -> (r: Json)
        ensures
            r@ == auto_site_assignment_json(*self),
    {
        let mut es: Vec<(String, Json)> = Vec::new();
        put_bool(&mut es, "enable", self.enable);
        put_json(&mut es, "rules", rules_to_json(&self.rules));
        Json::Obj(es)
    }
}

/// Automatic device naming, inside an org's settings parameters.
#[derive(Debug, PartialEq, Eq)]
pub struct AutoDeviceNaming {
    pub enable: bool,
    pub rules: Vec<Vec<(String, String)>>,
}

pub open spec fn auto_device_naming_json(a: AutoDeviceNaming) -> JsonV {
    JsonV::Obj(
        no_entries().push(("enable"@, JsonV::Bool(a.enable))).push(
            ("rules"@, JsonV::Arr(rules_v(a.rules@))),
        ),
    )
}

impl AutoDeviceNaming {
    pub fn to_json(&self) -> (r: Json)
        ensures
            r@ == auto_device_naming_json(*self),
    {
        let mut es: Vec<(String, Json)> = Vec::new();
        put_bool(&mut es, "enable", self.enable);
        put_json(&mut es, "rules", rules_to_json(&self.rules));
        Json::Obj(es)
    }
}

/// Automatic device-profile assignment, inside an org's settings
/// parameters.
#[derive(Debug, PartialEq, Eq)]
pub struct AutoDeviceProfile {
    pub enable: bool,
    pub rules: Vec<Vec<(String, String)>>,
}

pub open spec fn auto_device_profile_json(a: AutoDeviceProfile) -> JsonV {
    JsonV::Obj(
        no_entries().push(("enable"@, JsonV::Bool(a.enable))).push(
            ("rules"@, JsonV::Arr(rules_v(a.rules@))),
        ),
    )
}

impl AutoDeviceProfile {
    pub fn to_json(&self) -> (r: Json)
        ensures
            r@ == auto_device_profile_json(*self),
    {
        let mut es: Vec<(String, Json)> = Vec::new();
        put_bool(&mut es, "enable", self.enable);
        put_json(&mut es, "rules", rules_to_json(&self.rules));
        Json::Obj(es)
    }
}

/// Packet-capture sharing settings, inside an org's settings parameters.
#[derive(Debug, PartialEq, Eq)]
pub struct CloudShark {
    pub apitoken: String,
    pub url: Option<String>,
}

pub open spec fn cloudshark_json(c: CloudShark) -> JsonV {
    let es = no_entries().push(("apitoken"@, JsonV::Str(c.apitoken@)));
    JsonV::Obj(
        match c.url {
            Some(u) => es.push(("url"@, JsonV::Str(u@))),
            None => es,
        },
    )
}

impl CloudShark {
    pub fn to_json(&self) -> (r: Json)
        ensures
            r@ == cloudshark_json(*self),
    {
        let mut es: Vec<(String, Json)> = Vec::new();
        put_str(&mut es, "apitoken", self.apitoken.as_str());
        put_opt_str(&mut es, "url", &self.url);
        Json::Obj(es)
    }
}

/// A bundle of trusted certificates, inside an org's settings parameters.
#[derive(Debug, PartialEq, Eq)]
pub struct Cacerts(pub Vec<String>);

impl Cacerts {
    pub fn to_json(&self) -> (r: Json)
        ensures
            r@ == JsonV::Arr(strs_to_jsons(self.0.deep_view())),
    {
        crate::json::strs_to_arr(&self.0)
    }
}

/// A device certificate, inside an org's settings parameters.
#[derive(Debug, PartialEq, Eq)]
pub struct DeviceCert {
    pub cert: String,
    pub key: String,
}

pub open spec fn device_cert_json(d: DeviceCert) -> JsonV {
    JsonV::Obj(
        no_entries().push(("cert"@, JsonV::Str(d.cert@))).push(("key"@, JsonV::Str(d.key@))),
    )
}

impl DeviceCert {
    pub fn to_json(&self) -> (r: Json)
        ensures
            r@ == device_cert_json(*self),
    {
        let mut es: Vec<(String, Json)> = Vec::new();
        put_str(&mut es, "cert", self.cert.as_str());
        put_str(&mut es, "key", self.key.as_str());
        Json::Obj(es)
    }
}

/// The settings an update call sends: a name and many optional sections,
/// each written only when it is populated.
#[derive(Debug, PartialEq, Eq)]
pub struct OrgSettingParams {
    pub name: String,
    pub password_policy: Option<PasswordPolicy>,
    pub ui_idle_timeout: Option<u16>,
    pub mgmt: Option<Management>,
    pub disable_pcap: Option<bool>,
    pub pcap: Option<Pcap>,
    pub pcap_bucket_verified: Option<bool>,
    pub security: Option<Security>,
    pub installer: Option<Installer>,
    pub remote_syslog: Option<RemoteSyslog>,
    pub auto_site_assignment: Option<AutoSiteAssignment>,
    pub auto_device_naming: Option<AutoDeviceNaming>,
    pub cloudshark: Option<CloudShark>,
    pub auto_deviceprofile_assignment: Option<AutoDeviceProfile>,
    pub cacerts: Option<Vec<String>>,
    pub device_cert: Option<DeviceCert>,
    pub tags: Option<Vec<String>>,
}

pub open spec fn org_setting_params_entries(p: OrgSettingParams) -> Seq<(Seq<char>, JsonV)> {
    let es = no_entries().push(("name"@, JsonV::Str(p.name@)));
    let es = match p.password_policy {
        Some(x) => es.push(("password_policy"@, password_policy_json(x))),
        None => es,
    };
    let es = match p.ui_idle_timeout {
        Some(n) => es.push(("ui_idle_timeout"@, JsonV::Int(n as int))),
        None => es,
    };
    let es = match p.mgmt {
        Some(x) => es.push(("mgmt"@, management_json(x))),
        None => es,
    };
    let es = match p.disable_pcap {
        Some(b) => es.push(("disable_pcap"@, JsonV::Bool(b))),
        None => es,
    };
    let es = match p.pcap {
        Some(x) => es.push(("pcap"@, pcap_json(x))),
        None => es,
    };
    let es = match p.pcap_bucket_verified {
        Some(b) => es.push(("pcap_bucket_verified"@, JsonV::Bool(b))),
        None => es,
    };
    let es = match p.security {
        Some(x) => es.push(("security"@, security_json(x))),
        None => es,
    };
    let es = match p.installer {
        Some(x) => es.push(("installer"@, installer_json(x))),
        None => es,
    };
    let es = match p.remote_syslog {
        Some(x) => es.push(("remote_syslog"@, remote_syslog_json(x))),
        None => es,
    };
    let es = match p.auto_site_assignment {
        Some(x) => es.push(("auto_site_assignment"@, auto_site_assignment_json(x))),
        None => es,
    };
    let es = match p.auto_device_naming {
        Some(x) => es.push(("auto_device_naming"@, auto_device_naming_json(x))),
        None => es,
    };
    let es = match p.cloudshark {
        Some(x) => es.push(("cloudshark"@, cloudshark_json(x))),
        None => es,
    };
    let es = match p.auto_deviceprofile_assignment {
        Some(x) => es.push(("auto_deviceprofile_assignment"@, auto_device_profile_json(x))),
        None => es,
    };
    let es = match p.cacerts {
        Some(v) => es.push(("cacerts"@, JsonV::Arr(strs_to_jsons(v.deep_view())))),
        None => es,
    };
    let es = match p.device_cert {
        Some(x) => es.push(("device_cert"@, device_cert_json(x))),
        None => es,
    };
    match p.tags {
        Some(v) => es.push(("tags"@, JsonV::Arr(strs_to_jsons(v.deep_view())))),
        None => es,
    }
}

pub open spec fn org_setting_params_json(p: OrgSettingParams) -> JsonV {
    JsonV::Obj(org_setting_params_entries(p))
}

impl OrgSettingParams {
    /// Encodes the settings payload, writing each optional section only
    /// when it is populated.
    #[verifier::rlimit(100)]
    pub fn to_json(&self) -> (r: Json)
        ensures
            r@ == org_setting_params_json(*self),
    {
        let mut es: Vec<(String, Json)> = Vec::new();
        put_str(&mut es, "name", self.name.as_str());
        match &self.password_policy {
            Some(x) => put_json(&mut es, "password_policy", x.to_json()),
            None => (),
        }
        match self.ui_idle_timeout {
            Some(n) => put_int(&mut es, "ui_idle_timeout", n as i64),
            None => (),
        }
        match &self.mgmt {
            Some(x) => put_json(&mut es, "mgmt", x.to_json()),
            None => (),
        }
        put_opt_bool(&mut es, "disable_pcap", &self.disable_pcap);
        match &self.pcap {
            Some(x) => put_json(&mut es, "pcap", x.to_json()),
            None => (),
        }
        put_opt_bool(&mut es, "pcap_bucket_verified", &self.pcap_bucket_verified);
        match &self.security {
            Some(x) => put_json(&mut es, "security", x.to_json()),
            None => (),
        }
        match &self.installer {
            Some(x) => put_json(&mut es, "installer", x.to_json()),
            None => (),
        }
        match &self.remote_syslog {
            Some(x) => put_json(&mut es, "remote_syslog", x.to_json()),
            None => (),
        }
        match &self.auto_site_assignment {
            Some(x) => put_json(&mut es, "auto_site_assignment", x.to_json()),
            None => (),
        }
        match &self.auto_device_naming {
            Some(x) => put_json(&mut es, "auto_device_naming", x.to_json()),
            None => (),
        }
        match &self.cloudshark {
            Some(x) => put_json(&mut es, "cloudshark", x.to_json()),
            None => (),
        }
        match &self.auto_deviceprofile_assignment {
            Some(x) => put_json(&mut es, "auto_deviceprofile_assignment", x.to_json()),
            None => (),
        }
        put_opt_strs(&mut es, "cacerts", &self.cacerts);
        match &self.device_cert {
            Some(x) => put_json(&mut es, "device_cert", x.to_json()),
            None => (),
        }
        put_opt_strs(&mut es, "tags", &self.tags);
        Json::Obj(es)
    }
}

pub open spec fn orgs_path_spec() -> Seq<char> {
    api_base() + "/orgs"@
}

pub open spec fn org_path_spec(org: Seq<char>) -> Seq<char> {
    api_base() + "/orgs/"@ + org
}

pub open spec fn org_stats_path_spec(org: Seq<char>) -> Seq<char> {
    api_base() + "/orgs/"@ + org + "/stats"@
}

pub open spec fn org_setting_path_spec(org: Seq<char>) -> Seq<char> {
    api_base() + "/orgs/"@ + org + "/setting"@
}

/// URL of the org collection.
pub fn orgs_path() -> (r: String)
    ensures
        r@ == orgs_path_spec(),
{
    let mut s = crate::consts::api_base_owned();
    s.append("/orgs");
    s
}

/// URL of one org.
pub fn org_path(org_id: &str) -> (r: String)
    ensures
        r@ == org_path_spec(org_id@),
{
    let mut s = crate::consts::api_base_owned();
    s.append("/orgs/");
    s.append(org_id);
    s
}

/// URL of an org's statistics.
pub fn org_stats_path(org_id: &str) -> (r: String)
    ensures
        r@ == org_stats_path_spec(org_id@),
{
    let mut s = crate::consts::api_base_owned();
    s.append("/orgs/");
    s.append(org_id);
    s.append("/stats");
    s
}

/// URL of an org's settings.
pub fn org_setting_path(org_id: &str) -> (r: String)
    ensures
        r@ == org_setting_path_spec(org_id@),
{
    let mut s = crate::consts::api_base_owned();
    s.append("/orgs/");
    s.append(org_id);
    s.append("/setting");
    s
}

/// Builds the settings read.
pub fn get_setting_request(org_id: &str) -> (r: Request)
    ensures
        r.verb == Verb::Get,
        r.url@ == org_setting_path_spec(org_id@),
        r.body@ == JsonV::Null,
{
    Request { verb: Verb::Get, url: org_setting_path(org_id), body: Json::Null }
}

/// Decides a settings-read reply.
pub fn get_setting_result(resp: &Option<Json>) -> (r: Result<OrgSetting, ()>)
    ensures
        match r {
            Ok(t) => resp matches Some(j) && org_setting_wf(j@) && org_setting_fields(j@, t),
            Err(_) => !(resp matches Some(j) && org_setting_wf(j@)),
        },
{
    match resp {
        Some(j) => match OrgSetting::from_json(j) {
            Some(t) => Ok(t),
            None => Err(()),
        },
        None => Err(()),
    }
}

/// Builds the settings update: the parameters, put to the org's settings
/// URL.
pub fn update_setting_request(org_id: &str, params: &OrgSettingParams) -> (r: Request)
    ensures
        r.verb == Verb::Put,
        r.url@ == org_setting_path_spec(org_id@),
        r.body@ == org_setting_params_json(*params),
{
    Request { verb: Verb::Put, url: org_setting_path(org_id), body: params.to_json() }
}

/// Decides a settings-update reply.
pub fn update_setting_result(resp: &Option<Json>) -> (r: Result<OrgSetting, ()>)
    ensures
        match r {
            Ok(t) => resp matches Some(j) && org_setting_wf(j@) && org_setting_fields(j@, t),
            Err(_) => !(resp matches Some(j) && org_setting_wf(j@)),
        },
{
    match resp {
        Some(j) => match OrgSetting::from_json(j) {
            Some(t) => Ok(t),
            None => Err(()),
        },
        None => Err(()),
    }
}

/// Builds the org-stats call.
pub fn get_stats_request(org_id: &str) -> (r: Request)
    ensures
        r.verb == Verb::Get,
        r.url@ == org_stats_path_spec(org_id@),
        r.body@ == JsonV::Null,
{
    Request { verb: Verb::Get, url: org_stats_path(org_id), body: Json::Null }
}

/// Decides an org-stats reply.
pub fn get_stats_result(resp: &Option<Json>) -> (r: Result<OrgStats, ()>)
    ensures
        match r {
            Ok(t) => resp matches Some(j) && org_stats_wf(j@) && org_stats_fields(j@, t),
            Err(_) => !(resp matches Some(j) && org_stats_wf(j@)),
        },
{
    match resp {
        Some(j) => match OrgStats::from_json(j) {
            Some(t) => Ok(t),
            None => Err(()),
        },
        None => Err(()),
    }
}

/// Builds the org-creation call.
pub fn create_request(org: &Org) -> (r: Request)
    ensures
        r.verb == Verb::Post,
        r.url@ == orgs_path_spec(),
        r.body@ == org_json(*org),
{
    Request { verb: Verb::Post, url: orgs_path(), body: org.to_json() }
}

/// Decides an org-creation reply.
pub fn create_result(resp: &Option<Json>) -> (r: Result<Org, ()>)
    ensures
        match r {
            Ok(o) => resp matches Some(j) && org_wf(j@) && org_fields(j@, o),
            Err(_) => !(resp matches Some(j) && org_wf(j@)),
        },
{
    match resp {
        Some(j) => match Org::from_json(j) {
            Some(o) => Ok(o),
            None => Err(()),
        },
        None => Err(()),
    }
}

/// Builds the org-update call.
pub fn update_request(org_id: &str, org: &Org) -> (r: Request)
    ensures
        r.verb == Verb::Put,
        r.url@ == org_path_spec(org_id@),
        r.body@ == org_json(*org),
{
    Request { verb: Verb::Put, url: org_path(org_id), body: org.to_json() }
}

/// Decides an org-update reply.
pub fn update_result(resp: &Option<Json>) -> (r: Result<Org, ()>)
    ensures
        match r {
            Ok(o) => resp matches Some(j) && org_wf(j@) && org_fields(j@, o),
            Err(_) => !(resp matches Some(j) && org_wf(j@)),
        },
{
    match resp {
        Some(j) => match Org::from_json(j) {
            Some(o) => Ok(o),
            None => Err(()),
        },
        None => Err(()),
    }
}

/// The body of a clone call: only the new name.
pub open spec fn clone_body(name: Seq<char>) -> JsonV {
    JsonV::Obj(no_entries().push(("name"@, JsonV::Str(name))))
}

/// Builds the clone call: the new name, put to the org's URL.
pub fn clone_request(org_id: &str, name: &str) -> (r: Request)
    ensures
        r.verb == Verb::Put,
        r.url@ == org_path_spec(org_id@),
        r.body@ == clone_body(name@),
{
    let mut es: Vec<(String, Json)> = Vec::new();
    put_str(&mut es, "name", name);
    Request { verb: Verb::Put, url: org_path(org_id), body: Json::Obj(es) }
}

/// Decides a clone reply.
pub fn clone_result(resp: &Option<Json>) -> (r: Result<Org, ()>)
    ensures
        match r {
            Ok(o) => resp matches Some(j) && org_wf(j@) && org_fields(j@, o),
            Err(_) => !(resp matches Some(j) && org_wf(j@)),
        },
{
    match resp {
        Some(j) => match Org::from_json(j) {
            Some(o) => Ok(o),
            None => Err(()),
        },
        None => Err(()),
    }
}

} // verus!
