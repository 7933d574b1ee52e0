//! Inventory: the device records, the bulk-operation payloads with their
//! `op` discriminators, and one request/decide pair per remote operation.

use vstd::prelude::*;
use vstd::string::StringExecFns;

use crate::consts::api_base;
use crate::http::Request;
use crate::http::Verb;
use crate::json::arr_v;
use crate::json::fv_int;
use crate::json::fv_opt_bool;
use crate::json::fv_opt_str;
use crate::json::fv_str;
use crate::json::fv_strs;
use crate::json::fv_strs_or_empty;
use crate::json::get_i64_in;
use crate::json::get_opt_bool;
use crate::json::get_opt_str;
use crate::json::get_str;
use crate::json::get_strs;
use crate::json::get_strs_or_empty;
use crate::json::kvs_v;
use crate::json::lemma_arr_v_props;
use crate::json::lemma_lookup_push;
use crate::json::lookup;
use crate::json::no_entries;
use crate::json::obj_get;
use crate::json::opt_v;
use crate::json::put_int;
use crate::json::put_opt_bool;
use crate::json::put_str;
use crate::json::put_strs;
use crate::json::strs_to_jsons;
use crate::json::wf_int_in;
use crate::json::wf_opt_bool;
use crate::json::wf_opt_str;
use crate::json::wf_str;
use crate::json::wf_strs;
use crate::json::wf_strs_or_empty;
use crate::json::Json;
use crate::json::JsonV;

verus! {

/// One managed device in an org's inventory.
#[derive(Debug, PartialEq, Eq)]
pub struct Inventory {
    pub serial: String,
    pub id: String,
    pub model: String,
    pub ty: String,
    pub mac: String,
    pub name: Option<String>,
    pub site_id: Option<String>,
    pub deviceprofile_id: Option<String>,
    pub sku: Option<String>,
    pub hw_rev: Option<String>,
    pub magic: Option<String>,
    pub connected: Option<bool>,
    pub modified_time: u32,
    pub created_time: u32,
}

pub open spec fn inventory_entries(v: Inventory) -> Seq<(Seq<char>, JsonV)> {
    let es = no_entries().push(("serial"@, JsonV::Str(v.serial@))).push(
        ("id"@, JsonV::Str(v.id@)),
    ).push(("model"@, JsonV::Str(v.model@))).push(("type"@, JsonV::Str(v.ty@))).push(
        ("mac"@, JsonV::Str(v.mac@)),
    );
    let es = match v.name {
        Some(x) => es.push(("name"@, JsonV::Str(x@))),
        None => es,
    };
    let es = match v.site_id {
        Some(x) => es.push(("site_id"@, JsonV::Str(x@))),
        None => es,
    };
    let es = match v.deviceprofile_id {
        Some(x) => es.push(("deviceprofile_id"@, JsonV::Str(x@))),
        None => es,
    };
    let es = match v.sku {
        Some(x) => es.push(("sku"@, JsonV::Str(x@))),
        None => es,
    };
    let es = match v.hw_rev {
        Some(x) => es.push(("hw_rev"@, JsonV::Str(x@))),
        None => es,
    };
    let es = match v.magic {
        Some(x) => es.push(("magic"@, JsonV::Str(x@))),
        None => es,
    };
    let es = match v.connected {
        Some(b) => es.push(("connected"@, JsonV::Bool(b))),
        None => es,
    };
    es.push(("modified_time"@, JsonV::Int(v.modified_time as int))).push(
        ("created_time"@, JsonV::Int(v.created_time as int)),
    )
}

pub open spec fn inventory_json(v: Inventory) -> JsonV {
    JsonV::Obj(inventory_entries(v))
}

pub open spec fn inventory_wf(v: JsonV) -> bool {
    v matches JsonV::Obj(es) && {
        &&& wf_str(es, "serial"@)
        &&& wf_str(es, "id"@)
        &&& wf_str(es, "model"@)
        &&& wf_str(es, "type"@)
        &&& wf_str(es, "mac"@)
        &&& wf_opt_str(es, "name"@)
        &&& wf_opt_str(es, "site_id"@)
        &&& wf_opt_str(es, "deviceprofile_id"@)
        &&& wf_opt_str(es, "sku"@)
        &&& wf_opt_str(es, "hw_rev"@)
        &&& wf_opt_str(es, "magic"@)
        &&& wf_opt_bool(es, "connected"@)
        &&& wf_int_in(es, "modified_time"@, 0, u32::MAX as int)
        &&& wf_int_in(es, "created_time"@, 0, u32::MAX as int)
    }
}

pub open spec fn inventory_fields(v: JsonV, r: Inventory) -> bool {
    v matches JsonV::Obj(es) && {
        &&& fv_str(es, "serial"@, r.serial@)
        &&& fv_str(es, "id"@, r.id@)
        &&& fv_str(es, "model"@, r.model@)
        &&& fv_str(es, "type"@, r.ty@)
        &&& fv_str(es, "mac"@, r.mac@)
        &&& fv_opt_str(es, "name"@, opt_v(r.name))
        &&& fv_opt_str(es, "site_id"@, opt_v(r.site_id))
        &&& fv_opt_str(es, "deviceprofile_id"@, opt_v(r.deviceprofile_id))
        &&& fv_opt_str(es, "sku"@, opt_v(r.sku))
        &&& fv_opt_str(es, "hw_rev"@, opt_v(r.hw_rev))
        &&& fv_opt_str(es, "magic"@, opt_v(r.magic))
        &&& fv_opt_bool(es, "connected"@, r.connected)
        &&& fv_int(es, "modified_time"@, r.modified_time as int)
        &&& fv_int(es, "created_time"@, r.created_time as int)
    }
}

/// Two inventory records that mean the same document.
pub open spec fn inventory_same(a: Inventory, b: Inventory) -> bool {
    &&& a.serial@ == b.serial@
    &&& a.id@ == b.id@
    &&& a.model@ == b.model@
    &&& a.ty@ == b.ty@
    &&& a.mac@ == b.mac@
    &&& opt_v(a.name) == opt_v(b.name)
    &&& opt_v(a.site_id) == opt_v(b.site_id)
    &&& opt_v(a.deviceprofile_id) == opt_v(b.deviceprofile_id)
    &&& opt_v(a.sku) == opt_v(b.sku)
    &&& opt_v(a.hw_rev) == opt_v(b.hw_rev)
    &&& opt_v(a.magic) == opt_v(b.magic)
    &&& a.connected == b.connected
    &&& a.modified_time == b.modified_time
    &&& a.created_time == b.created_time
}

impl Inventory {
    /// Encodes this record; the device type is written under its wire name
    /// `type`, and every optional member only when it is populated.
    pub fn to_json(&self) -> (r: Json)
        ensures
            r@ == inventory_json(*self),
    {
        let mut es: Vec<(String, Json)> = Vec::new();
        put_str(&mut es, "serial", self.serial.as_str());
        put_str(&mut es, "id", self.id.as_str());
        put_str(&mut es, "model", self.model.as_str());
        put_str(&mut es, "type", self.ty.as_str());
        put_str(&mut es, "mac", self.mac.as_str());
        crate::json::put_opt_str(&mut es, "name", &self.name);
        crate::json::put_opt_str(&mut es, "site_id", &self.site_id);
        crate::json::put_opt_str(&mut es, "deviceprofile_id", &self.deviceprofile_id);
        crate::json::put_opt_str(&mut es, "sku", &self.sku);
        crate::json::put_opt_str(&mut es, "hw_rev", &self.hw_rev);
        crate::json::put_opt_str(&mut es, "magic", &self.magic);
        put_opt_bool(&mut es, "connected", &self.connected);
        put_int(&mut es, "modified_time", self.modified_time as i64);
        put_int(&mut es, "created_time", self.created_time as i64);
        Json::Obj(es)
    }

    /// Decodes a device record.
    pub fn from_json(j: &Json) -> (r: Option<Inventory>)
        ensures
            r is Some <==> inventory_wf(j@),
            r matches Some(v) ==> inventory_fields(j@, v),
    {
        let es = match j {
            Json::Obj(es) => es,
            _ => {
                return None;
            },
        };
        let serial = match get_str(es, "serial") {
            Some(s) => s,
            None => {
                return None;
            },
        };
        let id = match get_str(es, "id") {
            Some(s) => s,
            None => {
                return None;
            },
        };
        let model = match get_str(es, "model") {
            Some(s) => s,
            None => {
                return None;
            },
        };
        let ty = match get_str(es, "type") {
            Some(s) => s,
            None => {
                return None;
            },
        };
        let mac = match get_str(es, "mac") {
            Some(s) => s,
            None => {
                return None;
            },
        };
        let name = match get_opt_str(es, "name") {
            Some(v) => v,
            None => {
                return None;
            },
        };
        let site_id = match get_opt_str(es, "site_id") {
            Some(v) => v,
            None => {
                return None;
            },
        };
        let deviceprofile_id = match get_opt_str(es, "deviceprofile_id") {
            Some(v) => v,
            None => {
                return None;
            },
        };
        let sku = match get_opt_str(es, "sku") {
            Some(v) => v,
            None => {
                return None;
            },
        };
        let hw_rev = match get_opt_str(es, "hw_rev") {
            Some(v) => v,
            None => {
                return None;
            },
        };
        let magic = match get_opt_str(es, "magic") {
            Some(v) => v,
            None => {
                return None;
            },
        };
        let connected = match get_opt_bool(es, "connected") {
            Some(v) => v,
            None => {
                return None;
            },
        };
        let modified_time = match get_i64_in(es, "modified_time", 0, 4294967295) {
            Some(n) => n as u32,
            None => {
                return None;
            },
        };
        let created_time = match get_i64_in(es, "created_time", 0, 4294967295) {
            Some(n) => n as u32,
            None => {
                return None;
            },
        };
        Some(
            Inventory {
                serial,
                id,
                model,
                ty,
                mac,
                name,
                site_id,
                deviceprofile_id,
                sku,
                hw_rev,
                magic,
                connected,
                modified_time,
                created_time,
            },
        )
    }
}

/// Encoding a device record and decoding the result loses nothing.
#[verifier::rlimit(100)]
pub proof fn lemma_inventory_round_trip(v: Inventory)
    ensures
        inventory_wf(inventory_json(v)),
        forall|b: Inventory| inventory_fields(inventory_json(v), b) ==> inventory_same(v, b),
{
    broadcast use lemma_lookup_push;
    broadcast use vstd::string::group_string_axioms;

    reveal_strlit("serial");
    reveal_strlit("id");
    reveal_strlit("model");
    reveal_strlit("type");
    reveal_strlit("mac");
    reveal_strlit("name");
    reveal_strlit("site_id");
    reveal_strlit("deviceprofile_id");
    reveal_strlit("sku");
    reveal_strlit("hw_rev");
    reveal_strlit("magic");
    reveal_strlit("connected");
    reveal_strlit("modified_time");
    reveal_strlit("created_time");
    assert("serial"@.len() == 6);
    assert("id"@.len() == 2);
    assert("model"@.len() == 5);
    assert("type"@.len() == 4);
    assert("mac"@.len() == 3);
    assert("name"@.len() == 4);
    assert("site_id"@.len() == 7);
    assert("deviceprofile_id"@.len() == 16);
    assert("sku"@.len() == 3);
    assert("hw_rev"@.len() == 6);
    assert("magic"@.len() == 5);
    assert("connected"@.len() == 9);
    assert("modified_time"@.len() == 13);
    assert("created_time"@.len() == 12);
    assert("serial"@[0] == 's');
    assert("hw_rev"@[0] == 'h');
    assert("type"@[0] == 't');
    assert("name"@[0] == 'n');
    assert("mac"@[0] == 'm');
    assert("sku"@[0] == 's');
    assert("model"@[1] == 'o');
    assert("magic"@[1] == 'a');
}

/// A list of device records.
#[derive(Debug, PartialEq, Eq)]
pub struct Inventories(pub Vec<Inventory>);

impl Default for Inventories {
    /// The empty inventory list, which a reply that omits the member
    /// falls back to.
    fn default() -> (r: Self)
        ensures
            r.0@.len() == 0,
    {
        Inventories(Vec::new())
    }
}

pub open spec fn invs_wf(a: Seq<JsonV>) -> bool {
    forall|i: int| 0 <= i < a.len() ==> inventory_wf(#[trigger] a[i])
}

pub open spec fn invs_fields(a: Seq<JsonV>, s: Seq<Inventory>) -> bool {
    s.len() == a.len() && forall|i: int| 0 <= i < a.len() ==> inventory_fields(
        #[trigger] a[i],
        s[i],
    )
}

pub open spec fn inventories_wf(v: JsonV) -> bool {
    v matches JsonV::Arr(a) && invs_wf(a)
}

pub open spec fn inventories_fields(v: JsonV, s: Inventories) -> bool {
    v matches JsonV::Arr(a) && invs_fields(a, s.0@)
}

/// Decodes an array of device records.
#[verifier::loop_isolation(false)]
fn inventory_vec_from_arr(arr: &Vec<Json>) -> (r: Option<Vec<Inventory>>)
    ensures
        r is Some <==> invs_wf(arr_v(arr@)),
        r matches Some(out) ==> invs_fields(arr_v(arr@), out@),
{
    broadcast use lemma_arr_v_props;

    let mut out: Vec<Inventory> = Vec::new();
    let n = arr.len();
    let mut i: usize = 0;
    while i < n
        invariant
            n == arr.len(),
            i <= n,
            out@.len() == i,
            forall|k: int| 0 <= k < i ==> inventory_wf(#[trigger] arr_v(arr@)[k]),
            forall|k: int| 0 <= k < i ==> inventory_fields(#[trigger] arr_v(arr@)[k], out@[k]),
        decreases n - i,
    {
        match Inventory::from_json(&arr[i]) {
            Some(v) => {
                out.push(v);
            },
            None => {
                proof {
                    assert(arr_v(arr@)[i as int] == arr@[i as int].v());
                }
                return None;
            },
        }
        i = i + 1;
    }
    Some(out)
}

impl Inventories {
    /// Decodes a list of device records.
    pub fn from_json(j: &Json) -> (r: Option<Inventories>)
        ensures
            r is Some <==> inventories_wf(j@),
            r matches Some(s) ==> inventories_fields(j@, s),
    {
        let arr = match j {
            Json::Arr(a) => a,
            _ => {
                return None;
            },
        };
        match inventory_vec_from_arr(arr) {
            Some(out) => Some(Inventories(out)),
            None => None,
        }
    }
}

/// The reply to a claim call: claim codes sorted into added, duplicated
/// and failed, with the matching device records.
#[derive(Debug, PartialEq, Eq)]
pub struct ClaimDeviceReply {
    pub added: Vec<String>,
    pub duplicated: Vec<String>,
    pub error: Vec<String>,
    pub inventory_added: Inventories,
    pub inventory_duplicated: Inventories,
}

pub open spec fn wf_invs_or_empty(es: Seq<(Seq<char>, JsonV)>, k: Seq<char>) -> bool {
    match lookup(es, k) {
        None => true,
        Some(JsonV::Arr(a)) => invs_wf(a),
        _ => false,
    }
}

pub open spec fn fv_invs_or_empty(
    es: Seq<(Seq<char>, JsonV)>,
    k: Seq<char>,
    s: Inventories,
) -> bool {
    match lookup(es, k) {
        None => s.0@.len() == 0,
        Some(JsonV::Arr(a)) => invs_fields(a, s.0@),
        _ => false,
    }
}

pub open spec fn claim_reply_wf(v: JsonV) -> bool {
    v matches JsonV::Obj(es) && {
        &&& wf_strs_or_empty(es, "added"@)
        &&& wf_strs_or_empty(es, "duplicated"@)
        &&& wf_strs_or_empty(es, "error"@)
        &&& wf_invs_or_empty(es, "inventory_added"@)
        &&& wf_invs_or_empty(es, "inventory_duplicated"@)
    }
}

pub open spec fn claim_reply_fields(v: JsonV, r: ClaimDeviceReply) -> bool {
    v matches JsonV::Obj(es) && {
        &&& fv_strs_or_empty(es, "added"@, r.added.deep_view())
        &&& fv_strs_or_empty(es, "duplicated"@, r.duplicated.deep_view())
        &&& fv_strs_or_empty(es, "error"@, r.error.deep_view())
        &&& fv_invs_or_empty(es, "inventory_added"@, r.inventory_added)
        &&& fv_invs_or_empty(es, "inventory_duplicated"@, r.inventory_duplicated)
    }
}

fn invs_or_empty_from(es: &Vec<(String, Json)>, key: &str) -> (r: Option<Inventories>)
    ensures
        r is Some <==> wf_invs_or_empty(kvs_v(es@), key@),
        r matches Some(s) ==> fv_invs_or_empty(kvs_v(es@), key@, s),
{
    match obj_get(es, key) {
        None => Some(Inventories(Vec::new())),
        Some(j) => match j {
            Json::Arr(a) => match inventory_vec_from_arr(a) {
                Some(out) => Some(Inventories(out)),
                None => None,
            },
            _ => None,
        },
    }
}

impl ClaimDeviceReply {
    /// Decodes a claim reply; each member falls back to the empty list
    /// when the API omits it.
    pub fn from_json(j: &Json) -> (r: Option<ClaimDeviceReply>)
        ensures
            r is Some <==> claim_reply_wf(j@),
            r matches Some(c) ==> claim_reply_fields(j@, c),
    {
        let es = match j {
            Json::Obj(es) => es,
            _ => {
                return None;
            },
        };
        let added = match get_strs_or_empty(es, "added") {
            Some(v) => v,
            None => {
                return None;
            },
        };
        let duplicated = match get_strs_or_empty(es, "duplicated") {
            Some(v) => v,
            None => {
                return None;
            },
        };
        let error = match get_strs_or_empty(es, "error") {
            Some(v) => v,
            None => {
                return None;
            },
        };
        let inventory_added = match invs_or_empty_from(es, "inventory_added") {
            Some(v) => v,
            None => {
                return None;
            },
        };
        let inventory_duplicated = match invs_or_empty_from(es, "inventory_duplicated") {
            Some(v) => v,
            None => {
                return None;
            },
        };
        Some(ClaimDeviceReply { added, duplicated, error, inventory_added, inventory_duplicated })
    }
}

/// The reply to a bulk inventory operation: the echoed `op`, and the
/// identifiers that succeeded and failed.
#[derive(Debug, PartialEq, Eq)]
pub struct InventoryReply {
    pub op: String,
    pub success: Vec<String>,
    pub error: Vec<String>,
}

pub open spec fn inventory_reply_wf(v: JsonV) -> bool {
    v matches JsonV::Obj(es) && {
        &&& wf_str(es, "op"@)
        &&& wf_strs(es, "success"@)
        &&& wf_strs(es, "error"@)
    }
}

pub open spec fn inventory_reply_fields(v: JsonV, r: InventoryReply) -> bool {
    v matches JsonV::Obj(es) && {
        &&& fv_str(es, "op"@, r.op@)
        &&& fv_strs(es, "success"@, r.success.deep_view())
        &&& fv_strs(es, "error"@, r.error.deep_view())
    }
}

impl InventoryReply {
    /// Decodes a bulk-operation reply.
    pub fn from_json(j: &Json) -> (r: Option<InventoryReply>)
        ensures
            r is Some <==> inventory_reply_wf(j@),
            r matches Some(p) ==> inventory_reply_fields(j@, p),
    {
        let es = match j {
            Json::Obj(es) => es,
            _ => {
                return None;
            },
        };
        let op = match get_str(es, "op") {
            Some(s) => s,
            None => {
                return None;
            },
        };
        let success = match get_strs(es, "success") {
            Some(v) => v,
            None => {
                return None;
            },
        };
        let error = match get_strs(es, "error") {
            Some(v) => v,
            None => {
                return None;
            },
        };
        Some(InventoryReply { op, success, error })
    }
}

/// The `op` discriminator of a deletion payload.
pub fn delete_op() -> (r: String)
    ensures
        r@ == "delete"@,
{
    "delete".to_owned()
}

/// The `op` discriminator of an assignment payload.
pub fn assign_op() -> (r: String)
    ensures
        r@ == "assign"@,
{
    "assign".to_owned()
}

/// The `op` discriminator of an unassignment payload.
pub fn unassign_op() -> (r: String)
    ensures
        r@ == "unassign"@,
{
    "unassign".to_owned()
}

/// The payload that deletes devices by serial or MAC address.
#[derive(Debug, PartialEq, Eq)]
pub struct DelInventory {
    pub op: String,
    pub serials: Vec<String>,
    pub macs: Vec<String>,
}

impl Default for DelInventory {
    /// The empty deletion payload, already carrying its discriminator.
    fn default() -> (r: Self)
        ensures
            r.op@ == "delete"@,
            r.serials@.len() == 0,
            r.macs@.len() == 0,
    {
        DelInventory { op: delete_op(), serials: Vec::new(), macs: Vec::new() }
    }
}

pub open spec fn del_inventory_json(d: DelInventory) -> JsonV {
    JsonV::Obj(
        no_entries().push(("op"@, JsonV::Str(d.op@))).push(
            ("serials"@, JsonV::Arr(strs_to_jsons(d.serials.deep_view()))),
        ).push(("macs"@, JsonV::Arr(strs_to_jsons(d.macs.deep_view())))),
    )
}

impl DelInventory {
    pub fn to_json(&self) -> (r: Json)
        ensures
            r@ == del_inventory_json(*self),
    {
        let mut es: Vec<(String, Json)> = Vec::new();
        put_str(&mut es, "op", self.op.as_str());
        put_strs(&mut es, "serials", &self.serials);
        put_strs(&mut es, "macs", &self.macs);
        Json::Obj(es)
    }
}

/// The payload that assigns devices to a site, with its optional flags.
#[derive(Debug, PartialEq, Eq)]
pub struct AssignInventory {
    pub op: String,
    pub site_id: String,
    pub macs: Vec<String>,
    pub no_reassign: Option<bool>,
    pub disable_auto_config: Option<bool>,
    pub managed: Option<bool>,
}

impl Default for AssignInventory {
    /// The empty assignment payload, already carrying its discriminator.
    fn default() -> (r: Self)
        ensures
            r.op@ == "assign"@,
            r.site_id@.len() == 0,
            r.macs@.len() == 0,
            r.no_reassign is None,
            r.disable_auto_config is None,
            r.managed is None,
    {
        AssignInventory {
            op: assign_op(),
            site_id: String::new(),
            macs: Vec::new(),
            no_reassign: None,
            disable_auto_config: None,
            managed: None,
        }
    }
}

pub open spec fn assign_inventory_json(a: AssignInventory) -> JsonV {
    let es = no_entries().push(("op"@, JsonV::Str(a.op@))).push(
        ("site_id"@, JsonV::Str(a.site_id@)),
    ).push(("macs"@, JsonV::Arr(strs_to_jsons(a.macs.deep_view()))));
    let es = match a.no_reassign {
        Some(b) => es.push(("no_reassign"@, JsonV::Bool(b))),
        None => es,
    };
    let es = match a.disable_auto_config {
        Some(b) => es.push(("disable_auto_config"@, JsonV::Bool(b))),
        None => es,
    };
    JsonV::Obj(
        match a.managed {
            Some(b) => es.push(("managed"@, JsonV::Bool(b))),
            None => es,
        },
    )
}

impl AssignInventory {
    /// Encodes this payload, writing each optional flag only when it is
    /// set.
    pub fn to_json(&self) -> (r: Json)
        ensures
            r@ == assign_inventory_json(*self),
    {
        let mut es: Vec<(String, Json)> = Vec::new();
        put_str(&mut es, "op", self.op.as_str());
        put_str(&mut es, "site_id", self.site_id.as_str());
        put_strs(&mut es, "macs", &self.macs);
        put_opt_bool(&mut es, "no_reassign", &self.no_reassign);
        put_opt_bool(&mut es, "disable_auto_config", &self.disable_auto_config);
        put_opt_bool(&mut es, "managed", &self.managed);
        Json::Obj(es)
    }
}

/// The payload that unassigns devices from their sites.
#[derive(Debug, PartialEq, Eq)]
pub struct UnassignInventory {
    pub op: String,
    pub macs: Vec<String>,
}

impl Default for UnassignInventory {
    /// The empty unassignment payload, already carrying its discriminator.
    fn default() -> (r: Self)
        ensures
            r.op@ == "unassign"@,
            r.macs@.len() == 0,
    {
        UnassignInventory { op: unassign_op(), macs: Vec::new() }
    }
}

pub open spec fn unassign_inventory_json(u: UnassignInventory) -> JsonV {
    JsonV::Obj(
        no_entries().push(("op"@, JsonV::Str(u.op@))).push(
            ("macs"@, JsonV::Arr(strs_to_jsons(u.macs.deep_view()))),
        ),
    )
}

impl UnassignInventory {
    pub fn to_json(&self) -> (r: Json)
        ensures
            r@ == unassign_inventory_json(*self),
    {
        let mut es: Vec<(String, Json)> = Vec::new();
        put_str(&mut es, "op", self.op.as_str());
        put_strs(&mut es, "macs", &self.macs);
        Json::Obj(es)
    }
}

pub open spec fn inventories_path_spec(org: Seq<char>, query: Option<Seq<char>>) -> Seq<char> {
    match query {
        Some(q) => api_base() + "/orgs/"@ + org + "/inventory?"@ + q,
        None => api_base() + "/orgs/"@ + org + "/inventory"@,
    }
}

/// URL of an org's inventory, with an optional query string.
pub fn inventories_path(org_id: &str, query: Option<&str>) -> (r: String)
    ensures
        r@ == inventories_path_spec(org_id@, opt_v(query)),
{
    let mut s = crate::consts::api_base_owned();
    s.append("/orgs/");
    s.append(org_id);
    match query {
        Some(q) => {
            s.append("/inventory?");
            s.append(q);
        },
        None => {
            s.append("/inventory");
        },
    }
    s
}

/// Builds the inventory-list call.
pub fn list_request(org_id: &str, query: Option<&str>) -> (r: Request)
    ensures
        r.verb == Verb::Get,
        r.url@ == inventories_path_spec(org_id@, opt_v(query)),
        r.body@ == JsonV::Null,
{
    Request { verb: Verb::Get, url: inventories_path(org_id, query), body: Json::Null }
}

/// Decides an inventory-list reply.
pub fn list_result(resp: &Option<Json>) -> (r: Result<Inventories, ()>)
    ensures
        match r {
            Ok(s) => resp matches Some(j) && inventories_wf(j@) && inventories_fields(j@, s),
            Err(_) => !(resp matches Some(j) && inventories_wf(j@)),
        },
{
    match resp {
        Some(j) => match Inventories::from_json(j) {
            Some(s) => Ok(s),
            None => Err(()),
        },
        None => Err(()),
    }
}

/// Builds the claim call: the claim codes, posted as a bare array.
#[verifier::loop_isolation(false)]
pub fn claim_request(org_id: &str, claims: Vec<&str>) -> (r: Request)
    ensures
        r.verb == Verb::Post,
        r.url@ == inventories_path_spec(org_id@, None),
        r.body@ == JsonV::Arr(strs_to_jsons(claims.deep_view())),
{
    broadcast use lemma_arr_v_props;

    let mut arr: Vec<Json> = Vec::new();
    let n = claims.len();
    let mut i: usize = 0;
    while i < n
        invariant
            n == claims.len(),
            i <= n,
            arr@.len() == i,
            forall|k: int| 0 <= k < i ==> arr@[k].v() == JsonV::Str(claims@[k]@),
        decreases n - i,
    {
        arr.push(Json::Str(claims[i].to_owned()));
        i = i + 1;
    }
    proof {
        assert(arr_v(arr@) =~= strs_to_jsons(claims.deep_view()));
    }
    Request { verb: Verb::Post, url: inventories_path(org_id, None), body: Json::Arr(arr) }
}

/// Decides a claim reply.
pub fn claim_result(resp: &Option<Json>) -> (r: Result<ClaimDeviceReply, ()>)
    ensures
        match r {
            Ok(c) => resp matches Some(j) && claim_reply_wf(j@) && claim_reply_fields(j@, c),
            Err(_) => !(resp matches Some(j) && claim_reply_wf(j@)),
        },
{
    match resp {
        Some(j) => match ClaimDeviceReply::from_json(j) {
            Some(c) => Ok(c),
            None => Err(()),
        },
        None => Err(()),
    }
}

/// The body of a deletion call.
pub open spec fn delete_body(serials: Seq<Seq<char>>, macs: Seq<Seq<char>>) -> JsonV {
    JsonV::Obj(
        no_entries().push(("op"@, JsonV::Str("delete"@))).push(
            ("serials"@, JsonV::Arr(strs_to_jsons(serials))),
        ).push(("macs"@, JsonV::Arr(strs_to_jsons(macs)))),
    )
}

/// The body of an assignment call.
pub open spec fn assign_body(
    site_id: Seq<char>,
    macs: Seq<Seq<char>>,
    no_reassign: Option<bool>,
    disable_auto_config: Option<bool>,
    managed: Option<bool>,
) -> JsonV {
    let es = no_entries().push(("op"@, JsonV::Str("assign"@))).push(
        ("site_id"@, JsonV::Str(site_id)),
    ).push(("macs"@, JsonV::Arr(strs_to_jsons(macs))));
    let es = match no_reassign {
        Some(b) => es.push(("no_reassign"@, JsonV::Bool(b))),
        None => es,
    };
    let es = match disable_auto_config {
        Some(b) => es.push(("disable_auto_config"@, JsonV::Bool(b))),
        None => es,
    };
    JsonV::Obj(
        match managed {
            Some(b) => es.push(("managed"@, JsonV::Bool(b))),
            None => es,
        },
    )
}

/// The body of an unassignment call.
pub open spec fn unassign_body(macs: Seq<Seq<char>>) -> JsonV {
    JsonV::Obj(
        no_entries().push(("op"@, JsonV::Str("unassign"@))).push(
            ("macs"@, JsonV::Arr(strs_to_jsons(macs))),
        ),
    )
}

/// Builds the deletion call: serials and MAC addresses under the `delete`
/// discriminator, put to the org's inventory.
pub fn delete_request(org_id: &str, serials: Vec<String>, macs: Vec<String>) -> (r: Request)
    ensures
        r.verb == Verb::Put,
        r.url@ == inventories_path_spec(org_id@, None),
        r.body@ == delete_body(serials.deep_view(), macs.deep_view()),
{
    let req = DelInventory { serials, macs, ..Default::default() };
    Request { verb: Verb::Put, url: inventories_path(org_id, None), body: req.to_json() }
}

/// Decides a deletion reply.
pub fn delete_result(resp: &Option<Json>) -> (r: Result<InventoryReply, ()>)
    ensures
        match r {
            Ok(p) => resp matches Some(j) && inventory_reply_wf(j@) && inventory_reply_fields(
                j@,
                p,
            ),
            Err(_) => !(resp matches Some(j) && inventory_reply_wf(j@)),
        },
{
    match resp {
        Some(j) => match InventoryReply::from_json(j) {
            Some(p) => Ok(p),
            None => Err(()),
        },
        None => Err(()),
    }
}

/// Builds the assignment call: the site and MAC addresses under the
/// `assign` discriminator, the optional flags written only when set.
pub fn assign_request(
    org_id: &str,
    site_id: &str,
    macs: Vec<String>,
    no_reassign: Option<bool>,
    disable_auto_config: Option<bool>,
    managed: Option<bool>,
) -> (r: Request)
    ensures
        r.verb == Verb::Put,
        r.url@ == inventories_path_spec(org_id@, None),
        r.body@ == assign_body(
            site_id@,
            macs.deep_view(),
            no_reassign,
            disable_auto_config,
            managed,
        ),
{
    let req = AssignInventory {
        site_id: site_id.to_owned(),
        macs,
        no_reassign,
        disable_auto_config,
        managed,
        ..Default::default()
    };
    Request { verb: Verb::Put, url: inventories_path(org_id, None), body: req.to_json() }
}

/// Decides an assignment reply.
pub fn assign_result(resp: &Option<Json>) -> (r: Result<InventoryReply, ()>)
    ensures
        match r {
            Ok(p) => resp matches Some(j) && inventory_reply_wf(j@) && inventory_reply_fields(
                j@,
                p,
            ),
            Err(_) => !(resp matches Some(j) && inventory_reply_wf(j@)),
        },
{
    match resp {
        Some(j) => match InventoryReply::from_json(j) {
            Some(p) => Ok(p),
            None => Err(()),
        },
        None => Err(()),
    }
}

/// Builds the unassignment call: the MAC addresses under the `unassign`
/// discriminator.
pub fn unassign_request(org_id: &str, macs: Vec<String>) -> (r: Request)
    ensures
        r.verb == Verb::Put,
        r.url@ == inventories_path_spec(org_id@, None),
        r.body@ == unassign_body(macs.deep_view()),
{
    let req = UnassignInventory { macs, ..Default::default() };
    Request { verb: Verb::Put, url: inventories_path(org_id, None), body: req.to_json() }
}

/// Decides an unassignment reply.
pub fn unassign_result(resp: &Option<Json>) -> (r: Result<InventoryReply, ()>)
    ensures
        match r {
            Ok(p) => resp matches Some(j) && inventory_reply_wf(j@) && inventory_reply_fields(
                j@,
                p,
            ),
            Err(_) => !(resp matches Some(j) && inventory_reply_wf(j@)),
        },
{
    match resp {
        Some(j) => match InventoryReply::from_json(j) {
            Some(p) => Ok(p),
            None => Err(()),
        },
        None => Err(()),
    }
}

} // verus!
