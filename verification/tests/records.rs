use mist_client::http::token_header;
use mist_client::inventory::inventory::ClaimDeviceReply;
use mist_client::inventory::inventory::Inventory;
use mist_client::inventory::inventory::InventoryReply;
use mist_client::json::Json;
use mist_client::org::org::Org;
use mist_client::org::org::OrgSetting;
use mist_client::org::org::OrgSettingParams;
use mist_client::org::org::OrgStats;
use mist_client::org::org::PasswordPolicy;
use mist_client::auth::login::Whoami;
use mist_client::sitegroups::SiteGroup;
use mist_client::sites::sites::Coord;
use mist_client::sites::sites::LatLng;
use mist_client::sites::sites::Site;
use mist_client::sites::sites::SiteStats;

fn s(v: &str) -> String {
    v.to_string()
}

fn jstr(v: &str) -> Json {
    Json::Str(s(v))
}

fn obj(entries: Vec<(&str, Json)>) -> Json {
    Json::Obj(entries.into_iter().map(|(k, v)| (s(k), v)).collect())
}

fn str_arr(vals: Vec<&str>) -> Json {
    Json::Arr(vals.into_iter().map(jstr).collect())
}

#[test]
fn org_round_trip_populated() {
    let org = Org {
        name: s("acme"),
        session_expiry: Some(1440),
        alarmtemplate_id: Some(s("at-1")),
        orggroup_ids: Some(vec![s("g1"), s("g2")]),
        allow_mist: false,
    };
    let parsed = Org::from_json(&org.to_json()).expect("must decode");
    assert_eq!(parsed, org);
}

#[test]
fn org_encoding_omits_absent_members() {
    let org = Org {
        name: s("acme"),
        session_expiry: None,
        alarmtemplate_id: None,
        orggroup_ids: None,
        allow_mist: true,
    };
    let expected = obj(vec![("name", jstr("acme")), ("allow_mist", Json::Bool(true))]);
    assert_eq!(org.to_json(), expected);
    let parsed = Org::from_json(&expected).expect("must decode");
    assert_eq!(parsed, org);
}

#[test]
fn org_allow_mist_defaults_to_true() {
    let doc = obj(vec![("name", jstr("acme"))]);
    let parsed = Org::from_json(&doc).expect("must decode");
    assert!(parsed.allow_mist);
}

#[test]
fn org_rejects_wrongly_typed_member() {
    let doc = obj(vec![("name", jstr("acme")), ("allow_mist", Json::Int(5))]);
    assert!(Org::from_json(&doc).is_none());
    let doc = obj(vec![("name", Json::Int(3))]);
    assert!(Org::from_json(&doc).is_none());
}

#[test]
fn site_round_trip_populated() {
    let site = Site {
        name: s("hq"),
        timezone: Some(s("Asia/Tokyo")),
        country_code: Some(s("JP")),
        secpolicy_id: Some(s("sp-1")),
        alarmtemplate_id: Some(s("at-1")),
        networktemplate_id: Some(s("nt-1")),
        latlng: Some(LatLng { lat: Coord::Num(s("35.6762")), lng: Coord::Int(139) }),
        sitegroup_ids: Some(vec![s("sg1")]),
        address: Some(s("1-1 Chiyoda")),
        notes: Some(s("main office")),
    };
    let parsed = Site::from_json(&site.to_json()).expect("must decode");
    assert_eq!(parsed, site);
}

#[test]
fn site_encoding_omits_absent_members() {
    let site = Site {
        name: s("hq"),
        timezone: None,
        country_code: None,
        secpolicy_id: None,
        alarmtemplate_id: None,
        networktemplate_id: None,
        latlng: None,
        sitegroup_ids: None,
        address: None,
        notes: None,
    };
    let expected = obj(vec![("name", jstr("hq"))]);
    assert_eq!(site.to_json(), expected);
    assert_eq!(Site::from_json(&expected).expect("must decode"), site);
}

#[test]
fn inventory_round_trip_populated() {
    let inv = Inventory {
        serial: s("S1"),
        id: s("I1"),
        model: s("M1"),
        ty: s("ap"),
        mac: s("aa:bb"),
        name: Some(s("ap-1")),
        site_id: Some(s("s1")),
        deviceprofile_id: Some(s("dp-1")),
        sku: Some(s("SKU1")),
        hw_rev: Some(s("r2")),
        magic: Some(s("m")),
        connected: Some(true),
        modified_time: 1,
        created_time: 1,
    };
    let parsed = Inventory::from_json(&inv.to_json()).expect("must decode");
    assert_eq!(parsed, inv);
}

#[test]
fn inventory_encoding_omits_absent_members() {
    let inv = Inventory {
        serial: s("S1"),
        id: s("I1"),
        model: s("M1"),
        ty: s("ap"),
        mac: s("aa:bb"),
        name: None,
        site_id: None,
        deviceprofile_id: None,
        sku: None,
        hw_rev: None,
        magic: None,
        connected: None,
        modified_time: 7,
        created_time: 3,
    };
    let expected = obj(vec![
        ("serial", jstr("S1")),
        ("id", jstr("I1")),
        ("model", jstr("M1")),
        ("type", jstr("ap")),
        ("mac", jstr("aa:bb")),
        ("modified_time", Json::Int(7)),
        ("created_time", Json::Int(3)),
    ]);
    assert_eq!(inv.to_json(), expected);
    assert_eq!(Inventory::from_json(&expected).expect("must decode"), inv);
}

#[test]
fn inventory_rejects_missing_serial() {
    let doc = obj(vec![
        ("id", jstr("I1")),
        ("model", jstr("M1")),
        ("type", jstr("ap")),
        ("mac", jstr("aa:bb")),
        ("modified_time", Json::Int(1)),
        ("created_time", Json::Int(1)),
    ]);
    assert!(Inventory::from_json(&doc).is_none());
}

#[test]
fn sitegroup_round_trip() {
    let group = SiteGroup {
        id: Some(s("sg-1")),
        name: s("floors"),
        org_id: Some(s("o-1")),
        site_ids: vec![s("s1"), s("s2")],
    };
    let parsed = SiteGroup::from_json(&group.to_json()).expect("must decode");
    assert_eq!(parsed, group);
}

#[test]
fn claim_reply_members_default_to_empty() {
    let parsed = ClaimDeviceReply::from_json(&obj(vec![])).expect("must decode");
    assert!(parsed.added.is_empty());
    assert!(parsed.duplicated.is_empty());
    assert!(parsed.error.is_empty());
    assert!(parsed.inventory_added.0.is_empty());
    assert!(parsed.inventory_duplicated.0.is_empty());
}

#[test]
fn claim_reply_keeps_each_list() {
    let doc = obj(vec![
        ("added", str_arr(vec!["C1"])),
        ("duplicated", str_arr(vec!["C2", "C3"])),
        ("error", str_arr(vec![])),
    ]);
    let parsed = ClaimDeviceReply::from_json(&doc).expect("must decode");
    assert_eq!(parsed.added, vec![s("C1")]);
    assert_eq!(parsed.duplicated, vec![s("C2"), s("C3")]);
    assert!(parsed.error.is_empty());
}

#[test]
fn inventory_reply_parse() {
    let doc = obj(vec![
        ("op", jstr("assign")),
        ("success", str_arr(vec!["aa:bb"])),
        ("error", str_arr(vec!["cc:dd"])),
    ]);
    let parsed = InventoryReply::from_json(&doc).expect("must decode");
    assert_eq!(parsed.op, s("assign"));
    assert_eq!(parsed.success, vec![s("aa:bb")]);
    assert_eq!(parsed.error, vec![s("cc:dd")]);
}

#[test]
fn org_stats_parse() {
    let doc = obj(vec![
        ("name", jstr("acme")),
        ("id", jstr("o-1")),
        ("allow_mist", Json::Bool(true)),
        ("num_inventory", Json::Int(12)),
        ("num_devices", Json::Int(10)),
        ("num_devices_connected", Json::Int(8)),
        ("num_devices_disconnected", Json::Int(2)),
        ("num_sites", Json::Int(3)),
    ]);
    let parsed = OrgStats::from_json(&doc).expect("must decode");
    assert_eq!(parsed.num_inventory, 12);
    assert_eq!(parsed.num_devices_connected, 8);
    assert_eq!(parsed.orggroup_ids, None);
}

#[test]
fn org_setting_for_site_defaults_to_true() {
    let doc = obj(vec![
        ("id", jstr("st-1")),
        ("site_id", jstr("s1")),
        ("org_id", jstr("o-1")),
        ("created_time", Json::Int(1)),
        ("modified_time", Json::Int(2)),
        ("tags", str_arr(vec!["a"])),
    ]);
    let parsed = OrgSetting::from_json(&doc).expect("must decode");
    assert!(parsed.for_site);
}

#[test]
fn site_stats_counts_default_to_zero() {
    let doc = obj(vec![("name", jstr("hq")), ("id", jstr("s1"))]);
    let parsed = SiteStats::from_json(&doc).expect("must decode");
    assert_eq!(parsed.num_ap, 0);
    assert_eq!(parsed.num_clients, 0);
    assert_eq!(parsed.tzoffset, None);
    assert_eq!(parsed.lat, None);
}

#[test]
fn site_stats_keeps_coordinates() {
    let doc = obj(vec![
        ("name", jstr("hq")),
        ("id", jstr("s1")),
        ("lat", Json::Num(s("35.6762"))),
        ("lng", Json::Int(139)),
        (
            "latlng",
            obj(vec![("lat", Json::Num(s("35.6762"))), ("lng", Json::Num(s("139.65")))]),
        ),
        ("num_ap", Json::Int(4)),
        ("tzoffset", Json::Int(-540)),
    ]);
    let parsed = SiteStats::from_json(&doc).expect("must decode");
    assert_eq!(parsed.lat, Some(Coord::Num(s("35.6762"))));
    assert_eq!(parsed.lng, Some(Coord::Int(139)));
    assert_eq!(
        parsed.latlng,
        Some(LatLng { lat: Coord::Num(s("35.6762")), lng: Coord::Num(s("139.65")) })
    );
    assert_eq!(parsed.num_ap, 4);
    assert_eq!(parsed.tzoffset, Some(-540));
}

#[test]
fn whoami_parse_with_privileges() {
    let doc = obj(vec![
        ("email", jstr("a@example.com")),
        ("first_name", jstr("Ada")),
        ("last_name", jstr("L")),
        (
            "privileges",
            Json::Arr(vec![obj(vec![
                ("scope", jstr("org")),
                ("org_id", jstr("o-1")),
                ("name", jstr("acme")),
                ("role", jstr("admin")),
            ])]),
        ),
        ("tags", str_arr(vec!["t1"])),
    ]);
    let parsed = Whoami::from_json(&doc).expect("must decode");
    assert_eq!(parsed.email, s("a@example.com"));
    assert_eq!(parsed.privileges.len(), 1);
    assert_eq!(parsed.privileges[0].role, s("admin"));
    assert_eq!(parsed.privileges[0].site_id, None);
}

#[test]
fn whoami_rejects_bad_privilege() {
    let doc = obj(vec![
        ("email", jstr("a@example.com")),
        ("first_name", jstr("Ada")),
        ("last_name", jstr("L")),
        ("privileges", Json::Arr(vec![Json::Int(1)])),
        ("tags", str_arr(vec![])),
    ]);
    assert!(Whoami::from_json(&doc).is_none());
}

#[test]
fn org_setting_params_encoding() {
    let params = OrgSettingParams {
        name: s("acme"),
        password_policy: Some(PasswordPolicy {
            enabled: true,
            freshness: 90,
            min_length: 12,
            requires_special_char: true,
            requires_two_factor_auth: false,
        }),
        ui_idle_timeout: Some(30),
        mgmt: None,
        disable_pcap: Some(false),
        pcap: None,
        pcap_bucket_verified: None,
        security: None,
        installer: None,
        remote_syslog: None,
        auto_site_assignment: None,
        auto_device_naming: None,
        cloudshark: None,
        auto_deviceprofile_assignment: None,
        cacerts: Some(vec![s("cert-a")]),
        device_cert: None,
        tags: Some(vec![s("t1")]),
    };
    let expected = obj(vec![
        ("name", jstr("acme")),
        (
            "password_policy",
            obj(vec![
                ("enabled", Json::Bool(true)),
                ("freshness", Json::Int(90)),
                ("min_length", Json::Int(12)),
                ("requires_special_char", Json::Bool(true)),
                ("requires_two_factor_auth", Json::Bool(false)),
            ]),
        ),
        ("ui_idle_timeout", Json::Int(30)),
        ("disable_pcap", Json::Bool(false)),
        ("cacerts", str_arr(vec!["cert-a"])),
        ("tags", str_arr(vec!["t1"])),
    ]);
    assert_eq!(params.to_json(), expected);
}

#[test]
fn token_header_value() {
    assert_eq!(token_header("abc123"), s("Token abc123"));
}

#[test]
fn inventory_null_members_decode_to_none() {
    let doc = obj(vec![
        ("serial", jstr("S1")),
        ("id", jstr("I1")),
        ("model", jstr("M1")),
        ("type", jstr("ap")),
        ("mac", jstr("aa:bb")),
        ("name", Json::Null),
        ("site_id", Json::Null),
        ("connected", Json::Null),
        ("modified_time", Json::Int(1)),
        ("created_time", Json::Int(1)),
    ]);
    let parsed = Inventory::from_json(&doc).expect("must decode");
    assert_eq!(parsed.name, None);
    assert_eq!(parsed.site_id, None);
    assert_eq!(parsed.connected, None);
}

#[test]
fn org_null_members_decode_to_none() {
    let doc = obj(vec![
        ("name", jstr("acme")),
        ("session_expiry", Json::Null),
        ("alarmtemplate_id", Json::Null),
        ("orggroup_ids", Json::Null),
    ]);
    let parsed = Org::from_json(&doc).expect("must decode");
    assert_eq!(parsed.session_expiry, None);
    assert_eq!(parsed.alarmtemplate_id, None);
    assert_eq!(parsed.orggroup_ids, None);
}

#[test]
fn site_null_latlng_decodes_to_none() {
    let doc = obj(vec![("name", jstr("hq")), ("latlng", Json::Null), ("notes", Json::Null)]);
    let parsed = Site::from_json(&doc).expect("must decode");
    assert_eq!(parsed.latlng, None);
    assert_eq!(parsed.notes, None);
}

#[test]
fn site_stats_null_coordinates_decode_to_none() {
    let doc = obj(vec![
        ("name", jstr("hq")),
        ("id", jstr("s1")),
        ("lat", Json::Null),
        ("lng", Json::Null),
        ("latlng", Json::Null),
        ("tzoffset", Json::Null),
    ]);
    let parsed = SiteStats::from_json(&doc).expect("must decode");
    assert_eq!(parsed.lat, None);
    assert_eq!(parsed.lng, None);
    assert_eq!(parsed.latlng, None);
    assert_eq!(parsed.tzoffset, None);
}

#[test]
fn sitegroup_null_members_decode_to_none() {
    let doc = obj(vec![("id", Json::Null), ("name", jstr("floors")), ("org_id", Json::Null)]);
    let parsed = SiteGroup::from_json(&doc).expect("must decode");
    assert_eq!(parsed.id, None);
    assert_eq!(parsed.org_id, None);
    assert!(parsed.site_ids.is_empty());
}

#[test]
fn defaulted_members_still_reject_null() {
    let doc = obj(vec![("name", jstr("acme")), ("allow_mist", Json::Null)]);
    assert!(Org::from_json(&doc).is_none());
    let doc = obj(vec![("name", jstr("hq")), ("id", jstr("s1")), ("num_ap", Json::Null)]);
    assert!(SiteStats::from_json(&doc).is_none());
    let doc = obj(vec![("added", Json::Null)]);
    assert!(ClaimDeviceReply::from_json(&doc).is_none());
}
