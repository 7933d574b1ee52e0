use mist_client::auth::login::get_privileges_result;
use mist_client::auth::login::login_request;
use mist_client::auth::login::login_result;
use mist_client::auth::login::logout_request;
use mist_client::auth::login::logout_result;
use mist_client::auth::paths;
use mist_client::http::Verb;
use mist_client::inventory::inventory;
use mist_client::json::Json;
use mist_client::org::org;
use mist_client::sitegroups;
use mist_client::sites::sites;

fn s(v: &str) -> String {
    v.to_string()
}

fn jstr(v: &str) -> Json {
    Json::Str(s(v))
}

fn obj(entries: Vec<(&str, Json)>) -> Json {
    Json::Obj(entries.into_iter().map(|(k, v)| (s(k), v)).collect())
}

fn str_arr(vals: Vec<&str>) -> Json {
    Json::Arr(vals.into_iter().map(jstr).collect())
}

#[test]
fn auth_paths() {
    assert_eq!(paths::login(), s("https://api.mist.com/api/v1/login"));
    assert_eq!(paths::logout(), s("https://api.mist.com/api/v1/logout"));
    assert_eq!(paths::get_privileges(), s("https://api.mist.com/api/v1/self"));
}

#[test]
fn login_request_shape() {
    let r = login_request("a@example.com", "pw", Some("123456"));
    assert_eq!(r.verb, Verb::Post);
    assert_eq!(r.url, s("https://api.mist.com/api/v1/login"));
    let expected = obj(vec![
        ("email", jstr("a@example.com")),
        ("password", jstr("pw")),
        ("two_factor", jstr("123456")),
    ]);
    assert_eq!(r.body, expected);
}

#[test]
fn login_request_without_otp_omits_two_factor() {
    let r = login_request("a@example.com", "pw", None);
    let expected = obj(vec![("email", jstr("a@example.com")), ("password", jstr("pw"))]);
    assert_eq!(r.body, expected);
}

#[test]
fn login_accepts_only_the_empty_object() {
    assert_eq!(login_result(&Some(obj(vec![]))), Ok(()));
}

#[test]
fn login_rejects_populated_object() {
    let r = login_result(&Some(obj(vec![("detail", jstr("bad credentials"))])));
    assert_eq!(r, Err(()));
}

#[test]
fn login_rejects_non_object_replies() {
    assert_eq!(login_result(&Some(Json::Arr(vec![]))), Err(()));
    assert_eq!(login_result(&Some(jstr("ok"))), Err(()));
    assert_eq!(login_result(&Some(Json::Int(0))), Err(()));
    assert_eq!(login_result(&Some(Json::Bool(true))), Err(()));
    assert_eq!(login_result(&Some(Json::Null)), Err(()));
}

#[test]
fn login_rejects_transport_failure() {
    assert_eq!(login_result(&None), Err(()));
}

#[test]
fn logout_accepts_any_decoded_reply() {
    let r = logout_request();
    assert_eq!(r.verb, Verb::Post);
    assert_eq!(r.url, s("https://api.mist.com/api/v1/logout"));
    assert_eq!(r.body, Json::Null);
    assert_eq!(logout_result(&Some(Json::Null)), Ok(()));
    assert_eq!(logout_result(&Some(obj(vec![("any", Json::Int(1))]))), Ok(()));
    assert_eq!(logout_result(&None), Err(()));
}

#[test]
fn every_endpoint_reports_transport_failure() {
    assert!(get_privileges_result(&None).is_err());
    assert!(inventory::list_result(&None).is_err());
    assert!(inventory::claim_result(&None).is_err());
    assert!(inventory::delete_result(&None).is_err());
    assert!(inventory::assign_result(&None).is_err());
    assert!(inventory::unassign_result(&None).is_err());
    assert!(org::get_setting_result(&None).is_err());
    assert!(org::update_setting_result(&None).is_err());
    assert!(org::get_stats_result(&None).is_err());
    assert!(org::create_result(&None).is_err());
    assert!(org::update_result(&None).is_err());
    assert!(org::clone_result(&None).is_err());
    assert!(sites::get_stats_result(&None).is_err());
    assert!(sites::list_result(&None).is_err());
    assert!(sites::get_result(&None).is_err());
    assert!(sites::create_result(&None).is_err());
    assert!(sites::update_result(&None).is_err());
    assert!(sites::delete_result(&None).is_err());
    assert!(sitegroups::list_result(&None).is_err());
    assert!(sitegroups::get_result(&None).is_err());
    assert!(sitegroups::create_result(&None).is_err());
    assert!(sitegroups::update_result(&None).is_err());
    assert!(sitegroups::delete_group_result(&None).is_err());
}

#[test]
fn every_endpoint_reports_malformed_replies() {
    let bad = Some(jstr("not a record"));
    assert!(get_privileges_result(&bad).is_err());
    assert!(inventory::list_result(&bad).is_err());
    assert!(inventory::claim_result(&bad).is_err());
    assert!(inventory::delete_result(&bad).is_err());
    assert!(org::get_setting_result(&bad).is_err());
    assert!(org::get_stats_result(&bad).is_err());
    assert!(org::create_result(&bad).is_err());
    assert!(sites::get_stats_result(&bad).is_err());
    assert!(sites::list_result(&bad).is_err());
    assert!(sites::get_result(&bad).is_err());
    assert!(sitegroups::list_result(&bad).is_err());
    assert!(sitegroups::get_result(&bad).is_err());
}

#[test]
fn site_paths_compose() {
    let collection = sites::sites_path("abc");
    let mut composed = collection.clone();
    composed.push('/');
    composed.push_str("s1");
    assert_eq!(composed, sites::site_path("abc", "s1"));
    assert_eq!(collection, s("https://api.mist.com/api/v1/orgs/abc/sites"));
    assert_eq!(sites::site_path("abc", "s1"), s("https://api.mist.com/api/v1/orgs/abc/sites/s1"));
    assert_eq!(sites::site_stats_path("s1"), s("https://api.mist.com/api/v1/sites/s1/stats"));
}

#[test]
fn org_paths() {
    assert_eq!(org::orgs_path(), s("https://api.mist.com/api/v1/orgs"));
    assert_eq!(org::org_path("abc"), s("https://api.mist.com/api/v1/orgs/abc"));
    assert_eq!(org::org_stats_path("abc"), s("https://api.mist.com/api/v1/orgs/abc/stats"));
    assert_eq!(org::org_setting_path("abc"), s("https://api.mist.com/api/v1/orgs/abc/setting"));
}

#[test]
fn inventory_paths() {
    assert_eq!(
        inventory::inventories_path("abc", None),
        s("https://api.mist.com/api/v1/orgs/abc/inventory")
    );
    assert_eq!(
        inventory::inventories_path("abc", Some("type=ap")),
        s("https://api.mist.com/api/v1/orgs/abc/inventory?type=ap")
    );
}

#[test]
fn list_scenario_one_record() {
    let stub = Json::Arr(vec![obj(vec![
        ("serial", jstr("S1")),
        ("id", jstr("I1")),
        ("model", jstr("M1")),
        ("type", jstr("ap")),
        ("mac", jstr("aa:bb")),
        ("connected", Json::Bool(true)),
        ("modified_time", Json::Int(1)),
        ("created_time", Json::Int(1)),
    ])]);
    let r = inventory::list_request("abc", None);
    assert_eq!(r.verb, Verb::Get);
    assert_eq!(r.url, s("https://api.mist.com/api/v1/orgs/abc/inventory"));
    let got = inventory::list_result(&Some(stub)).expect("must decode");
    assert_eq!(got.0.len(), 1);
    assert_eq!(got.0[0].serial, s("S1"));
    assert_eq!(got.0[0].ty, s("ap"));
    assert_eq!(got.0[0].connected, Some(true));
}

#[test]
fn assign_request_shape() {
    let r = inventory::assign_request("abc", "s1", vec![s("aa:bb")], None, None, None);
    assert_eq!(r.verb, Verb::Put);
    assert_eq!(r.url, s("https://api.mist.com/api/v1/orgs/abc/inventory"));
    let expected = obj(vec![
        ("op", jstr("assign")),
        ("site_id", jstr("s1")),
        ("macs", str_arr(vec!["aa:bb"])),
    ]);
    assert_eq!(r.body, expected);
}

#[test]
fn assign_request_writes_set_flags() {
    let r = inventory::assign_request("abc", "s1", vec![s("aa:bb")], Some(true), None, Some(false));
    let expected = obj(vec![
        ("op", jstr("assign")),
        ("site_id", jstr("s1")),
        ("macs", str_arr(vec!["aa:bb"])),
        ("no_reassign", Json::Bool(true)),
        ("managed", Json::Bool(false)),
    ]);
    assert_eq!(r.body, expected);
}

#[test]
fn delete_request_carries_the_delete_op() {
    let r = inventory::delete_request("abc", vec![s("S1")], vec![s("aa:bb")]);
    assert_eq!(r.verb, Verb::Put);
    let expected = obj(vec![
        ("op", jstr("delete")),
        ("serials", str_arr(vec!["S1"])),
        ("macs", str_arr(vec!["aa:bb"])),
    ]);
    assert_eq!(r.body, expected);
}

#[test]
fn unassign_request_carries_the_unassign_op() {
    let r = inventory::unassign_request("abc", vec![s("aa:bb")]);
    let expected = obj(vec![("op", jstr("unassign")), ("macs", str_arr(vec!["aa:bb"]))]);
    assert_eq!(r.body, expected);
}

#[test]
fn claim_request_posts_the_codes() {
    let r = inventory::claim_request("abc", vec!["C1", "C2"]);
    assert_eq!(r.verb, Verb::Post);
    assert_eq!(r.url, s("https://api.mist.com/api/v1/orgs/abc/inventory"));
    assert_eq!(r.body, str_arr(vec!["C1", "C2"]));
}

#[test]
fn clone_request_sends_only_the_name() {
    let r = org::clone_request("abc", "copy-of-acme");
    assert_eq!(r.verb, Verb::Put);
    assert_eq!(r.url, s("https://api.mist.com/api/v1/orgs/abc"));
    assert_eq!(r.body, obj(vec![("name", jstr("copy-of-acme"))]));
}

#[test]
fn sitegroup_paths_and_requests() {
    assert_eq!(
        sitegroups::sitegroups_path("abc"),
        s("https://api.mist.com/api/v1/orgs/abc/sitegroups")
    );
    assert_eq!(
        sitegroups::sitegroup_path("abc", "g1"),
        s("https://api.mist.com/api/v1/orgs/abc/sitegroups/g1")
    );
    let r = sitegroups::delete_group_request("abc", "g1");
    assert_eq!(r.verb, Verb::Delete);
    assert_eq!(r.url, s("https://api.mist.com/api/v1/orgs/abc/sitegroups/g1"));
    assert_eq!(r.body, Json::Null);
}

#[test]
fn delete_group_reports_failure_without_a_body() {
    assert_eq!(sitegroups::delete_group_result(&None), Err(()));
    assert_eq!(sitegroups::delete_group_result(&Some(obj(vec![]))), Ok(()));
}

#[test]
fn site_delete_accepts_any_decoded_reply() {
    let r = sites::delete_request("abc", "s1");
    assert_eq!(r.verb, Verb::Delete);
    assert_eq!(r.url, s("https://api.mist.com/api/v1/orgs/abc/sites/s1"));
    assert_eq!(sites::delete_result(&Some(Json::Null)), Ok(()));
    assert_eq!(sites::delete_result(&None), Err(()));
}

#[test]
fn update_setting_request_shape() {
    let params = org::OrgSettingParams {
        name: s("acme"),
        password_policy: None,
        ui_idle_timeout: None,
        mgmt: None,
        disable_pcap: None,
        pcap: None,
        pcap_bucket_verified: None,
        security: None,
        installer: None,
        remote_syslog: None,
        auto_site_assignment: None,
        auto_device_naming: None,
        cloudshark: None,
        auto_deviceprofile_assignment: None,
        cacerts: None,
        device_cert: None,
        tags: None,
    };
    let r = org::update_setting_request("abc", &params);
    assert_eq!(r.verb, Verb::Put);
    assert_eq!(r.url, s("https://api.mist.com/api/v1/orgs/abc/setting"));
    assert_eq!(r.body, obj(vec![("name", jstr("acme"))]));
}

#[test]
fn site_create_and_get_requests() {
    let site = mist_client::sites::sites::Site {
        name: s("hq"),
        timezone: None,
        country_code: None,
        secpolicy_id: None,
        alarmtemplate_id: None,
        networktemplate_id: None,
        latlng: None,
        sitegroup_ids: None,
        address: None,
        notes: None,
    };
    let r = sites::create_request("abc", &site);
    assert_eq!(r.verb, Verb::Post);
    assert_eq!(r.url, s("https://api.mist.com/api/v1/orgs/abc/sites"));
    assert_eq!(r.body, obj(vec![("name", jstr("hq"))]));
    let g = sites::get_request("abc", "s1");
    assert_eq!(g.verb, Verb::Get);
    assert_eq!(g.url, s("https://api.mist.com/api/v1/orgs/abc/sites/s1"));
    assert_eq!(g.body, Json::Null);
}
