use prod::provision::json::{parse_json, write_json, JsonValue};
use prod::provision::provision_common::{ActionResultValues, ProvisionActionResult, ProvisionActionType, ProvisionResponseWaitType};
use prod::provision::provision_manager::{ListOutput, ListType, ProvisionManager};
use prod::provision::provision_params::{ParamValue, ProvisionParams};
use prod::provision::provision_provider::{HttpReply, HttpRequest, ProvisionStep};

fn settings(pairs: &[(&str, &str)]) -> Vec<(String, String)> {
    pairs.iter().map(|(k, v)| (k.to_string(), v.to_string())).collect()
}

fn params_from(text: &str) -> ProvisionParams {
    match ProvisionParams::from_file_txt(text) {
        Ok(p) => p,
        Err(_) => panic!("parameters should be read"),
    }
}

fn result_value(values: &ActionResultValues, key: &str) -> Option<String> {
    if values.has_value(key) {
        Some(values.get_value(key, ""))
    } else {
        None
    }
}

const LINODE_CREATE: &str =
    "provider: linode\naction: createInstance\nregion: r\ntype: t\nlabel: l\nimage: i\nroot_pass: pw\n";

#[test]
fn unconfigured_provider_is_reported_and_nothing_is_sent() {
    let manager = ProvisionManager::new(&settings(&[]));
    let params = params_from("provider: vultr\naction: createInstance\nos_id: 477\n");
    let step = manager.perform_action(&params, false, &Vec::new());
    assert!(matches!(step, ProvisionStep::Finished(ProvisionActionResult::ErrorNotConfigured(ref m)) if m.is_empty()));
}

#[test]
fn unknown_or_missing_provider_is_not_configured() {
    let manager = ProvisionManager::new(&settings(&[("PROD_VULTR_API_KEY", "k")]));
    let unknown = params_from("provider: nowhere\naction: createInstance\n");
    assert!(matches!(
        manager.perform_action(&unknown, false, &Vec::new()),
        ProvisionStep::Finished(ProvisionActionResult::ErrorNotConfigured(_))
    ));
    let missing = params_from("action: createInstance\n");
    assert!(matches!(
        manager.perform_action(&missing, false, &Vec::new()),
        ProvisionStep::Finished(ProvisionActionResult::ErrorNotConfigured(_))
    ));
}

#[test]
fn request_without_action_misses_parameters() {
    let manager = ProvisionManager::new(&settings(&[("PROD_LINODE_API_KEY", "k")]));
    let params = params_from("provider: linode\n");
    assert!(matches!(
        manager.perform_action(&params, false, &Vec::new()),
        ProvisionStep::Finished(ProvisionActionResult::ErrorMissingParams(_))
    ));
    let unknown = params_from("provider: linode\naction: resize\n");
    assert!(matches!(
        manager.perform_action(&unknown, false, &Vec::new()),
        ProvisionStep::Finished(ProvisionActionResult::Failed(_))
    ));
}

#[test]
fn vultr_create_sends_the_create_request() {
    let manager = ProvisionManager::new(&settings(&[("PROD_VULTR_API_KEY", "  secret-key \n")]));
    let params = params_from("provider: vultr\naction: createInstance\nregion: syd\nplan: vc2-1c-1gb\nlabel: web\nos_id: 477\n");
    match manager.perform_action(&params, false, &Vec::new()) {
        ProvisionStep::Send(HttpRequest::Post(url, token, body)) => {
            assert_eq!(url, "https://api.vultr.com/v2/instances");
            assert_eq!(token, Some("secret-key".to_string()));
            assert_eq!(body, "{\"enable_ipv6\":false,\"label\":\"web\",\"os_id\":477,\"plan\":\"vc2-1c-1gb\",\"region\":\"syd\"}");
        },
        _ => panic!("a create request was expected"),
    }
}

#[test]
fn vultr_create_with_bad_os_id_aborts() {
    let manager = ProvisionManager::new(&settings(&[("PROD_VULTR_API_KEY", "k")]));
    let params = params_from("provider: vultr\naction: createInstance\nplan: p\nregion: r\nos_id: debian\n");
    assert!(matches!(manager.perform_action(&params, false, &Vec::new()), ProvisionStep::Abort(_)));
}

#[test]
fn vultr_create_returning_immediately_reports_the_new_instance() {
    let manager = ProvisionManager::new(&settings(&[("PROD_VULTR_API_KEY", "k")]));
    let params = params_from(
        "provider: vultr\naction: createInstance\nwaitType: returnImmediately\nregion: syd\nplan: p\nlabel: l\nos_id: 1\n",
    );
    let replies = vec![HttpReply::Body("{\"instance\":{\"id\":\"abc-123\",\"default_password\":\"pw\"}}".to_string())];
    match manager.perform_action(&params, false, &replies) {
        ProvisionStep::Finished(ProvisionActionResult::ActionCreatedInProgress(values)) => {
            assert_eq!(result_value(&values, "id"), Some("abc-123".to_string()));
            assert_eq!(result_value(&values, "root_password"), Some("pw".to_string()));
            assert_eq!(result_value(&values, "ip"), None);
        },
        _ => panic!("an instance in progress was expected"),
    }
}

#[test]
fn vultr_create_then_waits_with_a_pause() {
    let manager = ProvisionManager::new(&settings(&[("PROD_VULTR_API_KEY", "k")]));
    let params = params_from("provider: vultr\naction: createInstance\nplan: p\nregion: r\nos_id: 1\n");
    let mut replies = vec![HttpReply::Body("{\"instance\":{\"id\":\"abc\"}}".to_string())];
    assert!(matches!(manager.perform_action(&params, false, &replies), ProvisionStep::Send(HttpRequest::Sleep(15))));
    replies.push(HttpReply::Slept);
    match manager.perform_action(&params, false, &replies) {
        ProvisionStep::Send(HttpRequest::Get(url, token)) => {
            assert_eq!(url, "https://api.vultr.com/v2/instances/abc");
            assert_eq!(token, Some("k".to_string()));
        },
        _ => panic!("a look at the instance was expected"),
    }
}

#[test]
fn create_error_statuses() {
    let manager = ProvisionManager::new(&settings(&[("PROD_LINODE_API_KEY", "k")]));
    let params = params_from(LINODE_CREATE);
    let auth = vec![HttpReply::Status(401, String::new())];
    assert!(matches!(
        manager.perform_action(&params, false, &auth),
        ProvisionStep::Finished(ProvisionActionResult::ErrorAuthenticationIssue(_))
    ));
    let bad = vec![HttpReply::Status(400, String::new())];
    assert!(matches!(manager.perform_action(&params, false, &bad), ProvisionStep::Finished(ProvisionActionResult::Failed(_))));
    let transport = vec![HttpReply::Transport("refused".to_string())];
    assert!(matches!(
        manager.perform_action(&params, false, &transport),
        ProvisionStep::Finished(ProvisionActionResult::Failed(_))
    ));
}

#[test]
fn linode_create_reports_id_password_and_address() {
    let manager = ProvisionManager::new(&settings(&[("PROD_LINODE_API_KEY", "k")]));
    let params = params_from(
        "provider: linode\naction: createInstance\nwaitType: returnImmediately\nregion: ap-southeast\ntype: g6-nanode-1\nlabel: a\nimage: linode/debian11\nroot_pass: hunter2\n",
    );
    match manager.perform_action(&params, false, &Vec::new()) {
        ProvisionStep::Send(HttpRequest::Post(url, _, body)) => {
            assert_eq!(url, "https://api.linode.com/v4/linode/instances");
            assert_eq!(
                body,
                "{\"image\":\"linode/debian11\",\"label\":\"a\",\"region\":\"ap-southeast\",\"root_pass\":\"hunter2\",\"type\":\"g6-nanode-1\"}"
            );
        },
        _ => panic!("a create request was expected"),
    }
    let replies = vec![HttpReply::Body(
        "{\"id\":42,\"image\":\"linode/debian11\",\"ipv4\":[\"1.2.3.4\"],\"ipv6\":\"::1\",\"label\":\"a\",\"status\":\"provisioning\"}"
            .to_string(),
    )];
    match manager.perform_action(&params, false, &replies) {
        ProvisionStep::Finished(ProvisionActionResult::ActionCreatedInProgress(values)) => {
            assert_eq!(result_value(&values, "id"), Some("42".to_string()));
            assert_eq!(result_value(&values, "root_password"), Some("hunter2".to_string()));
            assert_eq!(result_value(&values, "ip"), Some("1.2.3.4".to_string()));
        },
        _ => panic!("an instance in progress was expected"),
    }
}

#[test]
fn linode_waits_until_running() {
    let manager = ProvisionManager::new(&settings(&[("PROD_LINODE_API_KEY", "k")]));
    let params = params_from(LINODE_CREATE);
    let provisioning =
        "{\"id\":7,\"image\":\"i\",\"ipv4\":[],\"ipv6\":\"\",\"label\":\"a\",\"status\":\"provisioning\"}".to_string();
    let running =
        "{\"id\":7,\"image\":\"i\",\"ipv4\":[\"5.6.7.8\"],\"ipv6\":\"\",\"label\":\"a\",\"status\":\"running\"}".to_string();
    let replies = vec![
        HttpReply::Body(provisioning.clone()),
        HttpReply::Slept,
        HttpReply::Body(provisioning),
        HttpReply::Slept,
        HttpReply::Body(running),
    ];
    match manager.perform_action(&params, false, &replies) {
        ProvisionStep::Finished(ProvisionActionResult::ActionCreatedDone(values)) => {
            assert_eq!(result_value(&values, "id"), Some("7".to_string()));
            assert_eq!(result_value(&values, "ip"), Some("5.6.7.8".to_string()));
        },
        _ => panic!("a finished instance was expected"),
    }
}

#[test]
fn linode_wait_stops_after_ten_tries() {
    let manager = ProvisionManager::new(&settings(&[("PROD_LINODE_API_KEY", "k")]));
    let params = params_from(LINODE_CREATE);
    let provisioning =
        "{\"id\":7,\"image\":\"i\",\"ipv4\":[],\"ipv6\":\"\",\"label\":\"a\",\"status\":\"provisioning\"}".to_string();
    let mut replies = vec![HttpReply::Body(provisioning.clone())];
    let mut requests = 1;
    loop {
        match manager.perform_action(&params, false, &replies) {
            ProvisionStep::Send(HttpRequest::Sleep(_)) => replies.push(HttpReply::Slept),
            ProvisionStep::Send(HttpRequest::Get(_, _)) => replies.push(HttpReply::Body(provisioning.clone())),
            ProvisionStep::Finished(ProvisionActionResult::ActionCreatedDone(_)) => break,
            _ => panic!("unexpected step"),
        }
        requests += 1;
        assert!(requests <= 21);
    }
    assert_eq!(requests, 21);
}

#[test]
fn digital_ocean_polls_five_times_then_is_in_progress() {
    let manager = ProvisionManager::new(&settings(&[("PROD_DIGITAL_OCEAN_API_TOKEN", "tok")]));
    let params = params_from("provider: digital_ocean\naction: createInstance\nname: n\nregion: syd1\nsize: s-1vcpu-1gb\nimage: debian-11-x64\nipv6: true\n");
    match manager.perform_action(&params, false, &Vec::new()) {
        ProvisionStep::Send(HttpRequest::Post(url, token, body)) => {
            assert_eq!(url, "https://api.digitalocean.com/v2/droplets");
            assert_eq!(token, Some("tok".to_string()));
            assert_eq!(body, "{\"image\":\"debian-11-x64\",\"ipv6\":true,\"name\":\"n\",\"region\":\"syd1\",\"size\":\"s-1vcpu-1gb\"}");
        },
        _ => panic!("a create request was expected"),
    }
    let droplet = "{\"droplet\":{\"id\":3164444}}".to_string();
    let mut replies = vec![HttpReply::Body(droplet.clone())];
    let mut requests = 1;
    loop {
        match manager.perform_action(&params, false, &replies) {
            ProvisionStep::Send(HttpRequest::Sleep(15)) => replies.push(HttpReply::Slept),
            ProvisionStep::Send(HttpRequest::Get(url, _)) => {
                assert_eq!(url, "https://api.digitalocean.com/v2/droplets/3164444");
                replies.push(HttpReply::Body(droplet.clone()));
            },
            ProvisionStep::Finished(ProvisionActionResult::ActionCreatedInProgress(values)) => {
                assert_eq!(result_value(&values, "id"), Some("3164444".to_string()));
                break;
            },
            _ => panic!("unexpected step"),
        }
        requests += 1;
    }
    assert_eq!(requests, 11);
}

#[test]
fn digital_ocean_droplet_id_that_is_not_a_number_aborts() {
    let manager = ProvisionManager::new(&settings(&[("PROD_DIGITAL_OCEAN_API_TOKEN", "tok")]));
    let params = params_from("provider: digital_ocean\naction: createInstance\nimage: i\nname: n\nregion: r\nsize: s\n");
    let replies = vec![HttpReply::Body("{\"droplet\":{\"id\":\"x\"}}".to_string())];
    assert!(matches!(manager.perform_action(&params, false, &replies), ProvisionStep::Abort(_)));
    let no_id = vec![HttpReply::Body("{\"droplet\":{}}".to_string())];
    assert!(matches!(manager.perform_action(&params, false, &no_id), ProvisionStep::Finished(ProvisionActionResult::Failed(_))));
}

fn binary_lane_server(status: &str, public_ip: &str) -> String {
    format!(
        "{{\"server\":{{\"id\":99,\"name\":\"s\",\"memory\":1024,\"disk\":20,\"locked\":false,\"status\":\"{}\",\
         \"networks\":{{\"v4\":[{{\"ip_address\":\"10.0.0.2\",\"netmask\":\"255.0.0.0\",\"gateway\":null,\"type\":\"private\"}},\
         {{\"ip_address\":\"{}\",\"netmask\":\"255.255.255.0\",\"type\":\"public\"}}],\"port_blocking\":false,\"recent_ddos\":false}},\
         \"password_change_supported\":true}}}}",
        status, public_ip
    )
}

#[test]
fn binary_lane_create_body_and_public_address() {
    let manager = ProvisionManager::new(&settings(&[("PROD_BINARY_LANE_API_TOKEN", "t")]));
    let params = params_from(
        "provider: binary_lane\naction: createInstance\nwaitType: waitForResourceCreation\nname: n\nregion: syd\nsize: std-min\nimage: 42\nssh_keys: a\nssh_keys: b\n",
    );
    match manager.perform_action(&params, false, &Vec::new()) {
        ProvisionStep::Send(HttpRequest::Post(url, _, body)) => {
            assert_eq!(url, "https://api.binarylane.com.au/v2/servers");
            assert_eq!(
                body,
                "{\"backups\":false,\"image\":42,\"ipv6\":false,\"name\":\"n\",\"region\":\"syd\",\"size\":\"std-min\",\"ssh_keys\":[\"a\",\"b\"]}"
            );
        },
        _ => panic!("a create request was expected"),
    }
    let replies = vec![
        HttpReply::Body(binary_lane_server("new", "")),
        HttpReply::Slept,
        HttpReply::Body(binary_lane_server("new", "203.0.113.9")),
    ];
    match manager.perform_action(&params, false, &replies) {
        ProvisionStep::Finished(ProvisionActionResult::ActionCreatedInProgress(values)) => {
            assert_eq!(result_value(&values, "id"), Some("99".to_string()));
            assert_eq!(result_value(&values, "ip"), Some("203.0.113.9".to_string()));
        },
        _ => panic!("an instance with an address was expected"),
    }
}

#[test]
fn binary_lane_image_that_is_not_a_number_aborts() {
    let manager = ProvisionManager::new(&settings(&[("PROD_BINARY_LANE_API_TOKEN", "t")]));
    let params = params_from("provider: binary_lane\naction: createInstance\nregion: r\nsize: s\nimage: debian\n");
    assert!(matches!(manager.perform_action(&params, false, &Vec::new()), ProvisionStep::Abort(_)));
}

#[test]
fn delete_requests_and_their_statuses() {
    let manager = ProvisionManager::new(&settings(&[("PROD_VULTR_API_KEY", "k"), ("PROD_DIGITAL_OCEAN_API_TOKEN", "d")]));
    let mut params = ProvisionParams::from_details("vultr", ProvisionActionType::DeleteInstance);
    params.ingest_param("instance_id", "abc");
    match manager.perform_action(&params, false, &Vec::new()) {
        ProvisionStep::Send(HttpRequest::Delete(url, token)) => {
            assert_eq!(url, "https://api.vultr.com/v2/instances/abc");
            assert_eq!(token, Some("k".to_string()));
        },
        _ => panic!("a delete request was expected"),
    }
    let gone = vec![HttpReply::Body(String::new())];
    match manager.perform_action(&params, false, &gone) {
        ProvisionStep::Finished(ProvisionActionResult::ActionCreatedInProgress(values)) => {
            assert!(values.values.is_empty());
        },
        _ => panic!("a deleted instance was expected"),
    }
    let bad = vec![HttpReply::Status(400, String::new())];
    assert!(matches!(
        manager.perform_action(&params, false, &bad),
        ProvisionStep::Finished(ProvisionActionResult::ErrorAuthenticationIssue(_))
    ));
    let not_found = vec![HttpReply::Status(404, String::new())];
    assert!(matches!(
        manager.perform_action(&params, false, &not_found),
        ProvisionStep::Finished(ProvisionActionResult::Failed(_))
    ));
    let droplet = ProvisionParams::from_details("digital_ocean", ProvisionActionType::DeleteInstance);
    assert!(matches!(
        manager.perform_action(&droplet, false, &Vec::new()),
        ProvisionStep::Finished(ProvisionActionResult::NotSupported)
    ));
}

#[test]
fn openstack_configuration_and_create() {
    let partial = ProvisionManager::new(&settings(&[("PROD_OS_ENDPOINT_URI", " https://os.example/ ")]));
    let bare = ProvisionParams::from_details("openstack", ProvisionActionType::CreateInstance);
    assert!(matches!(
        partial.perform_action(&bare, false, &Vec::new()),
        ProvisionStep::Finished(ProvisionActionResult::ErrorMissingParams(_))
    ));
    let params = params_from("provider: openstack\naction: createInstance\nname: n\navailability_zone: z\nflavorRef: f\nimageRef: i\n");
    assert!(matches!(
        partial.perform_action(&params, false, &Vec::new()),
        ProvisionStep::Finished(ProvisionActionResult::Failed(_))
    ));
    let none = ProvisionManager::new(&settings(&[]));
    assert!(matches!(
        none.perform_action(&params, false, &Vec::new()),
        ProvisionStep::Finished(ProvisionActionResult::ErrorNotConfigured(_))
    ));
}

#[test]
fn list_requests() {
    let manager = ProvisionManager::new(&settings(&[("PROD_OS_ENDPOINT_URI", "https://os.example")]));
    assert!(manager.list_available("nowhere", ListType::Plans).is_none());
    match manager.list_available("vultr", ListType::Plans) {
        Some(Some(HttpRequest::Get(url, None))) => assert_eq!(url, "https://api.vultr.com/v2/plans"),
        _ => panic!("a list request was expected"),
    }
    match manager.list_available("linode", ListType::OSs) {
        Some(Some(HttpRequest::Get(url, None))) => assert_eq!(url, "https://api.linode.com/v4/images"),
        _ => panic!("a list request was expected"),
    }
    match manager.list_available("openstack", ListType::Regions) {
        Some(Some(HttpRequest::Get(url, None))) => assert_eq!(url, "https://os.example/os-availability-zone"),
        _ => panic!("a list request was expected"),
    }
    assert!(matches!(manager.list_available("digital_ocean", ListType::Regions), Some(None)));
    assert!(matches!(manager.list_available("binary_lane", ListType::OSs), Some(None)));
    assert!(matches!(manager.list_available("vultr", ListType::Other), Some(None)));
}

#[test]
fn missing_required_parameters_are_listed() {
    let manager = ProvisionManager::new(&settings(&[("PROD_LINODE_API_KEY", "k")]));
    let params = params_from("provider: linode\naction: createInstance\nregion: r\nimage: i\n");
    let required = manager.required_params(&params).unwrap();
    assert_eq!(required, vec!["image", "label", "region", "root_pass", "type"]);
    let missing = manager.missing_required_params(&params, &required);
    assert_eq!(missing, vec!["label", "root_pass", "type"]);
    assert!(!manager.check_required_params_are_provided(&params, &required));
    assert!(matches!(
        manager.perform_action(&params, false, &Vec::new()),
        ProvisionStep::Finished(ProvisionActionResult::ErrorMissingParams(_))
    ));
    let complete = params_from(LINODE_CREATE);
    assert!(manager.check_required_params_are_provided(&complete, &required));
    assert!(matches!(manager.perform_action(&complete, false, &Vec::new()), ProvisionStep::Send(_)));
}

#[test]
fn repeated_parameter_values_accumulate() {
    let params = params_from("provider: vultr\n# comment\nssh_keys: one\nssh_keys: two\n  ssh_keys:   three  \nbad line\na:b:c\n");
    assert_eq!(params.provider, "vultr");
    assert_eq!(params.get_string_array("ssh_keys"), Some(vec!["one".to_string(), "two".to_string(), "three".to_string()]));
    assert!(!params.has_param("a"));
    assert!(!params.has_param("bad line"));
    assert_eq!(params.get_string_value("ssh_keys", "none"), "none");
    let single = params_from("name: x\nflag: true\n");
    assert_eq!(single.get_string_array("name"), Some(vec!["x".to_string()]));
    assert!(single.get_string_value_as_bool("flag", false));
    assert!(!single.get_string_value_as_bool("name", false));
    match single.values.iter().find(|(k, _)| k == "name") {
        Some((_, ParamValue::StringVal(v))) => assert_eq!(v, "x"),
        _ => panic!("a single value was expected"),
    }
}

#[test]
fn wait_types_are_read() {
    assert_eq!(params_from("waitType: returnImmediately").wait_type, ProvisionResponseWaitType::ReturnImmediatelyAfterAPIRequest);
    assert_eq!(params_from("waitType: waitForResourceFinalised").wait_type, ProvisionResponseWaitType::WaitForResourceFinalised);
    assert_eq!(params_from("waitType: other").wait_type, ProvisionResponseWaitType::WaitForResourceCreationOrModification);
    assert_eq!(params_from("").wait_type, ProvisionResponseWaitType::WaitForResourceFinalised);
    assert_eq!(params_from("action: deleteInstance").action, ProvisionActionType::DeleteInstance);
    assert_eq!(params_from("action: other").action, ProvisionActionType::Unknown);
}

#[test]
fn json_is_read_and_written() {
    match parse_json("{\"b\": [1, \"two\", null], \"a\": true}") {
        Ok(JsonValue::Object(members)) => {
            assert_eq!(members.len(), 2);
            assert_eq!(members[0].0, "a");
            assert!(matches!(members[0].1, JsonValue::Bool(true)));
            match &members[1].1 {
                JsonValue::Array(items) => {
                    assert_eq!(items.len(), 3);
                    assert!(matches!(&items[0], JsonValue::Number(n) if n.as_u64 == Some(1)));
                    assert!(matches!(&items[1], JsonValue::Str(s) if s == "two"));
                    assert!(matches!(items[2], JsonValue::Null));
                },
                _ => panic!("an array was expected"),
            }
        },
        _ => panic!("an object was expected"),
    }
    assert!(parse_json("{not json").is_err());
    let v = JsonValue::Object(vec![("k".to_string(), JsonValue::Str("v\"".to_string()))]);
    assert_eq!(write_json(&v), "{\"k\":\"v\\\"\"}");
}

#[test]
fn result_values_as_flags() {
    let mut values = ActionResultValues::new();
    values.insert("ready", "true");
    values.insert("count", "3");
    assert!(values.get_value_as_bool("ready", false));
    assert!(values.get_value_as_bool("missing", true));
    assert!(!values.get_value_as_bool("count", false));
    assert_eq!(values.get_value("count", "0"), "3");
    assert_eq!(values.get_value("missing", "0"), "0");
}

#[test]
fn parameters_and_results_as_text() {
    let params = params_from("provider: vultr\naction: createInstance\nregion: syd\nssh_keys: a\nssh_keys: b\n");
    assert_eq!(
        params.to_text(),
        "Provider: vultr, Action: createInstance\n params (2): {\n  region: 'syd'\n  ssh_keys: { a, b, }\n }\n"
    );
    let mut values = ActionResultValues::new();
    values.insert("id", "7");
    values.insert("ip", "1.2.3.4");
    assert_eq!(values.to_text(), " provision action results (2): {\n  id: 7\n  ip: 1.2.3.4\n }\n");
    assert_eq!(ProvisionActionType::NotSet.to_text(), "None");
}

#[test]
fn readme_vultr_recipe() {
    let recipe = "# Create a Vultr $5 instance in Sydney running Debian 11
provider: vultr
action: createInstance

plan: vc2-1c-1gb
region: syd
# debian 11 x64
os_id: 477
";
    let params = params_from(recipe);
    assert_eq!(params.provider, "vultr");
    assert_eq!(params.action, ProvisionActionType::CreateInstance);
    let manager = ProvisionManager::new(&settings(&[("PROD_VULTR_API_KEY", "AN259_USE_YOUR_OWN_NYMK4HNKSFE5HEDEG3434T")]));
    match manager.perform_action(&params, false, &Vec::new()) {
        ProvisionStep::Send(HttpRequest::Post(url, token, body)) => {
            assert_eq!(url, "https://api.vultr.com/v2/instances");
            assert_eq!(token, Some("AN259_USE_YOUR_OWN_NYMK4HNKSFE5HEDEG3434T".to_string()));
            assert_eq!(body, "{\"enable_ipv6\":false,\"label\":\"\",\"os_id\":477,\"plan\":\"vc2-1c-1gb\",\"region\":\"syd\"}");
        },
        _ => panic!("a create request was expected"),
    }
}

#[test]
fn return_immediately_ends_after_one_reply() {
    let manager = ProvisionManager::new(&settings(&[("PROD_BINARY_LANE_API_TOKEN", "t"), ("PROD_DIGITAL_OCEAN_API_TOKEN", "d")]));
    let params = params_from("provider: binary_lane\naction: createInstance\nwaitType: returnImmediately\nregion: r\nsize: s\nimage: 5\n");
    let replies = vec![HttpReply::Body(binary_lane_server("new", ""))];
    match manager.perform_action(&params, false, &replies) {
        ProvisionStep::Finished(ProvisionActionResult::ActionCreatedInProgress(values)) => {
            assert_eq!(result_value(&values, "id"), Some("99".to_string()));
        },
        _ => panic!("an instance in progress was expected"),
    }
    let droplet = params_from("provider: digital_ocean\naction: createInstance\nwaitType: returnImmediately\nimage: i\nname: n\nregion: r\nsize: s\n");
    let replies = vec![HttpReply::Body("{\"droplet\":{\"id\":1}}".to_string())];
    assert!(matches!(manager.perform_action(&droplet, false, &replies), ProvisionStep::Send(HttpRequest::Sleep(15))));
}

fn lines_of_output(output: ListOutput) -> Vec<String> {
    match output {
        ListOutput::Lines(lines) => lines,
        _ => panic!("printed lines were expected"),
    }
}

#[test]
fn vultr_lists_are_laid_out_in_columns() {
    let manager = ProvisionManager::new(&settings(&[]));
    let regions = "{\"regions\":[{\"id\":\"syd\",\"city\":\"Sydney\",\"country\":\"AU\",\"continent\":\"Australia\"},\
                   {\"id\":\"ewr\",\"city\":\"New Jersey\",\"country\":\"US\",\"continent\":\"North America\"}]}";
    assert_eq!(
        lines_of_output(manager.list_output("vultr", ListType::Regions, regions)),
        vec!["2 regions:", "syd  Sydney     AU Australia", "ewr  New Jersey US North America"]
    );
    let plans = "{\"plans\":[{\"id\":\"vc2-1c-1gb\",\"vcpu_count\":1,\"ram\":1024,\"disk\":25,\"bandwidth\":1024,\"monthly_cost\":5,\"type\":\"vc2\"},\
                 {\"id\":\"vc2-24c-96gb\",\"vcpu_count\":24,\"ram\":98304,\"disk\":1600,\"bandwidth\":15360,\"monthly_cost\":640,\"type\":\"vc2\"}]}";
    assert_eq!(
        lines_of_output(manager.list_output("vultr", ListType::Plans, plans)),
        vec![
            "2 plans:",
            "vc2-1c-1gb   :   $5   25 GB  1024 MB 1024 GB",
            "vc2-24c-96gb : $640 1600 GB 98304 MB 15360 GB",
        ]
    );
    let os = "{\"os\":[{\"id\":477,\"name\":\"Debian 11 x64 (bullseye)\",\"arch\":\"x64\",\"family\":\"debian\"}]}";
    assert_eq!(
        lines_of_output(manager.list_output("vultr", ListType::OSs, os)),
        vec!["1 OS images:", "477  Debian 11 x64 (bullseye) x64 debian"]
    );
}

#[test]
fn unreadable_or_empty_lists() {
    let manager = ProvisionManager::new(&settings(&[]));
    assert!(matches!(manager.list_output("vultr", ListType::Regions, "{\"regions\":[]}"), ListOutput::Unreadable));
    assert!(matches!(manager.list_output("vultr", ListType::Regions, "not json"), ListOutput::Unreadable));
    assert!(matches!(
        manager.list_output("linode", ListType::Regions, "{\"data\":[{\"id\":\"x\"}]}"),
        ListOutput::Unreadable
    ));
    assert!(matches!(manager.list_output("openstack", ListType::Regions, "[]"), ListOutput::Raw));
    assert!(matches!(manager.list_output("digital_ocean", ListType::Plans, "{}"), ListOutput::Prices));
    assert!(matches!(manager.list_output("binary_lane", ListType::Plans, "{}"), ListOutput::Prices));
}

#[test]
fn linode_and_titled_lists() {
    let manager = ProvisionManager::new(&settings(&[]));
    let types = "{\"data\":[{\"id\":\"g6-nanode-1\",\"label\":\"Nanode 1GB\",\"class\":\"nanode\",\"memory\":1024,\"disk\":25600,\"transfer\":1000,\"vcpus\":1}]}";
    assert_eq!(
        lines_of_output(manager.list_output("linode", ListType::Plans, types)),
        vec!["1 plans:", "g6-nanode-1 Nanode 1GB 1024 MB 25600 MB"]
    );
    let regions = "{\"regions\":[{\"name\":\"Sydney\",\"slug\":\"syd\",\"available\":true},{\"name\":\"Brisbane\",\"slug\":\"bne\",\"available\":false}]}";
    assert_eq!(
        lines_of_output(manager.list_output("binary_lane", ListType::Regions, regions)),
        vec!["2 regions:", "ID   Name      Available", "syd  Sydney    true", "bne  Brisbane  false"]
    );
    assert_eq!(
        lines_of_output(manager.list_output("digital_ocean", ListType::Regions, "{\"regions\":[]}")),
        vec!["0 regions:", "id  name  available"]
    );
}

#[test]
fn text_lists_values_in_the_order_of_their_names() {
    let params = params_from("provider: vultr\naction: createInstance\nzone: a\nbackups: no\nlabel: x\n");
    assert_eq!(
        params.to_text(),
        "Provider: vultr, Action: createInstance\n params (3): {\n  backups: 'no'\n  label: 'x'\n  zone: 'a'\n }\n"
    );
    let mut values = ActionResultValues::new();
    values.insert("ip", "1.2.3.4");
    values.insert("ID", "7");
    values.insert("id", "8");
    assert_eq!(values.to_text(), " provision action results (3): {\n  ID: 7\n  id: 8\n  ip: 1.2.3.4\n }\n");
}
