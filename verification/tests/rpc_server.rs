use pvf_host::rpc_server::{
    available_methods, format_cors, host_without_port, hosts_filtering, middleware_plan,
    payload_limit, plan_request, plan_server, rate_limit_for, transport_label, try_into_cors,
    whitelisted_names, Config, CorsPolicy, InvalidOrigin, IpKey, MiddlewarePlan, RequestPlan,
    DEFAULT_ID_LENGTH, INACTIVE_LIMIT_SECS, MAX_PING_FAILURES, MEGABYTE, PING_INTERVAL_SECS,
    RPC_METHODS,
};

fn strings(items: &[&str]) -> Vec<String> {
    items.iter().map(|s| s.to_string()).collect()
}

#[test]
fn payload_limit_is_megabytes_in_bytes_saturating() {
    assert_eq!(MEGABYTE, 1_048_576);
    assert_eq!(payload_limit(0), 0);
    assert_eq!(payload_limit(1), 1_048_576);
    assert_eq!(payload_limit(15), 15 * 1_048_576);
    assert_eq!(payload_limit(4095), 4095 * 1_048_576);
    assert_eq!(payload_limit(4096), u32::MAX);
    assert_eq!(payload_limit(u32::MAX), u32::MAX);
    for mb in [0u32, 1, 7, 4095, 4096, 5000, u32::MAX] {
        assert_eq!(payload_limit(mb), mb.saturating_mul(MEGABYTE));
    }
}

#[test]
fn ping_and_id_settings() {
    assert_eq!(PING_INTERVAL_SECS, 30);
    assert_eq!(INACTIVE_LIMIT_SECS, 60);
    assert_eq!(MAX_PING_FAILURES, 3);
    assert_eq!(DEFAULT_ID_LENGTH, 16);
}

#[test]
fn host_filter_names_the_local_machine_with_the_port() {
    assert_eq!(hosts_filtering(false, Some(9944)), None);
    assert_eq!(hosts_filtering(false, None), None);
    assert_eq!(
        hosts_filtering(true, Some(9944)),
        Some(strings(&["localhost:9944", "127.0.0.1:9944", "[::1]:9944"]))
    );
    assert_eq!(
        hosts_filtering(true, None),
        Some(strings(&["localhost:*", "127.0.0.1:*", "[::1]:*"]))
    );
    assert_eq!(
        hosts_filtering(true, Some(0)),
        Some(strings(&["localhost:0", "127.0.0.1:0", "[::1]:0"]))
    );
    assert_eq!(
        hosts_filtering(true, Some(65535)),
        Some(strings(&["localhost:65535", "127.0.0.1:65535", "[::1]:65535"]))
    );
}

#[test]
fn host_without_port_cuts_at_the_first_colon() {
    assert_eq!(host_without_port("hostname:8080"), "hostname");
    assert_eq!(host_without_port("hostname"), "hostname");
    assert_eq!(host_without_port("a:b:c"), "a");
    assert_eq!(host_without_port(":8080"), "");
    assert_eq!(host_without_port(""), "");
    assert_eq!(host_without_port("h\u{f6}st:1"), "h\u{f6}st");
    for host in ["hostname:8080", "hostname", "a:b:c", ":", "", "10.0.0.1:30333"] {
        let expected = if let Some((h, _port)) = host.split_once(":") { h } else { host };
        assert_eq!(host_without_port(host), expected);
    }
    assert_eq!(
        whitelisted_names(&strings(&["node-1:9944", "10.0.0.1", "x:y:z"])),
        strings(&["node-1", "10.0.0.1", "x"])
    );
}

#[test]
fn cors_policy_from_configured_origins() {
    assert!(matches!(try_into_cors(None), Ok(CorsPolicy::Permissive)));
    let origins = strings(&["http://localhost:8000", "https://polkadot.js.org", "tab\there"]);
    match try_into_cors(Some(&origins)) {
        Ok(CorsPolicy::List(list)) => assert_eq!(list, origins),
        other => panic!("unexpected: {:?}", other),
    }
    let empty: Vec<String> = Vec::new();
    match try_into_cors(Some(&empty)) {
        Ok(CorsPolicy::List(list)) => assert!(list.is_empty()),
        other => panic!("unexpected: {:?}", other),
    }
}

#[test]
fn cors_policy_refuses_what_is_no_header_value() {
    let origins = strings(&["http://ok", "bad\norigin", "also\u{7f}bad"]);
    assert!(matches!(try_into_cors(Some(&origins)), Err(InvalidOrigin { index: 1 })));
    let origins = strings(&["nul\0"]);
    assert!(matches!(try_into_cors(Some(&origins)), Err(InvalidOrigin { index: 0 })));
}

#[test]
fn cors_policy_agrees_with_the_header_value_parser() {
    let mut samples: Vec<String> = Vec::new();
    for code in 0u32..=0x100 {
        let c = char::from_u32(code).unwrap();
        samples.push(format!("x{}y", c));
    }
    samples.push("\u{20ac}".to_string());
    samples.push(String::new());
    for sample in samples {
        let accepted = http::header::HeaderValue::from_str(&sample).is_ok();
        let by_rule = sample.chars().all(|c| c == '\t' || (c as u32 >= 32 && c as u32 != 127));
        assert_eq!(accepted, by_rule, "{:?}", sample);
        let list = vec![sample.clone()];
        assert_eq!(try_into_cors(Some(&list)).is_ok(), accepted, "{:?}", sample);
    }
}

#[test]
fn format_cors_writes_the_list_as_debug_does() {
    assert_eq!(format_cors(None), "[\"*\"]");
    assert_eq!(format_cors(None), format!("{:?}", ["*"]));
    let origins = strings(&["http://localhost:8000", "quote\"d", "back\\slash"]);
    assert_eq!(
        format_cors(Some(&origins)),
        "[\"http://localhost:8000\", \"quote\\\"d\", \"back\\\\slash\"]"
    );
    assert_eq!(format_cors(Some(&origins)), format!("{:?}", origins));
    let empty: Vec<String> = Vec::new();
    assert_eq!(format_cors(Some(&empty)), "[]");
}

#[test]
fn transport_label_names_the_transport() {
    assert_eq!(transport_label(true), "ws");
    assert_eq!(transport_label(false), "http");
}

#[test]
fn whitelisted_addresses_are_not_rate_limited() {
    let v4 = IpKey { v6: false, bits: 0x7f00_0001 };
    let mapped = IpKey { v6: true, bits: 0x7f00_0001 };
    let other = IpKey { v6: false, bits: 0x0a00_0001 };
    let whitelist = [other, v4];
    assert_eq!(rate_limit_for(&whitelist, v4, Some(100)), None);
    assert_eq!(rate_limit_for(&whitelist, other, Some(100)), None);
    assert_eq!(rate_limit_for(&whitelist, mapped, Some(100)), Some(100));
    assert_eq!(rate_limit_for(&whitelist, mapped, None), None);
    assert_eq!(rate_limit_for(&[], v4, Some(7)), Some(7));
}

#[test]
fn middleware_is_built_from_what_is_configured() {
    assert_eq!(middleware_plan(false, None), None);
    assert_eq!(
        middleware_plan(true, None),
        Some(MiddlewarePlan { metrics: true, rate_limit: None })
    );
    assert_eq!(
        middleware_plan(false, Some(10)),
        Some(MiddlewarePlan { metrics: false, rate_limit: Some(10) })
    );
    assert_eq!(
        middleware_plan(true, Some(10)),
        Some(MiddlewarePlan { metrics: true, rate_limit: Some(10) })
    );
}

#[test]
fn request_plan_joins_whitelist_and_middleware() {
    let local = IpKey { v6: false, bits: 0x7f00_0001 };
    let remote = IpKey { v6: false, bits: 0x0808_0808 };
    assert_eq!(
        plan_request(&[local], local, Some(5), false, true),
        RequestPlan { is_websocket: true, middleware: None }
    );
    assert_eq!(
        plan_request(&[local], remote, Some(5), false, false),
        RequestPlan {
            is_websocket: false,
            middleware: Some(MiddlewarePlan { metrics: false, rate_limit: Some(5) })
        }
    );
    assert_eq!(
        plan_request(&[local], local, Some(5), true, false),
        RequestPlan {
            is_websocket: false,
            middleware: Some(MiddlewarePlan { metrics: true, rate_limit: None })
        }
    );
}

#[test]
fn available_methods_are_sorted_and_include_rpc_methods() {
    assert_eq!(RPC_METHODS, "rpc_methods");
    let names = strings(&["system_health", "chain_getBlock", "rpc_zzz", "author_submit", "a"]);
    assert_eq!(
        available_methods(&names),
        strings(&[
            "a",
            "author_submit",
            "chain_getBlock",
            "rpc_methods",
            "rpc_zzz",
            "system_health"
        ])
    );
    assert_eq!(available_methods(&Vec::new()), strings(&["rpc_methods"]));
    let names = strings(&["b", "B", "", "b", "\u{e9}", "z", "ba", "rpc_methods"]);
    let mut expected: Vec<&str> = names.iter().map(|s| s.as_str()).collect();
    expected.push("rpc_methods");
    expected.sort();
    assert_eq!(available_methods(&names), strings(&expected));
}

fn sample_config(cors: Option<Vec<String>>) -> Config {
    Config {
        cors,
        max_connections: 100,
        max_subs_per_conn: 1024,
        max_payload_in_mb: 15,
        max_payload_out_mb: 5000,
        metrics: true,
        message_buffer_capacity: 64,
        rate_limit: Some(10),
        rate_limit_whitelisted_hosts: strings(&["localhost:9944", "proxy"]),
    }
}

#[test]
fn server_plan_for_a_configuration() {
    let plan = plan_server(&sample_config(None), Some(9944)).unwrap();
    assert_eq!(plan.host_filter, None);
    assert!(matches!(plan.cors, CorsPolicy::Permissive));
    assert_eq!(plan.max_request_body_size, 15 * 1_048_576);
    assert_eq!(plan.max_response_body_size, u32::MAX);
    assert_eq!(plan.whitelisted_names, strings(&["localhost", "proxy"]));

    let plan = plan_server(&sample_config(Some(strings(&["http://a"]))), None).unwrap();
    assert_eq!(plan.host_filter, Some(strings(&["localhost:*", "127.0.0.1:*", "[::1]:*"])));
    match plan.cors {
        CorsPolicy::List(list) => assert_eq!(list, strings(&["http://a"])),
        CorsPolicy::Permissive => panic!("a list was configured"),
    }

    let refused = plan_server(&sample_config(Some(strings(&["http://a", "b\r\n"]))), Some(1));
    assert!(matches!(refused, Err(InvalidOrigin { index: 1 })));
}
