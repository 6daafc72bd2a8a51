use pvf_host::version::{
    is_compatible, logical_node_version, logical_version, NODE_PREFIX, NODE_VERSION,
    RUNTIME_PREFIX,
};

#[test]
fn logical_version_has_both_tags() {
    assert_eq!(logical_version("1.2.3", "0.9.0"), "wasmtime_v1.2.3_polkadot_v0.9.0");
    assert_eq!(logical_version("", ""), "wasmtime_v_polkadot_v");
    assert_eq!(RUNTIME_PREFIX, "wasmtime_v");
    assert_eq!(NODE_PREFIX, "polkadot_v");
}

#[test]
fn logical_node_version_uses_the_node_version() {
    assert_eq!(
        logical_node_version("8.0.1"),
        format!("wasmtime_v8.0.1_polkadot_v{}", NODE_VERSION)
    );
    assert_eq!(logical_node_version("8.0.1"), logical_version("8.0.1", NODE_VERSION));
}

#[test]
fn same_input_gives_the_same_version() {
    assert_eq!(logical_node_version("8.0.1"), logical_node_version("8.0.1"));
    assert_eq!(logical_version("a", "b"), logical_version("a", "b"));
}

#[test]
fn different_versions_give_different_logical_versions() {
    let runtimes = ["1.0.0", "1.0.1", "1.0", "10.0", "8.0.1", "8.0.1-rc1", ""];
    let nodes = ["1.10.0", "1.1.0", "1.10", "0.9.43", ""];
    let mut seen: Vec<String> = Vec::new();
    for runtime in runtimes {
        for node in nodes {
            let version = logical_version(runtime, node);
            assert!(!seen.contains(&version), "collision on {}", version);
            seen.push(version);
        }
    }
    assert_eq!(seen.len(), runtimes.len() * nodes.len());
    assert_ne!(logical_node_version("1.0.0"), logical_node_version("1.0.1"));
}

#[test]
fn a_runtime_version_with_the_node_tag_in_it_can_collide() {
    assert_eq!(logical_version("a_polkadot_vb", "c"), logical_version("a", "b_polkadot_vc"));
}

#[test]
fn compatibility_is_equality() {
    assert!(is_compatible("wasmtime_v1_polkadot_v2", "wasmtime_v1_polkadot_v2"));
    assert!(!is_compatible("wasmtime_v1_polkadot_v2", "wasmtime_v1_polkadot_v2.0"));
    assert!(!is_compatible("wasmtime_v1_polkadot_v2", "wasmtime_v1.0_polkadot_v2"));
    assert!(!is_compatible("", "x"));
    assert!(is_compatible("", ""));
}
