use bootnode_sidecar::discovery::{
    parse_static_enodes, static_enodes_from_body, static_enodes_uri, Discovery, RetryStep,
};
use bootnode_sidecar::peer::{EthereumNodeUrl, HostAddr};
use bootnode_sidecar::types::NodeType;

#[test]
fn registry_body_keeps_valid_entries_only() {
    let body = r#"["enode://id1@10.0.0.1:30303", "not-a-url", "enode://@10.0.0.2:30303"]"#;
    let r = static_enodes_from_body(body);
    assert_eq!(r.len(), 1);
    assert_eq!(r[0].node_id, "id1");
    assert_eq!(r[0].addr, HostAddr { a: 10, b: 0, c: 0, d: 1 });
    assert_eq!(r[0].port, 30303);
}

#[test]
fn registry_entries_keep_order() {
    let entries = vec![
        Some("enode://b@1.1.1.1:2".to_string()),
        None,
        Some("enode://a@2.2.2.2:3".to_string()),
        Some("bogus".to_string()),
    ];
    let r = parse_static_enodes(&entries);
    assert_eq!(r.iter().map(|u| u.to_string()).collect::<Vec<_>>(), vec![
        "enode://b@1.1.1.1:2".to_string(),
        "enode://a@2.2.2.2:3".to_string()
    ]);
}

#[test]
fn non_array_body_is_empty() {
    assert!(static_enodes_from_body(r#"{"a":1}"#).is_empty());
    assert!(static_enodes_from_body("garbage").is_empty());
    assert!(static_enodes_from_body(r#"[1, null, {}]"#).is_empty());
}

#[test]
fn query_uri_is_exact() {
    assert_eq!(
        static_enodes_uri("registry", 8080, "testnet"),
        "http://registry:8080/staticenodes?network=testnet"
    );
}

fn node() -> EthereumNodeUrl {
    EthereumNodeUrl { node_id: "n".to_string(), addr: HostAddr { a: 1, b: 2, c: 3, d: 4 }, port: 5 }
}

#[test]
fn retry_until_non_empty() {
    let mut stub = vec![vec![], vec![], vec![node()]].into_iter();
    let mut d = Discovery::new(100);
    let mut delays = 0;
    let found = loop {
        match d.on_fetch(stub.next().expect("stub exhausted")) {
            RetryStep::Retry => delays += 1,
            RetryStep::Finished(v) => break v,
        }
    };
    assert_eq!(delays, 2);
    assert_eq!(d.retry_count(), 2);
    assert_eq!(found.len(), 1);
    assert_eq!(found[0].to_string(), "enode://n@1.2.3.4:5");
}

#[test]
fn retry_ceiling_gives_up_empty() {
    let mut d = Discovery::new(2);
    assert!(matches!(d.on_fetch(vec![]), RetryStep::Retry));
    assert!(matches!(d.on_fetch(vec![]), RetryStep::Retry));
    match d.on_fetch(vec![]) {
        RetryStep::Finished(v) => assert!(v.is_empty()),
        RetryStep::Retry => panic!("ceiling passed"),
    }
}

#[test]
fn node_roles() {
    let m0 = NodeType::Miner { index: 0, miner_count: 2, sealer_mnemonic: String::new() };
    let m1 = NodeType::Miner { index: 1, miner_count: 2, sealer_mnemonic: String::new() };
    let t = NodeType::Transactor { miner_count: 2, sealer_mnemonic: String::new() };
    assert!(m0.is_miner() && !m0.is_transactor() && m0.is_first_miner());
    assert!(m1.is_miner() && !m1.is_first_miner());
    assert!(t.is_transactor() && !t.is_miner() && !t.is_first_miner());
}

#[test]
fn registry_entry_with_path_is_kept() {
    let r = static_enodes_from_body(r#"["enode://id1@10.0.0.1:30303/", "enode://id2@10.0.0.2:30304?discport=0"]"#);
    assert_eq!(r.len(), 2);
    assert_eq!(r[0].to_string(), "enode://id1@10.0.0.1:30303");
    assert_eq!(r[1].to_string(), "enode://id2@10.0.0.2:30304");
}
