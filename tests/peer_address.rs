use bootnode_sidecar::peer::{decode_node_url, EthereumNodeUrl, HostAddr};

fn url(id: &str, a: u8, b: u8, c: u8, d: u8, port: u16) -> EthereumNodeUrl {
    EthereumNodeUrl { node_id: id.to_string(), addr: HostAddr { a, b, c, d }, port }
}

#[test]
fn encodes_canonical_text() {
    assert_eq!(url("abcd", 127, 0, 0, 1, 30303).to_string(), "enode://abcd@127.0.0.1:30303");
    assert_eq!(url("Z9", 0, 0, 0, 0, 0).to_string(), "enode://Z9@0.0.0.0:0");
    assert_eq!(
        url("ff", 255, 255, 255, 255, 65535).to_string(),
        "enode://ff@255.255.255.255:65535"
    );
}

#[test]
fn host_text_is_dotted_decimal() {
    assert_eq!(HostAddr { a: 10, b: 0, c: 200, d: 7 }.to_string(), "10.0.200.7");
}

#[test]
fn decodes_components() {
    let u = decode_node_url("enode://abcd@127.0.0.1:30303").expect("valid address");
    assert_eq!(u.node_id, "abcd");
    assert_eq!(u.addr, HostAddr { a: 127, b: 0, c: 0, d: 1 });
    assert_eq!(u.port, 30303);
}

#[test]
fn decode_then_encode_gives_same_text() {
    for s in [
        "enode://abcd@127.0.0.1:30303",
        "enode://id1@10.0.0.1:30303",
        "enode://A0b1C2@255.0.10.99:1",
        "enode://x@0.0.0.0:0",
        "enode://deadbeef@192.168.1.254:65535",
    ] {
        let u = decode_node_url(s).expect("valid address");
        assert_eq!(u.to_string(), s);
    }
}

#[test]
fn encode_then_decode_gives_same_address() {
    let u = url("c0ffee", 8, 8, 4, 4, 8545);
    let back = decode_node_url(&u.to_string()).expect("valid address");
    assert_eq!(back.node_id, u.node_id);
    assert_eq!(back.addr, u.addr);
    assert_eq!(back.port, u.port);
}

#[test]
fn rejects_malformed_texts() {
    for s in [
        "",
        "not-a-url",
        "enode://@10.0.0.2:30303",
        "http://abcd@10.0.0.1:30303",
        "enode://abcd@10.0.0.1",
        "enode://abcd@10.0.0.1:",
        "enode://abcd@10.0.0:30303",
        "enode://abcd@10.0.0.256:30303",
        "enode://abcd@10.0.0.01:30303",
        "enode://abcd@10.0.0.1:65536",
        "enode://abcd10.0.0.1:30303",
        "enode://abcd@host:30303",
    ] {
        assert!(decode_node_url(s).is_none(), "accepted {:?}", s);
    }
}

#[test]
fn accepts_any_url_naming_a_peer() {
    for (s, id, port) in [
        ("enode://id1@10.0.0.1:30303/", "id1", 30303),
        ("enode://abcd@10.0.0.1:30303?discport=30301", "abcd", 30303),
        ("ENODE://abcd@10.0.0.1:30303", "abcd", 30303),
        ("enode://abcd@10.0.0.1:030303", "abcd", 30303),
        ("enode://ab-cd@10.0.0.1:30303#x", "ab-cd", 30303),
    ] {
        let u = decode_node_url(s).unwrap_or_else(|| panic!("rejected {:?}", s));
        assert_eq!(u.node_id, id);
        assert_eq!(u.addr, HostAddr { a: 10, b: 0, c: 0, d: 1 });
        assert_eq!(u.port, port);
        assert_eq!(u.to_string(), format!("enode://{}@10.0.0.1:{}", id, port));
    }
}

#[test]
fn rejects_hosts_that_are_not_ipv4() {
    for s in [
        "enode://abcd@[::1]:30303",
        "enode://abcd@example.com:30303",
        "enode://abcd@1.2.3.4.5:30303",
    ] {
        assert!(decode_node_url(s).is_none(), "accepted {:?}", s);
    }
}
