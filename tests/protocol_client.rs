use bootnode_sidecar::error::Error;
use bootnode_sidecar::rpc::{
    enode_from_output, enode_from_text, envelope_text, extract_result,
    JsonRpcClient, JsonRpcOutput,
};
use bootnode_sidecar::peer::HostAddr;

#[test]
fn ids_start_at_zero_and_increase() {
    let mut c = JsonRpcClient::new(&"http://127.0.0.1:8545/".to_string());
    assert_eq!(c.host(), "http://127.0.0.1:8545/");
    let a = c.parity_enode().expect("id");
    let b = c.parity_enode().expect("id");
    let d = c.request("net_peerCount", &vec![]).expect("id");
    assert_eq!((a.id, b.id, d.id), (0, 1, 2));
}

#[test]
fn request_envelope_is_exact() {
    let mut c = JsonRpcClient::new(&"http://127.0.0.1:8545/".to_string());
    let a = c.parity_enode().expect("id");
    assert_eq!(a.body, r#"{"jsonrpc":"2.0","method":"parity_enode","params":[],"id":0}"#);
    let b = c
        .request("eth_getBalance", &vec![r#""0x00""#.to_string(), r#""latest""#.to_string()])
        .expect("id");
    assert_eq!(
        b.body,
        r#"{"jsonrpc":"2.0","method":"eth_getBalance","params":["0x00","latest"],"id":1}"#
    );
}

#[test]
fn envelope_quotes_nothing_itself() {
    assert_eq!(
        envelope_text(r#""m""#, &vec!["1".to_string()], 42),
        r#"{"jsonrpc":"2.0","method":"m","params":[1],"id":42}"#
    );
}

#[test]
fn method_name_is_escaped() {
    let mut c = JsonRpcClient::new(&"x".to_string());
    let r = c.request("a\"b", &vec![]).expect("id");
    assert_eq!(r.body, r#"{"jsonrpc":"2.0","method":"a\"b","params":[],"id":0}"#);
}

#[test]
fn extract_result_classifies() {
    assert_eq!(extract_result(JsonRpcOutput::Success("7".to_string())).ok(), Some("7".to_string()));
    match extract_result(JsonRpcOutput::Failure(r#"{"code":-1}"#.to_string())) {
        Err(Error::JsonRpc(p)) => assert_eq!(p, r#"{"code":-1}"#),
        other => panic!("unexpected {:?}", other),
    }
}

#[test]
fn own_address_from_success_reply() {
    let out = JsonRpcOutput::Success(r#""enode://abcd@127.0.0.1:30303""#.to_string());
    let u = enode_from_output(out).expect("address");
    assert_eq!(u.node_id, "abcd");
    assert_eq!(u.addr, HostAddr { a: 127, b: 0, c: 0, d: 1 });
    assert_eq!(u.port, 30303);
}

#[test]
fn own_address_from_error_reply() {
    let payload = r#"{"code":-32601,"message":"Method not found"}"#;
    match enode_from_output(JsonRpcOutput::Failure(payload.to_string())) {
        Err(Error::JsonRpc(p)) => assert_eq!(p, payload),
        other => panic!("unexpected {:?}", other),
    }
}

#[test]
fn own_address_decode_errors() {
    assert!(matches!(enode_from_output(JsonRpcOutput::Success("42".to_string())), Err(Error::Decode)));
    assert!(matches!(
        enode_from_output(JsonRpcOutput::Success(r#""not-a-url""#.to_string())),
        Err(Error::Decode)
    ));
    assert!(matches!(
        enode_from_output(JsonRpcOutput::Success(r#""enode://@1.2.3.4:5""#.to_string())),
        Err(Error::Decode)
    ));
    assert!(matches!(enode_from_text("enode://ab@1.2.3.4"), Err(Error::Decode)));
}

#[test]
fn result_string_is_unescaped() {
    let out = JsonRpcOutput::Success(r#""enode:\/\/ab\u0063d@1.2.3.4:5""#.to_string());
    let u = enode_from_output(out).expect("address");
    assert_eq!(u.node_id, "abcd");
    assert_eq!(u.to_string(), "enode://abcd@1.2.3.4:5");
}

#[test]
fn own_address_from_success_body() {
    let u = bootnode_sidecar::rpc::own_address_from_reply(
        r#"{"result": "enode://abcd@127.0.0.1:30303", "id": 0}"#,
    )
    .expect("address");
    assert_eq!(u.node_id, "abcd");
    assert_eq!(u.addr, HostAddr { a: 127, b: 0, c: 0, d: 1 });
    assert_eq!(u.port, 30303);
}

#[test]
fn own_address_from_error_body() {
    let body = r#"{"jsonrpc": "2.0", "error": {"code": -32601, "message": "Method not found"}, "id": 0}"#;
    match bootnode_sidecar::rpc::own_address_from_reply(body) {
        Err(Error::JsonRpc(p)) => assert_eq!(p, r#"{"code":-32601,"message":"Method not found"}"#),
        other => panic!("unexpected {:?}", other),
    }
}

#[test]
fn malformed_body_is_transport_failure() {
    assert!(matches!(bootnode_sidecar::rpc::read_reply("<html>"), Err(Error::Transport)));
    assert!(matches!(bootnode_sidecar::rpc::read_reply(r#"{"id": 0}"#), Err(Error::Transport)));
    assert!(matches!(
        bootnode_sidecar::rpc::own_address_from_reply(""),
        Err(Error::Transport)
    ));
}

#[test]
fn reply_result_is_json_text() {
    match bootnode_sidecar::rpc::read_reply(r#"{"jsonrpc":"2.0","result":[1,2],"id":3}"#) {
        Ok(JsonRpcOutput::Success(t)) => assert_eq!(t, "[1,2]"),
        _ => panic!("expected a success"),
    }
}

#[test]
fn method_name_controls_are_escaped() {
    let mut c = JsonRpcClient::new(&"x".to_string());
    let r = c.request("a\u{1}\n\\\u{1f}é", &vec![]).expect("id");
    assert_eq!(
        r.body,
        "{\"jsonrpc\":\"2.0\",\"method\":\"a\\u0001\\n\\\\\\u001fé\",\"params\":[],\"id\":0}"
    );
}
