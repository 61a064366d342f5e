use bootnode_sidecar::launcher::{executable, launch_args, local_jsonrpc_url, reserved_peers};
use bootnode_sidecar::peer::{EthereumNodeUrl, HostAddr};
use bootnode_sidecar::types::EthereumProgram;

#[test]
fn local_endpoint_url() {
    assert_eq!(local_jsonrpc_url(8545), "http://127.0.0.1:8545/");
    assert_eq!(local_jsonrpc_url(0), "http://127.0.0.1:0/");
}

#[test]
fn client_command_line() {
    assert_eq!(executable(EthereumProgram::Parity), "parity");
    assert_eq!(executable(EthereumProgram::GoEthereum), "geth");
    assert_eq!(
        launch_args(EthereumProgram::Parity, "/parity-config/config.toml"),
        vec![
            "--config=/parity-config/config.toml".to_string(),
            "--no-download".to_string(),
            "--no-hardware-wallets".to_string()
        ]
    );
    assert!(launch_args(EthereumProgram::GoEthereum, "/x").is_empty());
}

#[test]
fn reserved_peers_one_per_line() {
    let nodes = vec![
        EthereumNodeUrl { node_id: "a1".to_string(), addr: HostAddr { a: 10, b: 0, c: 0, d: 1 }, port: 30303 },
        EthereumNodeUrl { node_id: "b2".to_string(), addr: HostAddr { a: 10, b: 0, c: 0, d: 2 }, port: 30304 },
    ];
    assert_eq!(
        reserved_peers(&nodes),
        "enode://a1@10.0.0.1:30303\nenode://b2@10.0.0.2:30304\n"
    );
    assert_eq!(reserved_peers(&Vec::new()), "");
}
