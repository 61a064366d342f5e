//! What the launcher computes before it starts the client: the local
//! endpoint, the command line, and the reserved-peers list.
use vstd::prelude::*;
use crate::peer::EthereumNodeUrl;
use crate::text::{chars_of, dec, push_chars, push_decimal, push_str, string_of};
use crate::types::EthereumProgram;

verus! {

/// `http://127.0.0.1:<port>/`
pub open spec fn local_jsonrpc_url_text(port: u16) -> Seq<char> {
    "http://127.0.0.1:"@ + dec(port as nat) + "/"@
}

/// The local client's HTTP control endpoint.
pub fn local_jsonrpc_url(http_jsonrpc_port: u16) -> (r: String)
    ensures
        r@ == local_jsonrpc_url_text(http_jsonrpc_port),
{
    let mut out: Vec<char> = Vec::new();
    push_str(&mut out, "http://127.0.0.1:");
    push_decimal(&mut out, http_jsonrpc_port as u64);
    push_str(&mut out, "/");
    string_of(&out)
}

/// The program to run for each client.
pub open spec fn executable_text(program: EthereumProgram) -> Seq<char> {
    match program {
        EthereumProgram::Parity => "parity"@,
        EthereumProgram::GoEthereum => "geth"@,
    }
}

pub fn executable(program: EthereumProgram) -> (r: String)
    ensures
        r@ == executable_text(program),
{
    let v = match program {
        EthereumProgram::Parity => chars_of("parity"),
        EthereumProgram::GoEthereum => chars_of("geth"),
    };
    string_of(&v)
}

/// The arguments the client is started with.
pub open spec fn launch_args_text(program: EthereumProgram, config_file_path: Seq<char>) -> Seq<
    Seq<char>,
> {
    match program {
        EthereumProgram::Parity => seq![
            "--config="@ + config_file_path,
            "--no-download"@,
            "--no-hardware-wallets"@,
        ],
        EthereumProgram::GoEthereum => Seq::empty(),
    }
}

pub fn launch_args(program: EthereumProgram, config_file_path: &str) -> (r: Vec<String>)
    ensures
        r@.map_values(|a: String| a@) == launch_args_text(program, config_file_path@),
{
    let mut args: Vec<String> = Vec::new();
    match program {
        EthereumProgram::Parity => {
            let mut config: Vec<char> = Vec::new();
            push_str(&mut config, "--config=");
            push_str(&mut config, config_file_path);
            args.push(string_of(&config));
            args.push(string_of(&chars_of("--no-download")));
            args.push(string_of(&chars_of("--no-hardware-wallets")));
        },
        EthereumProgram::GoEthereum => {},
    }
    assert(args@.map_values(|a: String| a@) =~= launch_args_text(program, config_file_path@));
    args
}

/// Each address's text on a line of its own, in order.
pub open spec fn reserved_peers_text(nodes: Seq<EthereumNodeUrl>) -> Seq<char>
    decreases nodes.len(),
{
    if nodes.len() == 0 {
        Seq::empty()
    } else {
        reserved_peers_text(nodes.drop_last()) + nodes.last().text() + seq!['\n']
    }
}

/// The contents of the reserved-peers file.
pub fn reserved_peers(bootnodes: &Vec<EthereumNodeUrl>) -> (r: String)
    ensures
        r@ == reserved_peers_text(bootnodes@),
{
    let mut out: Vec<char> = Vec::new();
    let mut i: usize = 0;
    while i < bootnodes.len()
        invariant
            i <= bootnodes@.len(),
            out@ == reserved_peers_text(bootnodes@.subrange(0, i as int)),
        decreases bootnodes@.len() - i,
    {
        let line = bootnodes[i].to_string();
        let line_chars = chars_of(line.as_str());
        push_chars(&mut out, &line_chars);
        out.push('\n');
        proof {
            let post = bootnodes@.subrange(0, i + 1);
            assert(post.drop_last() =~= bootnodes@.subrange(0, i as int));
            assert(post.last() == bootnodes@[i as int]);
            assert(out@ =~= reserved_peers_text(post));
        }
        i = i + 1;
    }
    assert(bootnodes@.subrange(0, bootnodes@.len() as int) =~= bootnodes@);
    string_of(&out)
}

} // verus!
