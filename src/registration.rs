//! The registration state machine: on each trigger token it fetches this
//! node's own address from the local client and publishes it to the registry.
//!
//! The machine performs no I/O itself. Each call of `advance` takes what the
//! operation in flight produced and says which operation to start next.
use vstd::prelude::*;
use crate::error::Error;
use crate::peer::{host_text, EthereumNodeUrl};
use crate::rpc::{envelope, json_quoted, quote_json, JsonRpcClient, RpcRequest};
use crate::text::{chars_of, dec, push_decimal, push_str, string_of};
use crate::types::{EthereumProgram, NodeType};

verus! {

#[derive(Clone, Copy, Debug, PartialEq, Eq, Structural)]
pub enum State {
    Idle,
    FetchingEthereumNodeUrl,
    UpdatingEthereumNodeUrl,
}

pub open spec fn state_name(s: State) -> Seq<char> {
    match s {
        State::Idle => "Idle"@,
        State::FetchingEthereumNodeUrl => "FetchingEnodeUrl"@,
        State::UpdatingEthereumNodeUrl => "UpdatingEnodeUrl"@,
    }
}

impl State {
    pub fn to_string(&self) -> (r: String)
        ensures
            r@ == state_name(*self),
    {
        let v = match self {
            State::Idle => chars_of("Idle"),
            State::FetchingEthereumNodeUrl => chars_of("FetchingEnodeUrl"),
            State::UpdatingEthereumNodeUrl => chars_of("UpdatingEnodeUrl"),
        };
        string_of(&v)
    }
}

/// What the operation in flight produced since the last call.
#[derive(Debug)]
pub enum Progress {
    /// Nothing is ready yet (or nothing is in flight).
    Nothing,
    /// The own-address fetch finished.
    Fetched(Result<EthereumNodeUrl, Error>),
    /// The publish call finished, with whether the registry accepted it.
    Published(bool),
}

/// The payload of a registry write.
#[derive(Clone, Debug)]
pub struct PublishRequest {
    pub enode: String,
    pub port: u16,
    pub ip: String,
    pub public_ip: String,
    pub network: String,
    pub miner: bool,
}

/// What the driver has to do after a call of `advance`.
pub enum Action {
    /// Nothing to start.
    Wait,
    /// Send this request to the local client.
    Fetch(RpcRequest),
    /// Send this payload to the registry.
    Publish(PublishRequest),
    /// The fetch failed; the machine is idle again.
    Failed(Error),
    /// The publish call ended, with its outcome; the machine is idle again.
    Updated(bool),
    /// The progress did not belong to the current state; the machine was reset.
    Reset(Error),
}

/// The three kinds of progress, as the state transitions see them.
pub enum ProgressKind {
    Nothing,
    FetchOk,
    FetchErr,
    Published,
}

pub open spec fn kind_of(p: Progress) -> ProgressKind {
    match p {
        Progress::Nothing => ProgressKind::Nothing,
        Progress::Fetched(Ok(_)) => ProgressKind::FetchOk,
        Progress::Fetched(Err(_)) => ProgressKind::FetchErr,
        Progress::Published(_) => ProgressKind::Published,
    }
}

/// One transition on (state, queued tokens). A token is consumed only when
/// the machine is idle; progress that does not belong to the state resets it.
pub open spec fn next(s: State, pending: nat, k: ProgressKind) -> (State, nat) {
    match (s, k) {
        (State::Idle, ProgressKind::Nothing) => if pending > 0 {
            (State::FetchingEthereumNodeUrl, (pending - 1) as nat)
        } else {
            (State::Idle, pending)
        },
        (State::FetchingEthereumNodeUrl, ProgressKind::Nothing) => (s, pending),
        (State::FetchingEthereumNodeUrl, ProgressKind::FetchOk) => (
            State::UpdatingEthereumNodeUrl,
            pending,
        ),
        (State::UpdatingEthereumNodeUrl, ProgressKind::Nothing) => (s, pending),
        _ => (State::Idle, pending),
    }
}

/// The transitions taken along a sequence of progress kinds.
pub open spec fn run(s: State, pending: nat, ks: Seq<ProgressKind>) -> (State, nat)
    decreases ks.len(),
{
    if ks.len() == 0 {
        (s, pending)
    } else {
        let (s2, n2) = next(s, pending, ks[0]);
        run(s2, n2, ks.drop_first())
    }
}

/// One fetch-and-publish cycle as it is seen from Idle: the token is taken,
/// the own address arrives, the publish call ends.
pub open spec fn full_cycle() -> Seq<ProgressKind> {
    seq![ProgressKind::Nothing, ProgressKind::FetchOk, ProgressKind::Published]
}

pub open spec fn cycles(n: nat) -> Seq<ProgressKind>
    decreases n,
{
    if n == 0 {
        Seq::empty()
    } else {
        full_cycle() + cycles((n - 1) as nat)
    }
}

/// What ends the cycle in flight in state `s`.
pub open spec fn finish(s: State) -> Seq<ProgressKind> {
    match s {
        State::Idle => Seq::empty(),
        State::FetchingEthereumNodeUrl => seq![ProgressKind::FetchOk, ProgressKind::Published],
        State::UpdatingEthereumNodeUrl => seq![ProgressKind::Published],
    }
}

proof fn lemma_run_append(s: State, n: nat, a: Seq<ProgressKind>, b: Seq<ProgressKind>)
    ensures
        run(s, n, a + b) == ({
            let (s2, n2) = run(s, n, a);
            run(s2, n2, b)
        }),
    decreases a.len(),
{
    if a.len() > 0 {
        let (s2, n2) = next(s, n, a[0]);
        assert((a + b).drop_first() =~= a.drop_first() + b);
        lemma_run_append(s2, n2, a.drop_first(), b);
    } else {
        assert(a + b =~= b);
    }
}

/// A full cycle from Idle goes through both busy states and takes one token.
pub proof fn law_full_cycle(m: nat)
    ensures
        next(State::Idle, m + 1, ProgressKind::Nothing) == (State::FetchingEthereumNodeUrl, m),
        next(State::FetchingEthereumNodeUrl, m, ProgressKind::FetchOk) == (
            State::UpdatingEthereumNodeUrl,
            m,
        ),
        next(State::UpdatingEthereumNodeUrl, m, ProgressKind::Published) == (State::Idle, m),
        run(State::Idle, m + 1, full_cycle()) == (State::Idle, m),
{
    reveal_with_fuel(run, 4);
}

proof fn lemma_cycles(j: nat, m: nat)
    ensures
        run(State::Idle, j + m, cycles(j)) == (State::Idle, m),
    decreases j,
{
    if j > 0 {
        let k = (j - 1) as nat;
        law_full_cycle(k + m);
        lemma_run_append(State::Idle, j + m, full_cycle(), cycles(k));
        lemma_cycles(k, m);
    } else {
        assert(run(State::Idle, m, Seq::empty()) == (State::Idle, m));
    }
}

/// Tokens queued while a cycle is in flight are never dropped or merged:
/// once that cycle ends, each of the `n` tokens is served by one full
/// fetch-and-publish cycle of its own, one after the other, and after the
/// `n`-th the machine is idle with an empty queue.
pub proof fn law_queued_tokens_each_run_a_cycle(s: State, n: nat)
    ensures
        run(s, n, finish(s)) == (State::Idle, n),
        forall|j: nat|
            j <= n ==> #[trigger] run(s, n, finish(s) + cycles(j)) == (State::Idle, (n - j) as nat),
        run(s, n, finish(s) + cycles(n)) == (State::Idle, 0nat),
{
    reveal_with_fuel(run, 3);
    assert forall|j: nat| j <= n implies #[trigger] run(s, n, finish(s) + cycles(j)) == (
    State::Idle, (n - j) as nat) by {
        lemma_run_append(s, n, finish(s), cycles(j));
        lemma_cycles(j, (n - j) as nat);
    }
}

/// Each call of `advance` takes the transition `next` on the state and the
/// queue (while request ids are left), so the laws on `run` hold of every
/// sequence of calls.
pub proof fn law_advance_follows_next(old: Service, new: Service, progress: Progress, a: Action)
    requires
        Service::advance_post(old, new, progress, a),
        old.client().has_ids(),
    ensures
        (new.state(), new.pending()) == next(old.state(), old.pending(), kind_of(progress)),
{
}

/// The state a progress of the given kind belongs to.
pub open spec fn expected_state(k: ProgressKind) -> State {
    match k {
        ProgressKind::Published => State::UpdatingEthereumNodeUrl,
        ProgressKind::Nothing => State::Idle,
        _ => State::FetchingEthereumNodeUrl,
    }
}

pub open spec fn belongs(s: State, k: ProgressKind) -> bool {
    k is Nothing || s == expected_state(k)
}

/// The registry write that announces `url` for this node.
pub open spec fn publish_of(
    r: PublishRequest,
    public_ip: Seq<char>,
    url: EthereumNodeUrl,
    network: Seq<char>,
    miner: bool,
) -> bool {
    &&& r.enode@ == url.node_id@
    &&& r.port == url.port
    &&& r.ip@ == host_text(url.addr)
    &&& r.public_ip@ == public_ip
    &&& r.network@ == network
    &&& r.miner == miner
}

/// Builds the registry write for `enode_url`.
pub fn new_updater(
    public_ip: &String,
    enode_url: EthereumNodeUrl,
    network_name: String,
    is_miner: bool,
) -> (r: PublishRequest)
    ensures
        publish_of(r, public_ip@, enode_url, network_name@, is_miner),
{
    PublishRequest {
        enode: enode_url.node_id,
        port: enode_url.port,
        ip: enode_url.addr.to_string(),
        public_ip: public_ip.clone(),
        network: network_name,
        miner: is_miner,
    }
}

/// The JSON text of a registry write, fields in this order.
pub open spec fn publish_text(r: PublishRequest) -> Seq<char> {
    "{\"enode\":"@ + json_quoted(r.enode@) + ",\"port\":"@ + dec(r.port as nat) + ",\"ip\":"@
        + json_quoted(r.ip@) + ",\"publicIp\":"@ + json_quoted(r.public_ip@) + ",\"network\":"@
        + json_quoted(r.network@) + ",\"miner\":"@ + (if r.miner {
        "true"@
    } else {
        "false"@
    }) + "}"@
}

/// Writes the JSON body of a registry write.
pub fn publish_body(r: &PublishRequest) -> (b: String)
    ensures
        b@ == publish_text(*r),
{
    let mut out: Vec<char> = Vec::new();
    push_str(&mut out, "{\"enode\":");
    push_str(&mut out, quote_json(r.enode.as_str()).as_str());
    push_str(&mut out, ",\"port\":");
    push_decimal(&mut out, r.port as u64);
    push_str(&mut out, ",\"ip\":");
    push_str(&mut out, quote_json(r.ip.as_str()).as_str());
    push_str(&mut out, ",\"publicIp\":");
    push_str(&mut out, quote_json(r.public_ip.as_str()).as_str());
    push_str(&mut out, ",\"network\":");
    push_str(&mut out, quote_json(r.network.as_str()).as_str());
    push_str(&mut out, ",\"miner\":");
    if r.miner {
        push_str(&mut out, "true");
    } else {
        push_str(&mut out, "false");
    }
    push_str(&mut out, "}");
    string_of(&out)
}

/// `http://<host>:<port>/`
pub open spec fn registry_uri_text(host: Seq<char>, port: u16) -> Seq<char> {
    "http://"@ + host + ":"@ + dec(port as nat) + "/"@
}

/// The registry endpoint that writes go to.
pub fn registry_uri(host: &str, port: u16) -> (r: String)
    ensures
        r@ == registry_uri_text(host@, port),
{
    let mut out: Vec<char> = Vec::new();
    push_str(&mut out, "http://");
    push_str(&mut out, host);
    push_str(&mut out, ":");
    push_decimal(&mut out, port as u64);
    push_str(&mut out, "/");
    string_of(&out)
}

/// The registration service of this node.
pub struct Service {
    network_name: String,
    ethereum_program: EthereumProgram,
    node_type: NodeType,
    bootnode_service_uri: String,
    public_ip: String,
    jsonrpc_client: JsonRpcClient,
    state: State,
    pending: u64,
}

impl Service {
    pub closed spec fn state(&self) -> State {
        self.state
    }

    /// The trigger tokens queued and not yet consumed.
    pub closed spec fn pending(&self) -> nat {
        self.pending as nat
    }

    pub closed spec fn client(&self) -> JsonRpcClient {
        self.jsonrpc_client
    }

    pub closed spec fn network(&self) -> Seq<char> {
        self.network_name@
    }

    pub closed spec fn miner(&self) -> bool {
        self.node_type is Miner
    }

    /// The text of this node's declared public IP.
    pub closed spec fn own_public_ip(&self) -> Seq<char> {
        self.public_ip@
    }

    pub closed spec fn uri(&self) -> Seq<char> {
        self.bootnode_service_uri@
    }

    /// Everything but the state, the queue and the client stays as built.
    pub open spec fn same_setup(&self, other: &Service) -> bool {
        &&& self.network() == other.network()
        &&& self.miner() == other.miner()
        &&& self.own_public_ip() == other.own_public_ip()
        &&& self.uri() == other.uri()
        &&& self.client().endpoint() == other.client().endpoint()
    }

    pub fn new(
        network_name: String,
        ethereum_program: EthereumProgram,
        node_type: NodeType,
        bootnode_service_host: String,
        bootnode_service_port: u16,
        public_ip: String,
        ethereum_node_endpoint: String,
    ) -> (r: Service)
        ensures
            r.state() == State::Idle,
            r.pending() == 0,
            r.network() == network_name@,
            r.miner() == (node_type is Miner),
            r.own_public_ip() == public_ip@,
            r.uri() == registry_uri_text(bootnode_service_host@, bootnode_service_port),
            r.client().endpoint() == ethereum_node_endpoint@,
            r.client().next_id() == 0,
    {
        let uri = registry_uri(bootnode_service_host.as_str(), bootnode_service_port);
        Service {
            network_name,
            ethereum_program,
            node_type,
            bootnode_service_uri: uri,
            public_ip,
            jsonrpc_client: JsonRpcClient::new(&ethereum_node_endpoint),
            state: State::Idle,
            pending: 0,
        }
    }

    /// The registry endpoint that writes go to.
    pub fn bootnode_service_uri(&self) -> (r: String)
        ensures
            r@ == self.uri(),
    {
        self.bootnode_service_uri.clone()
    }

    pub fn current_state(&self) -> (r: State)
        ensures
            r == self.state(),
    {
        self.state
    }

    pub fn pending_events(&self) -> (r: u64)
        ensures
            r == self.pending(),
    {
        self.pending
    }

    /// Whether another token fits in the queue.
    pub open spec fn can_queue(&self) -> bool {
        self.pending() < u64::MAX
    }

    pub fn has_room(&self) -> (r: bool)
        ensures
            r == self.can_queue(),
    {
        self.pending < u64::MAX
    }

    /// Queues one trigger token, whatever the state.
    pub fn send_event(&mut self)
        requires
            old(self).can_queue(),
        ensures
            final(self).pending() == old(self).pending() + 1,
            final(self).state() == old(self).state(),
            final(self).client() == old(self).client(),
            final(self).same_setup(old(self)),
    {
        self.pending = self.pending + 1;
    }

    fn reset(&mut self)
        ensures
            final(self).state() == State::Idle,
            final(self).pending() == old(self).pending(),
            final(self).client() == old(self).client(),
            final(self).same_setup(old(self)),
    {
        self.state = State::Idle;
    }

    fn invalid_transfer(&self, expected: State) -> (r: Error)
        ensures
            r matches Error::InvalidStateTransfer(c, e) && c@ == state_name(self.state()) && e@
                == state_name(expected),
    {
        Error::InvalidStateTransfer(self.state.to_string(), expected.to_string())
    }

    /// What one call of `advance` does: `old` is the machine before, `new`
    /// after, and `a` the action returned.
    pub open spec fn advance_post(old: Service, new: Service, progress: Progress, a: Action) -> bool {
        &&& new.same_setup(&old)
        &&& ({
            let (s, n) = next(old.state(), old.pending(), kind_of(progress));
            &&& new.pending() == n
            &&& new.state() == s || (a is Failed && new.state() == State::Idle
                && !old.client().has_ids())
        })
        &&& !belongs(old.state(), kind_of(progress)) ==> (a matches Action::Reset(
            Error::InvalidStateTransfer(c, e),
        ) && c@ == state_name(old.state()) && e@ == state_name(
            expected_state(kind_of(progress)),
        ))
        &&& belongs(old.state(), kind_of(progress)) ==> match (old.state(), progress) {
            (State::Idle, _) => if old.pending() > 0 {
                match a {
                    Action::Fetch(q) => {
                        &&& old.client().has_ids()
                        &&& q.id == old.client().next_id()
                        &&& new.client().next_id() == q.id + 1
                        &&& q.body@ == envelope(json_quoted("parity_enode"@), Seq::empty(), q.id as nat)
                    },
                    Action::Failed(e) => !old.client().has_ids() && e is Transport,
                    _ => false,
                }
            } else {
                a is Wait
            },
            (State::FetchingEthereumNodeUrl, Progress::Fetched(Ok(url))) => match a {
                Action::Publish(r) => publish_of(
                    r,
                    old.own_public_ip(),
                    url,
                    old.network(),
                    old.miner(),
                ),
                _ => false,
            },
            (State::FetchingEthereumNodeUrl, Progress::Fetched(Err(e))) => a == Action::Failed(e),
            (State::UpdatingEthereumNodeUrl, Progress::Published(ok)) => a == Action::Updated(ok),
            _ => a is Wait,
        }
        &&& !(old.state() == State::Idle && old.pending() > 0) ==> new.client() == old.client()
    }

    /// Advances the machine by what the operation in flight produced.
    ///
    /// When the client has no request id left, the token is still consumed
    /// and the fetch is reported failed with a transport error.
    pub fn advance(&mut self, progress: Progress) -> (a: Action)
        ensures
            Self::advance_post(*old(self), *final(self), progress, a),
    {
        match (self.state, progress) {
            (State::Idle, Progress::Nothing) => {
                if self.pending == 0 {
                    return Action::Wait;
                }
                self.pending = self.pending - 1;
                match self.jsonrpc_client.parity_enode() {
                    Some(q) => {
                        self.state = State::FetchingEthereumNodeUrl;
                        Action::Fetch(q)
                    },
                    None => Action::Failed(Error::Transport),
                }
            },
            (State::FetchingEthereumNodeUrl, Progress::Nothing) => Action::Wait,
            (State::UpdatingEthereumNodeUrl, Progress::Nothing) => Action::Wait,
            (State::FetchingEthereumNodeUrl, Progress::Fetched(Ok(url))) => {
                let req = new_updater(
                    &self.public_ip,
                    url,
                    self.network_name.clone(),
                    self.node_type.is_miner(),
                );
                self.state = State::UpdatingEthereumNodeUrl;
                Action::Publish(req)
            },
            (State::FetchingEthereumNodeUrl, Progress::Fetched(Err(e))) => {
                self.reset();
                Action::Failed(e)
            },
            (State::UpdatingEthereumNodeUrl, Progress::Published(ok)) => {
                self.reset();
                Action::Updated(ok)
            },
            (_, Progress::Fetched(_)) => {
                let err = self.invalid_transfer(State::FetchingEthereumNodeUrl);
                self.reset();
                Action::Reset(err)
            },
            (_, Progress::Published(_)) => {
                let err = self.invalid_transfer(State::UpdatingEthereumNodeUrl);
                self.reset();
                Action::Reset(err)
            },
        }
    }
}

} // verus!
