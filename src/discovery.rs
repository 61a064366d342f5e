//! Startup discovery: the registry's list of known peers, and the decisions
//! of the bounded retry loop that waits for it.
use vstd::prelude::*;
use crate::peer::{decode_node_url, describes, names_peer, url_parts_of, EthereumNodeUrl};
use crate::text::{dec, push_decimal, push_str, string_of};

verus! {

/// The entries of a JSON text when it is an array: each the string it holds
/// when it is a string.
pub uninterp spec fn json_string_array(t: Seq<char>) -> Option<Seq<Option<Seq<char>>>>;

pub open spec fn entry_views(v: Seq<Option<String>>) -> Seq<Option<Seq<char>>> {
    v.map_values(
        |e: Option<String>|
            match e {
                Some(s) => Some(s@),
                None => None,
            },
    )
}

/// Relies on `serde_json::from_str::<serde_json::Value>` and on
/// `serde_json::Value::as_str`: the entries of a JSON array, in order, each
/// the string it holds when it is a string.
#[verifier::external_body]
fn json_array_entries(text: &str) -> (r: Option<Vec<Option<String>>>)
    ensures
        match r {
            Some(v) => json_string_array(text@) == Some(entry_views(v@)),
            None => json_string_array(text@) is None,
        },
{
    match serde_json::from_str::<serde_json::Value>(text) {
        Ok(serde_json::Value::Array(items)) => Some(
            items.iter().map(|i| i.as_str().map(|s| s.to_owned())).collect(),
        ),
        _ => None,
    }
}

/// The texts among `entries` that are canonical peer addresses, in order.
pub open spec fn accepted(entries: Seq<Option<Seq<char>>>) -> Seq<Seq<char>>
    decreases entries.len(),
{
    if entries.len() == 0 {
        Seq::empty()
    } else {
        let rest = accepted(entries.drop_last());
        match entries.last() {
            Some(s) => if names_peer(url_parts_of(s)) {
                rest.push(s)
            } else {
                rest
            },
            None => rest,
        }
    }
}

/// `r` holds one address for each text of `texts`, in order.
pub open spec fn decodes_to(r: Seq<EthereumNodeUrl>, texts: Seq<Seq<char>>) -> bool {
    &&& r.len() == texts.len()
    &&& forall|i: int| 0 <= i < r.len() ==> describes(url_parts_of(texts[i]), #[trigger] r[i])
}

/// Keeps the entries that are canonical peer addresses, decoded, in order;
/// the others (not a string, not a URL, no identity, host or port) are
/// dropped silently.
pub fn parse_static_enodes(entries: &Vec<Option<String>>) -> (r: Vec<EthereumNodeUrl>)
    ensures
        decodes_to(r@, accepted(entry_views(entries@))),
{
    let mut out: Vec<EthereumNodeUrl> = Vec::new();
    let mut i: usize = 0;
    while i < entries.len()
        invariant
            i <= entries@.len(),
            decodes_to(out@, accepted(entry_views(entries@.subrange(0, i as int)))),
        decreases entries@.len() - i,
    {
        let ghost pre = entry_views(entries@.subrange(0, i as int));
        let ghost post = entry_views(entries@.subrange(0, i + 1));
        assert(post.drop_last() =~= pre);
        assert(post.last() == (match entries@[i as int] {
            Some(s) => Some(s@),
            None => None::<Seq<char>>,
        }));
        let ghost before = out@;
        match &entries[i] {
            Some(s) => {
                match decode_node_url(s.as_str()) {
                    Some(u) => {
                        out.push(u);
                        proof {
                            let acc = accepted(post);
                            assert(acc == accepted(pre).push(s@));
                            assert forall|k: int| 0 <= k < out@.len() implies describes(
                                url_parts_of(acc[k]),
                                #[trigger] out@[k],
                            ) by {
                                if k < before.len() {
                                    assert(out@[k] == before[k]);
                                }
                            }
                            assert(decodes_to(out@, accepted(post)));
                        }
                    },
                    None => {
                        assert(accepted(post) == accepted(pre));
                        assert(decodes_to(out@, accepted(post)));
                    },
                }
            },
            None => {
                assert(accepted(post) == accepted(pre));
                assert(decodes_to(out@, accepted(post)));
            },
        }
        assert(decodes_to(out@, accepted(post)));
        i = i + 1;
    }
    assert(entries@.subrange(0, entries@.len() as int) =~= entries@);
    out
}

/// The peers listed in a registry reply; a body that is not a JSON array
/// gives none.
pub fn static_enodes_from_body(body: &str) -> (r: Vec<EthereumNodeUrl>)
    ensures
        match json_string_array(body@) {
            Some(es) => decodes_to(r@, accepted(es)),
            None => r@.len() == 0,
        },
{
    match json_array_entries(body) {
        Some(entries) => parse_static_enodes(&entries),
        None => Vec::new(),
    }
}

/// `http://<host>:<port>/staticenodes?network=<name>`
pub open spec fn static_enodes_uri_text(host: Seq<char>, port: u16, network: Seq<char>) -> Seq<
    char,
> {
    "http://"@ + host + ":"@ + dec(port as nat) + "/staticenodes?network="@ + network
}

/// Where the registry lists the known peers of a network.
pub fn static_enodes_uri(host: &str, port: u16, network_name: &str) -> (r: String)
    ensures
        r@ == static_enodes_uri_text(host@, port, network_name@),
{
    let mut out: Vec<char> = Vec::new();
    push_str(&mut out, "http://");
    push_str(&mut out, host);
    push_str(&mut out, ":");
    push_decimal(&mut out, port as u64);
    push_str(&mut out, "/staticenodes?network=");
    push_str(&mut out, network_name);
    string_of(&out)
}

/// What the retry loop does after a fetch.
pub enum RetryStep {
    /// Wait the fixed delay, then fetch again.
    Retry,
    /// Stop, with these peers (possibly none).
    Finished(Vec<EthereumNodeUrl>),
}

/// The decisions of the startup retry loop: at most `retry_limit` delays.
pub struct Discovery {
    retries: u64,
    retry_limit: u64,
}

impl Discovery {
    pub closed spec fn retries(&self) -> nat {
        self.retries as nat
    }

    pub closed spec fn limit(&self) -> nat {
        self.retry_limit as nat
    }

    pub fn new(retry_limit: u64) -> (r: Discovery)
        ensures
            r.retries() == 0,
            r.limit() == retry_limit,
    {
        Discovery { retries: 0, retry_limit }
    }

    /// The delays taken so far.
    pub fn retry_count(&self) -> (r: u64)
        ensures
            r == self.retries(),
    {
        self.retries
    }

    /// Takes what a fetch gave (empty after a transport failure): a non-empty
    /// list ends the loop; an empty one asks for another try while the
    /// ceiling is not reached, and ends the loop with nothing once it is.
    pub fn on_fetch(&mut self, nodes: Vec<EthereumNodeUrl>) -> (r: RetryStep)
        requires
            old(self).retries() <= old(self).limit(),
        ensures
            final(self).limit() == old(self).limit(),
            final(self).retries() <= final(self).limit(),
            nodes@.len() > 0 ==> (r matches RetryStep::Finished(v) && v@ == nodes@)
                && final(self).retries() == old(self).retries(),
            nodes@.len() == 0 && old(self).retries() < old(self).limit() ==> r is Retry
                && final(self).retries() == old(self).retries() + 1,
            nodes@.len() == 0 && old(self).retries() == old(self).limit() ==> (r matches RetryStep::Finished(
                v,
            ) && v@.len() == 0) && final(self).retries() == old(self).retries(),
    {
        if nodes.len() > 0 {
            return RetryStep::Finished(nodes);
        }
        if self.retries < self.retry_limit {
            self.retries = self.retries + 1;
            RetryStep::Retry
        } else {
            RetryStep::Finished(nodes)
        }
    }
}

} // verus!
