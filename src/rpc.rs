//! The local protocol client: numbered request envelopes and the
//! classification of replies.
use vstd::prelude::*;
use crate::error::Error;
use crate::peer::{decode_node_url, describes, names_peer, url_parts_of, EthereumNodeUrl};
use crate::text::{chars_of, dec, digit_char, push_chars, push_decimal, push_str, string_of};

verus! {

/// A lowercase hexadecimal digit.
pub open spec fn hex_digit(d: nat) -> char {
    if d < 10 {
        digit_char(d)
    } else if d == 10 {
        'a'
    } else if d == 11 {
        'b'
    } else if d == 12 {
        'c'
    } else if d == 13 {
        'd'
    } else if d == 14 {
        'e'
    } else {
        'f'
    }
}

/// How a JSON string literal writes one character: quote and backslash are
/// escaped, the five named controls by their letter, the other controls below
/// 0x20 as `\u00XX`; every other character stands as it is.
pub open spec fn json_escape(c: char) -> Seq<char> {
    if c == '"' {
        seq!['\\', '"']
    } else if c == '\\' {
        seq!['\\', '\\']
    } else if c == '\u{8}' {
        seq!['\\', 'b']
    } else if c == '\t' {
        seq!['\\', 't']
    } else if c == '\n' {
        seq!['\\', 'n']
    } else if c == '\u{c}' {
        seq!['\\', 'f']
    } else if c == '\r' {
        seq!['\\', 'r']
    } else if (c as u32) < 0x20 {
        seq!['\\', 'u', '0', '0', hex_digit((c as u32 / 16) as nat), hex_digit((c as u32 % 16) as nat)]
    } else {
        seq![c]
    }
}

pub open spec fn json_escaped(s: Seq<char>) -> Seq<char>
    decreases s.len(),
{
    if s.len() == 0 {
        Seq::empty()
    } else {
        json_escaped(s.drop_last()) + json_escape(s.last())
    }
}

/// The JSON string literal of `s`.
pub open spec fn json_quoted(s: Seq<char>) -> Seq<char> {
    seq!['"'] + json_escaped(s) + seq!['"']
}

/// The string that a JSON text denotes, when it is a string literal.
pub uninterp spec fn json_string_value(t: Seq<char>) -> Option<Seq<char>>;

/// Relies on `serde_json::to_string` for a `str`, which cannot fail: the
/// string in quotes, escaped as its `ESCAPE` table says.
#[verifier::external_body]
pub(crate) fn quote_json(s: &str) -> (r: String)
    ensures
        r@ == json_quoted(s@),
{
    serde_json::to_string(s).unwrap_or_default()
}

/// Relies on `serde_json::from_str::<String>`: the string a JSON text holds.
#[verifier::external_body]
pub(crate) fn json_string(text: &str) -> (r: Option<String>)
    ensures
        match r {
            Some(x) => json_string_value(text@) == Some(x@),
            None => json_string_value(text@) is None,
        },
{
    serde_json::from_str::<String>(text).ok()
}

/// The texts of `ps` separated by commas.
pub open spec fn joined(ps: Seq<Seq<char>>) -> Seq<char>
    decreases ps.len(),
{
    if ps.len() == 0 {
        Seq::empty()
    } else if ps.len() == 1 {
        ps[0]
    } else {
        joined(ps.drop_last()) + seq![','] + ps.last()
    }
}

pub open spec fn views(ps: Seq<String>) -> Seq<Seq<char>> {
    ps.map_values(|p: String| p@)
}

/// A version 2.0 request envelope for an already quoted method name.
pub open spec fn envelope(quoted_method: Seq<char>, params: Seq<Seq<char>>, id: nat) -> Seq<char> {
    "{\"jsonrpc\":\"2.0\",\"method\":"@ + quoted_method + ",\"params\":["@ + joined(params)
        + "],\"id\":"@ + dec(id) + "}"@
}

/// Writes the request envelope around a quoted method name and the JSON
/// texts of the parameters, in order.
pub fn envelope_text(quoted_method: &str, params: &Vec<String>, id: u64) -> (r: String)
    ensures
        r@ == envelope(quoted_method@, views(params@), id as nat),
{
    let mut out: Vec<char> = Vec::new();
    push_str(&mut out, "{\"jsonrpc\":\"2.0\",\"method\":");
    push_str(&mut out, quoted_method);
    push_str(&mut out, ",\"params\":[");
    let ghost head = out@;
    let mut i: usize = 0;
    while i < params.len()
        invariant
            i <= params@.len(),
            out@ == head + joined(views(params@.subrange(0, i as int))),
        decreases params@.len() - i,
    {
        if i > 0 {
            out.push(',');
        }
        push_str(&mut out, params[i].as_str());
        proof {
            let pre = views(params@.subrange(0, i as int));
            let post = views(params@.subrange(0, i + 1));
            assert(post.drop_last() =~= pre);
            assert(post.last() == params@[i as int]@);
            if i == 0 {
                assert(pre =~= Seq::<Seq<char>>::empty());
                assert(out@ =~= head + joined(post));
            } else {
                assert(out@ =~= head + joined(post));
            }
        }
        i = i + 1;
    }
    assert(params@.subrange(0, params@.len() as int) =~= params@);
    push_str(&mut out, "],\"id\":");
    push_decimal(&mut out, id);
    push_str(&mut out, "}");
    assert(out@ =~= envelope(quoted_method@, views(params@), id as nat));
    string_of(&out)
}

/// A request ready to be sent: its id and its body.
pub struct RpcRequest {
    pub id: u64,
    pub body: String,
}

/// A reply: the JSON text of its result, or of its error.
#[derive(Clone, Debug)]
pub enum JsonRpcOutput {
    Success(String),
    Failure(String),
}

/// Numbers the calls to one endpoint.
pub struct JsonRpcClient {
    host: String,
    counter: u64,
}

impl JsonRpcClient {
    pub closed spec fn endpoint(&self) -> Seq<char> {
        self.host@
    }

    /// The id the next call gets.
    pub closed spec fn next_id(&self) -> nat {
        self.counter as nat
    }

    pub fn new(host: &String) -> (r: JsonRpcClient)
        ensures
            r.endpoint() == host@,
            r.next_id() == 0,
    {
        let h = chars_of(host.as_str());
        JsonRpcClient { host: string_of(&h), counter: 0 }
    }

    /// The endpoint the requests go to.
    pub fn host(&self) -> (r: String)
        ensures
            r@ == self.endpoint(),
    {
        let h = chars_of(self.host.as_str());
        string_of(&h)
    }

    /// Whether another id can be handed out: ids are never reused.
    pub open spec fn has_ids(&self) -> bool {
        self.next_id() < u64::MAX
    }

    /// Numbers a call of `method` with the given parameters: ids start at zero
    /// and grow by one with each call. There is no call once the ids run out.
    pub fn request(&mut self, method: &str, params: &Vec<String>) -> (r: Option<RpcRequest>)
        ensures
            final(self).endpoint() == old(self).endpoint(),
            match r {
                Some(q) => {
                    &&& old(self).has_ids()
                    &&& q.id == old(self).next_id()
                    &&& final(self).next_id() == old(self).next_id() + 1
                    &&& q.body@ == envelope(json_quoted(method@), views(params@), q.id as nat)
                },
                None => !old(self).has_ids() && final(self).next_id() == old(self).next_id(),
            },
    {
        if self.counter == u64::MAX {
            return None;
        }
        let id = self.counter;
        self.counter = self.counter + 1;
        let quoted = quote_json(method);
        Some(RpcRequest { id, body: envelope_text(quoted.as_str(), params, id) })
    }

    /// The call that asks the client for its own node address.
    pub fn parity_enode(&mut self) -> (r: Option<RpcRequest>)
        ensures
            final(self).endpoint() == old(self).endpoint(),
            match r {
                Some(q) => {
                    &&& old(self).has_ids()
                    &&& q.id == old(self).next_id()
                    &&& final(self).next_id() == old(self).next_id() + 1
                    &&& q.body@ == envelope(json_quoted("parity_enode"@), Seq::empty(), q.id as nat)
                },
                None => !old(self).has_ids() && final(self).next_id() == old(self).next_id(),
            },
    {
        let params: Vec<String> = Vec::new();
        assert(views(params@) =~= Seq::<Seq<char>>::empty());
        self.request("parity_enode", &params)
    }
}

/// What a reply body holds: `(true, t)` for a success whose result has the
/// JSON text `t`, `(false, t)` for a failure whose error object has the JSON
/// text `t`; nothing when the body is not a reply.
pub uninterp spec fn rpc_output_of(body: Seq<char>) -> Option<(bool, Seq<char>)>;

/// Relies on `serde_json::from_str::<jsonrpc_core::Output>` to read a reply,
/// and on `serde_json` to write back its result value or error object.
#[verifier::external_body]
fn parse_output(body: &str) -> (r: Option<JsonRpcOutput>)
    ensures
        match r {
            Some(JsonRpcOutput::Success(t)) => rpc_output_of(body@) == Some((true, t@)),
            Some(JsonRpcOutput::Failure(e)) => rpc_output_of(body@) == Some((false, e@)),
            None => rpc_output_of(body@) is None,
        },
{
    match serde_json::from_str::<jsonrpc_core::Output>(body) {
        Ok(jsonrpc_core::Output::Success(s)) => Some(JsonRpcOutput::Success(s.result.to_string())),
        Ok(jsonrpc_core::Output::Failure(f)) => serde_json::to_string(&f.error).ok().map(
            JsonRpcOutput::Failure,
        ),
        Err(_) => None,
    }
}

/// Reads a reply body; a body that is no reply is a transport failure.
pub fn read_reply(body: &str) -> (r: Result<JsonRpcOutput, Error>)
    ensures
        match rpc_output_of(body@) {
            Some((true, t)) => r matches Ok(JsonRpcOutput::Success(x)) && x@ == t,
            Some((false, t)) => r matches Ok(JsonRpcOutput::Failure(x)) && x@ == t,
            None => r matches Err(Error::Transport),
        },
{
    match parse_output(body) {
        Some(out) => Ok(out),
        None => Err(Error::Transport),
    }
}

/// The node address in a reply body to `parity_enode`.
pub fn own_address_from_reply(body: &str) -> (r: Result<EthereumNodeUrl, Error>)
    ensures
        match rpc_output_of(body@) {
            None => r matches Err(Error::Transport),
            Some((false, t)) => r matches Err(Error::JsonRpc(x)) && x@ == t,
            Some((true, t)) => match json_string_value(t) {
                None => r matches Err(Error::Decode),
                Some(s) => match r {
                    Ok(u) => describes(url_parts_of(s), u),
                    Err(e) => !names_peer(url_parts_of(s)) && e is Decode,
                },
            },
        },
{
    match read_reply(body) {
        Ok(out) => enode_from_output(out),
        Err(e) => Err(e),
    }
}

/// The result of a successful reply; an application error otherwise.
pub fn extract_result(value: JsonRpcOutput) -> (r: Result<String, Error>)
    ensures
        match value {
            JsonRpcOutput::Success(t) => r == Ok::<String, Error>(t),
            JsonRpcOutput::Failure(e) => r == Err::<String, Error>(Error::JsonRpc(e)),
        },
{
    match value {
        JsonRpcOutput::Success(t) => Ok(t),
        JsonRpcOutput::Failure(e) => Err(Error::JsonRpc(e)),
    }
}

/// Decodes a node address from a decoded JSON string.
pub fn enode_from_text(s: &str) -> (r: Result<EthereumNodeUrl, Error>)
    ensures
        match r {
            Ok(u) => describes(url_parts_of(s@), u),
            Err(e) => !names_peer(url_parts_of(s@)) && e is Decode,
        },
{
    match decode_node_url(s) {
        Some(u) => Ok(u),
        None => Err(Error::Decode),
    }
}

/// The node address in a reply to `parity_enode`.
pub fn enode_from_output(value: JsonRpcOutput) -> (r: Result<EthereumNodeUrl, Error>)
    ensures
        match value {
            JsonRpcOutput::Failure(e) => r == Err::<EthereumNodeUrl, Error>(Error::JsonRpc(e)),
            JsonRpcOutput::Success(t) => match json_string_value(t@) {
                None => r matches Err(Error::Decode),
                Some(s) => match r {
                    Ok(u) => describes(url_parts_of(s), u),
                    Err(e) => !names_peer(url_parts_of(s)) && e is Decode,
                },
            },
        },
{
    let t = match extract_result(value) {
        Ok(t) => t,
        Err(e) => {
            return Err(e);
        },
    };
    match json_string(t.as_str()) {
        Some(s) => enode_from_text(s.as_str()),
        None => Err(Error::Decode),
    }
}

} // verus!
