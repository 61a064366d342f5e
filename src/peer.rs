//! Peer addresses and their canonical text form `enode://<id>@<a.b.c.d>:<port>`.
use vstd::prelude::*;
use crate::text::{
    all_digits, canonical_dec, canonical_value, chars_of, dec, dec_value, is_digit,
    lemma_canonical_dec, lemma_dec_canonical, push_decimal, scan_digits, string_of,
};

verus! {

/// An IPv4 host, by its four octets.
#[derive(Clone, Copy, Debug, PartialEq, Eq, Structural)]
pub struct HostAddr {
    pub a: u8,
    pub b: u8,
    pub c: u8,
    pub d: u8,
}

/// A peer endpoint: node identity, host and port.
#[derive(Clone, Debug)]
pub struct EthereumNodeUrl {
    pub node_id: String,
    pub addr: HostAddr,
    pub port: u16,
}

pub open spec fn scheme_prefix() -> Seq<char> {
    seq!['e', 'n', 'o', 'd', 'e', ':', '/', '/']
}


pub open spec fn host_text(h: HostAddr) -> Seq<char> {
    dec(h.a as nat) + seq!['.'] + dec(h.b as nat) + seq!['.'] + dec(h.c as nat) + seq!['.'] + dec(
        h.d as nat,
    )
}

/// The canonical text of a peer address.
pub open spec fn enode_text(id: Seq<char>, h: HostAddr, port: u16) -> Seq<char> {
    scheme_prefix() + id + seq!['@'] + host_text(h) + seq![':'] + dec(port as nat)
}


impl HostAddr {
    /// The dotted decimal text of the host.
    pub fn to_string(&self) -> (r: String)
        ensures
            r@ == host_text(*self),
    {
        let mut out: Vec<char> = Vec::new();
        push_decimal(&mut out, self.a as u64);
        out.push('.');
        push_decimal(&mut out, self.b as u64);
        out.push('.');
        push_decimal(&mut out, self.c as u64);
        out.push('.');
        push_decimal(&mut out, self.d as u64);
        assert(out@ =~= host_text(*self));
        string_of(&out)
    }
}

impl EthereumNodeUrl {
    pub open spec fn wf(&self) -> bool {
        self.node_id@.len() > 0
    }

    pub open spec fn text(&self) -> Seq<char> {
        enode_text(self.node_id@, self.addr, self.port)
    }

    /// The canonical text `enode://<id>@<host>:<port>`.
    pub fn to_string(&self) -> (r: String)
        ensures
            r@ == self.text(),
    {
        let mut out: Vec<char> = Vec::new();
        out.push('e');
        out.push('n');
        out.push('o');
        out.push('d');
        out.push('e');
        out.push(':');
        out.push('/');
        out.push('/');
        let id = chars_of(self.node_id.as_str());
        let mut i: usize = 0;
        while i < id.len()
            invariant
                i <= id@.len(),
                id@ == self.node_id@,
                out@ == scheme_prefix() + id@.subrange(0, i as int),
            decreases id@.len() - i,
        {
            out.push(id[i]);
            assert(id@.subrange(0, i + 1) =~= id@.subrange(0, i as int).push(id@[i as int]));
            i = i + 1;
        }
        assert(id@.subrange(0, id@.len() as int) =~= id@);
        out.push('@');
        push_decimal(&mut out, self.addr.a as u64);
        out.push('.');
        push_decimal(&mut out, self.addr.b as u64);
        out.push('.');
        push_decimal(&mut out, self.addr.c as u64);
        out.push('.');
        push_decimal(&mut out, self.addr.d as u64);
        out.push(':');
        push_decimal(&mut out, self.port as u64);
        assert(out@ =~= self.text());
        string_of(&out)
    }
}

/// Where each octet of a host's text starts and ends.
proof fn lemma_host_layout(h: HostAddr)
    ensures
        ({
            let t = host_text(h);
            let ea: int = dec(h.a as nat).len() as int;
            let eb: int = ea + 1 + dec(h.b as nat).len();
            let ec: int = eb + 1 + dec(h.c as nat).len();
            &&& t.len() == ec + 1 + dec(h.d as nat).len()
            &&& t.subrange(0, ea) == dec(h.a as nat)
            &&& t[ea] == '.'
            &&& t.subrange(ea + 1, eb) == dec(h.b as nat)
            &&& t[eb] == '.'
            &&& t.subrange(eb + 1, ec) == dec(h.c as nat)
            &&& t[ec] == '.'
            &&& t.subrange(ec + 1, t.len() as int) == dec(h.d as nat)
        }),
{
    let t = host_text(h);
    let ea: int = dec(h.a as nat).len() as int;
    let eb: int = ea + 1 + dec(h.b as nat).len();
    let ec: int = eb + 1 + dec(h.c as nat).len();
    assert(t.subrange(0, ea) =~= dec(h.a as nat));
    assert(t.subrange(ea + 1, eb) =~= dec(h.b as nat));
    assert(t.subrange(eb + 1, ec) =~= dec(h.c as nat));
    assert(t.subrange(ec + 1, t.len() as int) =~= dec(h.d as nat));
}

/// A maximal run of digits starting at `i` ends at one place only.
proof fn lemma_digit_run_unique(s: Seq<char>, i: int, j: int, k: int)
    requires
        0 <= i <= j <= s.len(),
        i <= k <= s.len(),
        all_digits(s.subrange(i, j)),
        j == s.len() || !is_digit(s[j]),
        all_digits(s.subrange(i, k)),
        k == s.len() || !is_digit(s[k]),
    ensures
        j == k,
{
    if j < k {
        assert(s.subrange(i, k)[j - i] == s[j]);
    } else if k < j {
        assert(s.subrange(i, j)[k - i] == s[k]);
    }
}

/// Reads a canonical numeral of at most `bound` at `start`, which must be
/// followed by `sep` (or by the end of the text when `sep` is `None`).
fn numeral_at(v: &Vec<char>, start: usize, bound: u64, sep: Option<char>) -> (r: Option<(u64, usize)>)
    requires
        start <= v@.len(),
        bound <= 0xffff,
    ensures
        match r {
            Some((n, e)) => {
                &&& start <= e <= v@.len()
                &&& canonical_dec(v@.subrange(start as int, e as int))
                &&& n == dec_value(v@.subrange(start as int, e as int))
                &&& n <= bound
                &&& match sep {
                    Some(c) => e < v@.len() && v@[e as int] == c,
                    None => e == v@.len(),
                }
            },
            None => forall|k: int, m: nat|
                start <= k <= v@.len() && v@.subrange(start as int, k) == dec(m) && m <= bound
                    ==> !(match sep {
                    Some(c) => k < v@.len() && v@[k] == c && !is_digit(c),
                    None => k == v@.len(),
                }),
        },
{
    let e = scan_digits(v, start);
    let val = canonical_value(v, start, e, bound);
    let ok_sep = match sep {
        Some(c) => e < v.len() && v[e] == c,
        None => e == v.len(),
    };
    proof {
        assert forall|k: int, m: nat|
            start <= k <= v@.len() && v@.subrange(start as int, k) == dec(m) && m <= bound && (
            match sep {
                Some(c) => k < v@.len() && v@[k] == c && !is_digit(c),
                None => k == v@.len(),
            }) implies k == e && val == Some(m as u64) && ok_sep by {
            lemma_dec_canonical(m);
            lemma_digit_run_unique(v@, start as int, e as int, k);
        }
    }
    match val {
        Some(n) => {
            if ok_sep {
                Some((n, e))
            } else {
                None
            }
        },
        None => None,
    }
}

/// Reads a host `a.b.c.d` at `start`, followed by `:`; returns it and where
/// the `:` stands.
#[verifier::rlimit(30)]
fn host_at(v: &Vec<char>, start: usize) -> (r: Option<(HostAddr, usize)>)
    requires
        start <= v@.len(),
    ensures
        match r {
            Some((h, e)) => {
                &&& start <= e < v@.len()
                &&& v@.subrange(start as int, e as int) == host_text(h)
                &&& v@[e as int] == ':'
            },
            None => forall|h: HostAddr|
                #![trigger host_text(h)]
                start + host_text(h).len() < v@.len() ==> !(v@.subrange(
                    start as int,
                    start + host_text(h).len(),
                ) == host_text(h) && v@[start + host_text(h).len() as int] == ':'),
        },
{
    let ra = numeral_at(v, start, 255, Some('.'));
    let (a, e1) = match ra {
        Some(x) => x,
        None => {
            proof {
                assert forall|h: HostAddr|
                    #![trigger host_text(h)]
                    start + host_text(h).len() < v@.len() implies !(v@.subrange(
                    start as int,
                    start + host_text(h).len(),
                ) == host_text(h) && v@[start + host_text(h).len() as int] == ':') by {
                    if v@.subrange(start as int, start + host_text(h).len()) == host_text(h) {
                        lemma_host_positions(v@, start as int, h);
                    }
                }
            }
            return None;
        },
    };
    // the '.' after the first octet stands inside the text, so `e1 + 1` fits
    let len = v.len();
    assert(e1 < len);
    let rb = numeral_at(v, e1 + 1, 255, Some('.'));
    let rc = match rb {
        Some((_, e2)) => numeral_at(v, e2 + 1, 255, Some('.')),
        None => None,
    };
    let rd = match rc {
        Some((_, e3)) => numeral_at(v, e3 + 1, 255, Some(':')),
        None => None,
    };
    proof {
        assert forall|h: HostAddr|
            #![trigger host_text(h)]
            start + host_text(h).len() < v@.len() && v@.subrange(
                start as int,
                start + host_text(h).len(),
            ) == host_text(h) && v@[start + host_text(h).len() as int] == ':' implies rd is Some && {
            let (b, e2) = rb.unwrap();
            let (c, e3) = rc.unwrap();
            let (d, e4) = rd.unwrap();
            &&& a == h.a && b == h.b && c == h.c && d == h.d
            &&& e4 == start + host_text(h).len()
        } by {
            lemma_host_positions(v@, start as int, h);
            let ea = start + dec(h.a as nat).len();
            let eb = ea + 1 + dec(h.b as nat).len();
            let ec = eb + 1 + dec(h.c as nat).len();
            let ed = start + host_text(h).len();
            lemma_digit_run_unique(v@, start as int, e1 as int, ea);
            let (b, e2) = rb.unwrap();
            lemma_digit_run_unique(v@, ea + 1, e2 as int, eb);
            let (c, e3) = rc.unwrap();
            lemma_digit_run_unique(v@, eb + 1, e3 as int, ec);
            let (d, e4) = rd.unwrap();
            lemma_digit_run_unique(v@, ec + 1, e4 as int, ed);
        }
    }
    match (rb, rc, rd) {
        (Some((b, e2)), Some((c, e3)), Some((d, e4))) => {
            let h = HostAddr { a: a as u8, b: b as u8, c: c as u8, d: d as u8 };
            proof {
                lemma_canonical_dec(v@.subrange(start as int, e1 as int));
                lemma_canonical_dec(v@.subrange(e1 + 1, e2 as int));
                lemma_canonical_dec(v@.subrange(e2 + 1, e3 as int));
                lemma_canonical_dec(v@.subrange(e3 + 1, e4 as int));
                assert(v@.subrange(start as int, e4 as int) =~= v@.subrange(start as int, e1 as int)
                    + seq!['.'] + v@.subrange(e1 + 1, e2 as int) + seq!['.'] + v@.subrange(
                    e2 + 1,
                    e3 as int,
                ) + seq!['.'] + v@.subrange(e3 + 1, e4 as int));
                assert(v@.subrange(start as int, e4 as int) =~= host_text(h));
            }
            Some((h, e4))
        },
        _ => None,
    }
}

/// Where the octets of a host text that stands in `v` at `start` lie in `v`.
proof fn lemma_host_positions(v: Seq<char>, start: int, h: HostAddr)
    requires
        0 <= start,
        start + host_text(h).len() < v.len(),
        v.subrange(start, start + host_text(h).len()) == host_text(h),
    ensures
        ({
            let ea = start + dec(h.a as nat).len();
            let eb = ea + 1 + dec(h.b as nat).len();
            let ec = eb + 1 + dec(h.c as nat).len();
            let ed = start + host_text(h).len();
            &&& v.subrange(start, ea) == dec(h.a as nat)
            &&& v[ea] == '.'
            &&& v.subrange(ea + 1, eb) == dec(h.b as nat)
            &&& v[eb] == '.'
            &&& v.subrange(eb + 1, ec) == dec(h.c as nat)
            &&& v[ec] == '.'
            &&& v.subrange(ec + 1, ed) == dec(h.d as nat)
            &&& canonical_dec(dec(h.a as nat)) && dec_value(dec(h.a as nat)) == h.a
            &&& canonical_dec(dec(h.b as nat)) && dec_value(dec(h.b as nat)) == h.b
            &&& canonical_dec(dec(h.c as nat)) && dec_value(dec(h.c as nat)) == h.c
            &&& canonical_dec(dec(h.d as nat)) && dec_value(dec(h.d as nat)) == h.d
        }),
{
    lemma_host_layout(h);
    let t = host_text(h);
    let ea = start + dec(h.a as nat).len();
    let eb = ea + 1 + dec(h.b as nat).len();
    let ec = eb + 1 + dec(h.c as nat).len();
    let ed = start + t.len();
    lemma_dec_canonical(h.a as nat);
    lemma_dec_canonical(h.b as nat);
    lemma_dec_canonical(h.c as nat);
    lemma_dec_canonical(h.d as nat);
    assert(v.subrange(start, ea) =~= t.subrange(0, ea - start));
    assert(v[ea] == t[ea - start]);
    assert(v.subrange(ea + 1, eb) =~= t.subrange(ea + 1 - start, eb - start));
    assert(v[eb] == t[eb - start]);
    assert(v.subrange(eb + 1, ec) =~= t.subrange(eb + 1 - start, ec - start));
    assert(v[ec] == t[ec - start]);
    assert(v.subrange(ec + 1, ed) =~= t.subrange(ec + 1 - start, ed - start));
}

/// A host's text holds no ':'.
proof fn lemma_host_has_no_colon(h: HostAddr, i: int)
    requires
        0 <= i < host_text(h).len(),
    ensures
        host_text(h)[i] != ':',
{
    lemma_dec_canonical(h.a as nat);
    lemma_dec_canonical(h.b as nat);
    lemma_dec_canonical(h.c as nat);
    lemma_dec_canonical(h.d as nat);
    lemma_host_layout(h);
    let t = host_text(h);
    let ea: int = dec(h.a as nat).len() as int;
    let eb: int = ea + 1 + dec(h.b as nat).len();
    let ec: int = eb + 1 + dec(h.c as nat).len();
    if i < ea {
        assert(t.subrange(0, ea)[i] == t[i]);
    } else if ea < i < eb {
        assert(t.subrange(ea + 1, eb)[i - ea - 1] == t[i]);
    } else if eb < i < ec {
        assert(t.subrange(eb + 1, ec)[i - eb - 1] == t[i]);
    } else if ec < i {
        assert(t.subrange(ec + 1, t.len() as int)[i - ec - 1] == t[i]);
    }
}

/// The dotted decimal text of a host determines the host.
pub proof fn law_host_text_determines_host(h1: HostAddr, h2: HostAddr)
    requires
        host_text(h1) == host_text(h2),
    ensures
        h1 == h2,
{
    let t = host_text(h1);
    lemma_host_layout(h1);
    lemma_host_layout(h2);
    lemma_dec_canonical(h1.a as nat);
    lemma_dec_canonical(h1.b as nat);
    lemma_dec_canonical(h1.c as nat);
    lemma_dec_canonical(h1.d as nat);
    lemma_dec_canonical(h2.a as nat);
    lemma_dec_canonical(h2.b as nat);
    lemma_dec_canonical(h2.c as nat);
    lemma_dec_canonical(h2.d as nat);
    let ea1: int = dec(h1.a as nat).len() as int;
    let ea2: int = dec(h2.a as nat).len() as int;
    lemma_digit_run_unique(t, 0, ea1, ea2);
    let eb1: int = ea1 + 1 + dec(h1.b as nat).len();
    let eb2: int = ea2 + 1 + dec(h2.b as nat).len();
    lemma_digit_run_unique(t, ea1 + 1, eb1, eb2);
    let ec1: int = eb1 + 1 + dec(h1.c as nat).len();
    let ec2: int = eb2 + 1 + dec(h2.c as nat).len();
    lemma_digit_run_unique(t, eb1 + 1, ec1, ec2);
}

/// The parts of a URL as `url::Url` reports them: scheme, username, host
/// text and port.
pub uninterp spec fn url_parts_of(s: Seq<char>) -> Option<
    (Seq<char>, Seq<char>, Option<Seq<char>>, Option<u16>),
>;

struct UrlParts {
    scheme: String,
    username: String,
    host: Option<String>,
    port: Option<u16>,
}

spec fn parts_view(p: UrlParts) -> (Seq<char>, Seq<char>, Option<Seq<char>>, Option<u16>) {
    (
        p.scheme@,
        p.username@,
        match p.host {
            Some(h) => Some(h@),
            None => None,
        },
        p.port,
    )
}

/// Relies on `url::Url::parse` and on the accessors `scheme`, `username`,
/// `host_str` and `port` of the URL it returns.
#[verifier::external_body]
fn parse_url(s: &str) -> (r: Option<UrlParts>)
    ensures
        match r {
            Some(p) => url_parts_of(s@) == Some(parts_view(p)),
            None => url_parts_of(s@) is None,
        },
{
    url::Url::parse(s).ok().map(
        |u| UrlParts {
            scheme: u.scheme().to_owned(),
            username: u.username().to_owned(),
            host: u.host_str().map(|h| h.to_owned()),
            port: u.port(),
        },
    )
}

/// The dotted decimal text of some IPv4 host.
pub open spec fn is_host_text(h: Seq<char>) -> bool {
    exists|x: HostAddr| host_text(x) == h
}

/// URL parts that name a peer: scheme `enode`, a non-empty username, an
/// IPv4 host and a port.
pub open spec fn names_peer(
    parts: Option<(Seq<char>, Seq<char>, Option<Seq<char>>, Option<u16>)>,
) -> bool {
    match parts {
        Some((scheme, user, Some(h), Some(_))) => scheme == "enode"@ && user.len() > 0
            && is_host_text(h),
        _ => false,
    }
}

/// `u` is the peer that the URL parts name.
pub open spec fn describes(
    parts: Option<(Seq<char>, Seq<char>, Option<Seq<char>>, Option<u16>)>,
    u: EthereumNodeUrl,
) -> bool {
    &&& parts == Some(("enode"@, u.node_id@, Some(host_text(u.addr)), Some(u.port)))
    &&& u.wf()
}

/// Whether two strings hold the same characters.
fn same_text(a: &str, b: &str) -> (r: bool)
    ensures
        r == (a@ == b@),
{
    let x = chars_of(a);
    let y = chars_of(b);
    if x.len() != y.len() {
        return false;
    }
    let mut i: usize = 0;
    while i < x.len()
        invariant
            i <= x@.len(),
            x@.len() == y@.len(),
            x@ == a@,
            y@ == b@,
            forall|k: int| 0 <= k < i ==> x@[k] == y@[k],
        decreases x@.len() - i,
    {
        if x[i] != y[i] {
            return false;
        }
        i = i + 1;
    }
    assert(x@ =~= y@);
    true
}

/// Reads the dotted decimal text of an IPv4 host.
pub fn parse_host(h: &str) -> (r: Option<HostAddr>)
    ensures
        match r {
            Some(x) => host_text(x) == h@,
            None => !is_host_text(h@),
        },
{
    let mut v = chars_of(h);
    let n = v.len();
    v.push(':');
    assert(v@.subrange(0, n as int) =~= h@);
    match host_at(&v, 0) {
        Some((x, e)) => {
            if e == n {
                Some(x)
            } else {
                proof {
                    assert forall|y: HostAddr| host_text(y) != h@ by {
                        if host_text(y) == h@ {
                            assert(v@[e as int] == h@[e as int]);
                            lemma_host_has_no_colon(y, e as int);
                        }
                    }
                }
                None
            }
        },
        None => {
            proof {
                assert forall|y: HostAddr| host_text(y) != h@ by {
                    if host_text(y) == h@ {
                        assert(0 + host_text(y).len() < v@.len());
                    }
                }
            }
            None
        },
    }
}

/// Decodes a peer address from a URL `enode://<id>@<a.b.c.d>:<port>`.
///
/// Succeeds exactly when the URL has the scheme `enode`, a non-empty
/// username, an IPv4 host and a port; anything after the port is ignored.
pub fn decode_node_url(s: &str) -> (r: Option<EthereumNodeUrl>)
    ensures
        match r {
            Some(u) => describes(url_parts_of(s@), u),
            None => !names_peer(url_parts_of(s@)),
        },
{
    let parts = match parse_url(s) {
        Some(p) => p,
        None => {
            return None;
        },
    };
    if !same_text(parts.scheme.as_str(), "enode") {
        return None;
    }
    let user = chars_of(parts.username.as_str());
    if user.len() == 0 {
        return None;
    }
    let addr = match &parts.host {
        Some(h) => match parse_host(h.as_str()) {
            Some(x) => x,
            None => {
                return None;
            },
        },
        None => {
            return None;
        },
    };
    let port = match parts.port {
        Some(p) => p,
        None => {
            return None;
        },
    };
    Some(EthereumNodeUrl { node_id: parts.username, addr, port })
}

/// Encoding a decoded address writes back the parts that the URL reported,
/// in canonical form: `enode://<username>@<host>:<port>`.
pub proof fn law_reencoding(s: Seq<char>, u: EthereumNodeUrl)
    requires
        describes(url_parts_of(s), u),
    ensures
        ({
            let (_, user, host, port) = url_parts_of(s).unwrap();
            u.text() == scheme_prefix() + user + seq!['@'] + host.unwrap() + seq![':'] + dec(
                port.unwrap() as nat,
            )
        }),
{
}

} // verus!
