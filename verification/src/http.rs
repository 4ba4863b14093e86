//! HTTP egress engine: request trimming, header rewriting, target
//! selection, and the per-connection forwarding plan.
//!
//! The engine reads one request's worth of bytes from a freshly bridged
//! connection, strips redundant trailing blank lines, rewrites keep-alive
//! headers to `Connection: close` (each connection carries exactly one
//! logical exchange), picks the target host from the `Host` header or from
//! a configured next-hop proxy, and decides whether to tunnel (`CONNECT`),
//! forward the rewritten request, or drop the connection.  Everything here
//! is computed from the bytes alone; the sockets live in the front end.

use vstd::prelude::*;

verus! {

/// Arguments of the built-in HTTP engine.
pub struct HttpArgs {
    /// Listening port; 0 disables the engine.
    pub port: u16,
    /// Address `ip:port` of the next HTTP proxy for chained operation;
    /// empty when requests go directly to their target host.
    pub next_http: String,
}

/// Whether the engine should listen at all: a zero port disables it.
pub fn should_serve(args: &HttpArgs) -> (b: bool)
    ensures
        b == (args.port != 0),
{
    args.port != 0
}

/// `pat` occurs in `s` at position `i`.
pub open spec fn match_at(s: Seq<u8>, pat: Seq<u8>, i: int) -> bool {
    0 <= i && i + pat.len() <= s.len() && s.subrange(i, i + pat.len()) == pat
}

/// `s` with every non-overlapping occurrence of `pat`, found left to right,
/// replaced by `sub`.
pub open spec fn replaced(s: Seq<u8>, pat: Seq<u8>, sub: Seq<u8>) -> Seq<u8>
    decreases s.len(),
{
    if pat.len() == 0 || s.len() < pat.len() {
        s
    } else if s.subrange(0, pat.len() as int) == pat {
        sub + replaced(s.skip(pat.len() as int), pat, sub)
    } else {
        seq![s[0]] + replaced(s.skip(1), pat, sub)
    }
}

/// Whether `pat` occurs in `s` at position `i`.
fn is_match_at(s: &Vec<u8>, pat: &Vec<u8>, i: usize) -> (b: bool)
    requires
        i <= s@.len(),
    ensures
        b == match_at(s@, pat@, i as int),
{
    if s.len() - i < pat.len() {
        return false;
    }
    let mut j: usize = 0;
    while j < pat.len()
        invariant
            j <= pat@.len(),
            i + pat@.len() <= s@.len() <= usize::MAX,
            forall|k: int| 0 <= k < j ==> s@[i + k] == pat@[k],
        decreases pat@.len() - j,
    {
        if s[i + j] != pat[j] {
            assert(s@.subrange(i as int, i + pat@.len())[j as int] != pat@[j as int]);
            return false;
        }
        j = j + 1;
    }
    proof {
        assert(s@.subrange(i as int, i + pat@.len()) =~= pat@);
    }
    true
}

/// Replace every non-overlapping occurrence of `pat` in `s` by `sub`,
/// scanning left to right.
pub fn replace_pattern(s: &Vec<u8>, pat: &Vec<u8>, sub: &Vec<u8>) -> (r: Vec<u8>)
    requires
        pat@.len() > 0,
    ensures
        r@ =~= replaced(s@, pat@, sub@),
{
    let mut r: Vec<u8> = Vec::new();
    let mut i: usize = 0;
    proof {
        assert(s@.skip(0) =~= s@);
    }
    while i < s.len()
        invariant
            pat@.len() > 0,
            i <= s@.len(),
            replaced(s@, pat@, sub@) =~= r@ + replaced(s@.skip(i as int), pat@, sub@),
        decreases s@.len() - i,
    {
        let ghost r_prev = r@;
        let ghost rest = s@.skip(i as int);
        if is_match_at(s, pat, i) {
            proof {
                assert(rest.subrange(0, pat@.len() as int) =~= s@.subrange(
                    i as int,
                    i + pat@.len(),
                ));
                assert(rest.skip(pat@.len() as int) =~= s@.skip(i + pat@.len()));
            }
            let mut j: usize = 0;
            while j < sub.len()
                invariant
                    j <= sub@.len(),
                    r@ =~= r_prev + sub@.take(j as int),
                decreases sub@.len() - j,
            {
                r.push(sub[j]);
                j = j + 1;
                proof {
                    assert(sub@.take(j as int) =~= sub@.take(j - 1).push(sub@[j - 1]));
                }
            }
            proof {
                assert(sub@.take(sub@.len() as int) =~= sub@);
            }
            i = i + pat.len();
        } else {
            proof {
                assert(rest.len() >= 1);
                if pat@.len() <= rest.len() {
                    assert(rest.subrange(0, pat@.len() as int) =~= s@.subrange(
                        i as int,
                        i + pat@.len(),
                    ));
                    assert(rest.subrange(0, pat@.len() as int) != pat@);
                }
                assert(rest.skip(1) =~= s@.skip(i + 1));
                assert(seq![rest[0]] =~= seq![s@[i as int]]);
                assert(replaced(rest, pat@, sub@) =~= seq![s@[i as int]] + replaced(
                    s@.skip(i + 1),
                    pat@,
                    sub@,
                ));
            }
            r.push(s[i]);
            i = i + 1;
        }
    }
    proof {
        assert(s@.skip(s@.len() as int) =~= Seq::<u8>::empty());
        assert(replaced(Seq::<u8>::empty(), pat@, sub@) =~= Seq::<u8>::empty());
    }
    r
}

/// `s` with its maximal run of trailing CRLF pairs removed: a read often
/// picks up the blank line that ends the header block, and forwarding it
/// twice would end the forwarded request early.
pub open spec fn trim_crlf(s: Seq<u8>) -> Seq<u8>
    decreases s.len(),
{
    if s.len() >= 2 && s[s.len() - 2] == 13 && s[s.len() - 1] == 10 {
        trim_crlf(s.take(s.len() - 2))
    } else {
        s
    }
}

/// The request bytes with trailing CRLF pairs removed.
pub fn trimmed_request(raw: &Vec<u8>) -> (r: Vec<u8>)
    ensures
        r@ =~= trim_crlf(raw@),
{
    let mut end: usize = raw.len();
    proof {
        assert(raw@.take(end as int) =~= raw@);
    }
    while end >= 2 && raw[end - 2] == 13 && raw[end - 1] == 10
        invariant
            end <= raw@.len(),
            trim_crlf(raw@) =~= trim_crlf(raw@.take(end as int)),
        decreases end,
    {
        proof {
            assert(raw@.take(end as int).take(end - 2) =~= raw@.take(end - 2));
        }
        end = end - 2;
    }
    let mut r: Vec<u8> = Vec::new();
    let mut i: usize = 0;
    while i < end
        invariant
            i <= end <= raw@.len(),
            r@ =~= raw@.take(end as int).take(i as int),
        decreases end - i,
    {
        r.push(raw[i]);
        i = i + 1;
        proof {
            assert(raw@.take(end as int).take(i as int) =~= raw@.take(end as int).take(
                i - 1,
            ).push(raw@[i - 1]));
        }
    }
    proof {
        assert(raw@.take(end as int).take(end as int) =~= raw@.take(end as int));
        assert(trim_crlf(raw@.take(end as int)) =~= raw@.take(end as int));
    }
    r
}

/// Length of the prefix of `s` before the first occurrence of `stop`.
pub open spec fn scan_len(s: Seq<u8>, stop: u8) -> int
    decreases s.len(),
{
    if s.len() == 0 {
        0
    } else if s[0] == stop {
        0
    } else {
        1 + scan_len(s.skip(1), stop)
    }
}

/// `scan_len` finds the first occurrence: nothing before it is `stop`, and
/// the byte at it, when inside the sequence, is `stop`.
pub proof fn lemma_scan_len_bounds(s: Seq<u8>, stop: u8)
    ensures
        0 <= scan_len(s, stop) <= s.len(),
        scan_len(s, stop) < s.len() ==> s[scan_len(s, stop)] == stop,
        forall|j: int| 0 <= j < scan_len(s, stop) ==> s[j] != stop,
    decreases s.len(),
{
    if s.len() == 0 {
    } else if s[0] == stop {
    } else {
        lemma_scan_len_bounds(s.skip(1), stop);
        assert forall|j: int| 0 <= j < scan_len(s, stop) implies s[j] != stop by {
            if j > 0 {
                assert(s.skip(1)[j - 1] == s[j]);
            }
        }
        if scan_len(s, stop) < s.len() {
            assert(s.skip(1)[scan_len(s, stop) - 1] == s[scan_len(s, stop)]);
        }
    }
}

/// Any position with no `stop` before it and `stop` at it (or the end) is
/// exactly `scan_len`.
pub proof fn lemma_scan_len_at(s: Seq<u8>, stop: u8, k: int)
    requires
        0 <= k <= s.len(),
        k < s.len() ==> s[k] == stop,
        forall|j: int| 0 <= j < k ==> s[j] != stop,
    ensures
        scan_len(s, stop) == k,
    decreases s.len(),
{
    if s.len() == 0 {
    } else if s[0] == stop {
        if k > 0 {
            assert(s[0] != stop);
        }
    } else {
        assert(k > 0);
        assert forall|j: int| 0 <= j < k - 1 implies s.skip(1)[j] != stop by {
            assert(s.skip(1)[j] == s[j + 1]);
        }
        if k - 1 < s.skip(1).len() {
            assert(s.skip(1)[k - 1] == s[k]);
        }
        lemma_scan_len_at(s.skip(1), stop, k - 1);
    }
}

/// Index of the first occurrence of `stop` at or after `from`, relative to
/// `from`; the full remaining length when `stop` does not occur.
fn scan_for(s: &Vec<u8>, from: usize, stop: u8) -> (n: usize)
    requires
        from <= s@.len(),
    ensures
        n == scan_len(s@.skip(from as int), stop),
        from + n <= s@.len(),
{
    proof {
        assert(s@.len() <= usize::MAX) by {
            assert(s.len() == s@.len());
        }
    }
    let mut i: usize = from;
    while i < s.len() && s[i] != stop
        invariant
            from <= i <= s@.len() <= usize::MAX,
            forall|j: int| from <= j < i ==> s@[j] != stop,
        decreases s@.len() - i,
    {
        i = i + 1;
    }
    proof {
        let suf = s@.skip(from as int);
        assert forall|j: int| 0 <= j < i - from implies suf[j] != stop by {
            assert(suf[j] == s@[from + j]);
        }
        if (i as int) < s@.len() {
            assert(suf[i - from] == s@[i as int]);
        }
        lemma_scan_len_at(suf, stop, i - from);
    }
    i - from
}

/// A header line with the single carriage return a line split on line feeds
/// leaves at its end removed.
pub open spec fn strip_cr(line: Seq<u8>) -> Seq<u8> {
    if line.len() > 0 && line[line.len() - 1] == 13 {
        line.take(line.len() - 1)
    } else {
        line
    }
}

/// The first line of the request: everything before the first line feed,
/// without its carriage return.
pub open spec fn first_line(s: Seq<u8>) -> Seq<u8> {
    strip_cr(s.take(scan_len(s, 10)))
}

/// ASCII upper-case letters folded to lower case; everything else kept.
pub open spec fn to_lower(b: u8) -> u8 {
    if 65 <= b && b <= 90 {
        (b + 32) as u8
    } else {
        b
    }
}

fn lower_byte(b: u8) -> (r: u8)
    ensures
        r == to_lower(b),
{
    if 65 <= b && b <= 90 {
        b + 32
    } else {
        b
    }
}

/// A header line carrying the target host: it starts with `host: `, the
/// name compared without regard to ASCII case.
pub open spec fn is_host_line(line: Seq<u8>) -> bool {
    &&& line.len() >= 6
    &&& to_lower(line[0]) == 104
    &&& to_lower(line[1]) == 111
    &&& to_lower(line[2]) == 115
    &&& to_lower(line[3]) == 116
    &&& line[4] == 58
    &&& line[5] == 32
}

fn is_host_line_exec(line: &Vec<u8>) -> (b: bool)
    ensures
        b == is_host_line(line@),
{
    if line.len() < 6 {
        return false;
    }
    lower_byte(line[0]) == 104 && lower_byte(line[1]) == 111 && lower_byte(line[2]) == 115
        && lower_byte(line[3]) == 116 && line[4] == 58 && line[5] == 32
}

/// Whether a host value already names a port.
pub open spec fn has_colon(h: Seq<u8>) -> bool {
    exists|i: int| 0 <= i < h.len() && h[i] == 58
}

fn contains_colon(h: &Vec<u8>) -> (b: bool)
    ensures
        b == has_colon(h@),
{
    let mut i: usize = 0;
    while i < h.len()
        invariant
            i <= h@.len(),
            forall|j: int| 0 <= j < i ==> h@[j] != 58,
        decreases h@.len() - i,
    {
        if h[i] == 58 {
            proof {
                assert(h@[i as int] == 58);
            }
            return true;
        }
        i = i + 1;
    }
    false
}

/// A host value with the default HTTP port appended when it names none.
pub open spec fn with_default_port(h: Seq<u8>) -> Seq<u8> {
    if has_colon(h) {
        h
    } else {
        h + seq![58u8, 56u8, 48u8]
    }
}

/// The target a host line denotes: its value, with `:80` appended when the
/// value names no port.
pub open spec fn host_target(line: Seq<u8>) -> Seq<u8> {
    with_default_port(line.skip(6))
}

/// The target of the first host line of `s`, line by line; nothing when no
/// line carries one.
pub open spec fn find_host(s: Seq<u8>) -> Option<Seq<u8>>
    decreases s.len(),
    via find_host_decreases
{
    let ll = scan_len(s, 10);
    let line = strip_cr(s.take(ll));
    if is_host_line(line) {
        Some(host_target(line))
    } else if ll >= s.len() {
        None
    } else {
        find_host(s.skip(ll + 1))
    }
}

#[via_fn]
proof fn find_host_decreases(s: Seq<u8>) {
    lemma_scan_len_bounds(s, 10);
}

/// The bytes of `s` from `from` (inclusive) to `to` (exclusive).
fn vec_slice(s: &Vec<u8>, from: usize, to: usize) -> (r: Vec<u8>)
    requires
        from <= to <= s@.len(),
    ensures
        r@ =~= s@.subrange(from as int, to as int),
{
    let mut r: Vec<u8> = Vec::new();
    let mut i: usize = from;
    proof {
        assert(s@.len() <= usize::MAX) by {
            assert(s.len() == s@.len());
        }
        assert(s@.subrange(from as int, from as int) =~= Seq::<u8>::empty());
    }
    while i < to
        invariant
            from <= i <= to <= s@.len() <= usize::MAX,
            r@ =~= s@.subrange(from as int, i as int),
        decreases to - i,
    {
        r.push(s[i]);
        i = i + 1;
        proof {
            assert(s@.subrange(from as int, i as int) =~= s@.subrange(from as int, i - 1).push(
                s@[i - 1],
            ));
        }
    }
    r
}

/// The first host target at or after byte `pos` of `s`.
fn host_from(s: &Vec<u8>, pos: usize) -> (h: Option<Vec<u8>>)
    requires
        pos <= s@.len(),
    ensures
        match h {
            Some(v) => find_host(s@.skip(pos as int)) == Some(v@),
            None => find_host(s@.skip(pos as int)) is None,
        },
    decreases s@.len() - pos,
{
    proof {
        assert(s@.len() <= usize::MAX) by {
            assert(s.len() == s@.len());
        }
    }
    let ghost suf = s@.skip(pos as int);
    let ll = scan_for(s, pos, 10);
    proof {
        lemma_scan_len_bounds(suf, 10);
    }
    let mut lend: usize = pos + ll;
    if lend > pos && s[lend - 1] == 13 {
        lend = lend - 1;
    }
    let line = vec_slice(s, pos, lend);
    proof {
        assert(suf.take(ll as int) =~= s@.subrange(pos as int, pos + ll));
        if ll > 0 && suf[ll - 1] == 13 {
            assert(suf.take(ll as int).take(ll - 1) =~= s@.subrange(pos as int, pos + ll - 1));
        }
        assert(line@ =~= strip_cr(suf.take(ll as int)));
    }
    if is_host_line_exec(&line) {
        let mut v = vec_slice(&line, 6, line.len());
        proof {
            assert(line@.subrange(6, line@.len() as int) =~= line@.skip(6));
        }
        let has_port = contains_colon(&v);
        if !has_port {
            v.push(58);
            v.push(56);
            v.push(48);
            proof {
                assert(v@ =~= line@.skip(6) + seq![58u8, 56u8, 48u8]);
            }
        }
        proof {
            assert(v@ =~= with_default_port(line@.skip(6)));
        }
        Some(v)
    } else if ll >= s.len() - pos {
        None
    } else {
        let r = host_from(s, pos + ll + 1);
        proof {
            assert(s@.skip(pos + ll + 1) =~= suf.skip(ll + 1));
        }
        r
    }
}

/// The method token that asks for a raw tunnel.
pub open spec fn connect_token() -> Seq<u8> {
    seq![67u8, 79u8, 78u8, 78u8, 69u8, 67u8, 84u8]
}

/// The request method — the first line up to its first space — is `CONNECT`.
pub open spec fn is_connect(line: Seq<u8>) -> bool {
    line.take(scan_len(line, 32)) == connect_token()
}

fn is_connect_exec(line: &Vec<u8>) -> (b: bool)
    ensures
        b == is_connect(line@),
{
    let ghost lv = line@;
    let t = scan_for(line, 0, 32);
    proof {
        assert(lv.skip(0) =~= lv);
        lemma_scan_len_bounds(lv, 32);
    }
    if t != 7 {
        proof {
            assert(lv.take(scan_len(lv, 32)).len() == t);
        }
        return false;
    }
    let b = line[0] == 67 && line[1] == 79 && line[2] == 78 && line[3] == 78 && line[4] == 69
        && line[5] == 67 && line[6] == 84;
    proof {
        assert(lv.take(7).len() == 7);
        assert(lv.take(7)[0] == lv[0]);
        assert(lv.take(7)[1] == lv[1]);
        assert(lv.take(7)[2] == lv[2]);
        assert(lv.take(7)[3] == lv[3]);
        assert(lv.take(7)[4] == lv[4]);
        assert(lv.take(7)[5] == lv[5]);
        assert(lv.take(7)[6] == lv[6]);
        if b {
            assert(lv.take(7) =~= connect_token());
        } else {
            assert(lv.take(7) != connect_token());
        }
    }
    b
}

/// The keep-alive header a browser sends to a proxy.
pub open spec fn proxy_keepalive_pat() -> Seq<u8> {
    seq![80u8, 114u8, 111u8, 120u8, 121u8, 45u8, 67u8, 111u8, 110u8, 110u8, 101u8, 99u8, 116u8, 105u8, 111u8, 110u8, 58u8, 32u8, 107u8, 101u8, 101u8, 112u8, 45u8, 97u8, 108u8, 105u8, 118u8, 101u8]
}

/// The keep-alive header a browser sends to an origin server.
pub open spec fn conn_keepalive_pat() -> Seq<u8> {
    seq![67u8, 111u8, 110u8, 110u8, 101u8, 99u8, 116u8, 105u8, 111u8, 110u8, 58u8, 32u8, 107u8, 101u8, 101u8, 112u8, 45u8, 97u8, 108u8, 105u8, 118u8, 101u8]
}

/// The header both are rewritten to: every connection carries exactly one
/// logical exchange, never a persistent session.
pub open spec fn conn_close_pat() -> Seq<u8> {
    seq![67u8, 111u8, 110u8, 110u8, 101u8, 99u8, 116u8, 105u8, 111u8, 110u8, 58u8, 32u8, 99u8, 108u8, 111u8, 115u8, 101u8]
}

/// The request with both keep-alive forms rewritten to `Connection: close`,
/// the proxy form first.
pub open spec fn rewritten(s: Seq<u8>) -> Seq<u8> {
    replaced(replaced(s, proxy_keepalive_pat(), conn_close_pat()), conn_keepalive_pat(), conn_close_pat())
}

fn proxy_keepalive_vec() -> (v: Vec<u8>)
    ensures
        v@ =~= proxy_keepalive_pat(),
{
    let mut v: Vec<u8> = Vec::new();
    v.push(80);
    v.push(114);
    v.push(111);
    v.push(120);
    v.push(121);
    v.push(45);
    v.push(67);
    v.push(111);
    v.push(110);
    v.push(110);
    v.push(101);
    v.push(99);
    v.push(116);
    v.push(105);
    v.push(111);
    v.push(110);
    v.push(58);
    v.push(32);
    v.push(107);
    v.push(101);
    v.push(101);
    v.push(112);
    v.push(45);
    v.push(97);
    v.push(108);
    v.push(105);
    v.push(118);
    v.push(101);
    proof {
        assert(v@ =~= proxy_keepalive_pat());
    }
    v
}

fn conn_keepalive_vec() -> (v: Vec<u8>)
    ensures
        v@ =~= conn_keepalive_pat(),
{
    let mut v: Vec<u8> = Vec::new();
    v.push(67);
    v.push(111);
    v.push(110);
    v.push(110);
    v.push(101);
    v.push(99);
    v.push(116);
    v.push(105);
    v.push(111);
    v.push(110);
    v.push(58);
    v.push(32);
    v.push(107);
    v.push(101);
    v.push(101);
    v.push(112);
    v.push(45);
    v.push(97);
    v.push(108);
    v.push(105);
    v.push(118);
    v.push(101);
    proof {
        assert(v@ =~= conn_keepalive_pat());
    }
    v
}

fn conn_close_vec() -> (v: Vec<u8>)
    ensures
        v@ =~= conn_close_pat(),
{
    let mut v: Vec<u8> = Vec::new();
    v.push(67);
    v.push(111);
    v.push(110);
    v.push(110);
    v.push(101);
    v.push(99);
    v.push(116);
    v.push(105);
    v.push(111);
    v.push(110);
    v.push(58);
    v.push(32);
    v.push(99);
    v.push(108);
    v.push(111);
    v.push(115);
    v.push(101);
    proof {
        assert(v@ =~= conn_close_pat());
    }
    v
}

/// Rewrite every keep-alive header of the request to `Connection: close`.
pub fn rewrite_request(s: &Vec<u8>) -> (r: Vec<u8>)
    ensures
        r@ =~= rewritten(s@),
{
    let pk = proxy_keepalive_vec();
    let ck = conn_keepalive_vec();
    let cc = conn_close_vec();
    let r1 = replace_pattern(s, &pk, &cc);
    replace_pattern(&r1, &ck, &cc)
}

/// The blank line that terminates a forwarded request's header block.
pub open spec fn double_crlf() -> Seq<u8> {
    seq![13u8, 10u8, 13u8, 10u8]
}

/// The reply the engine sends the client once a `CONNECT` target is reached.
pub open spec fn connect_established_spec() -> Seq<u8> {
    seq![72u8, 84u8, 84u8, 80u8, 47u8, 49u8, 46u8, 48u8, 32u8, 50u8, 48u8, 48u8, 32u8, 67u8, 111u8, 110u8, 110u8, 101u8, 99u8, 116u8, 105u8, 111u8, 110u8, 32u8, 69u8, 115u8, 116u8, 97u8, 98u8, 108u8, 105u8, 115u8, 104u8, 101u8, 100u8, 13u8, 10u8, 13u8, 10u8]
}

/// `HTTP/1.0 200 Connection Established`, with its terminating blank line.
pub fn connect_established_response() -> (r: Vec<u8>)
    ensures
        r@ =~= connect_established_spec(),
{
    let mut r: Vec<u8> = Vec::new();
    r.push(72);
    r.push(84);
    r.push(84);
    r.push(80);
    r.push(47);
    r.push(49);
    r.push(46);
    r.push(48);
    r.push(32);
    r.push(50);
    r.push(48);
    r.push(48);
    r.push(32);
    r.push(67);
    r.push(111);
    r.push(110);
    r.push(110);
    r.push(101);
    r.push(99);
    r.push(116);
    r.push(105);
    r.push(111);
    r.push(110);
    r.push(32);
    r.push(69);
    r.push(115);
    r.push(116);
    r.push(97);
    r.push(98);
    r.push(108);
    r.push(105);
    r.push(115);
    r.push(104);
    r.push(101);
    r.push(100);
    r.push(13);
    r.push(10);
    r.push(13);
    r.push(10);
    proof {
        assert(r@ =~= connect_established_spec());
    }
    r
}

/// What the engine must do with one freshly read request.
pub enum HttpAction {
    /// No usable request: drop the connection without a response.
    Drop,
    /// Chained mode: send `payload` to the configured next proxy and relay
    /// both directions until either side finishes.
    Chained { payload: Vec<u8> },
    /// A `CONNECT` request: reply that the connection is established, then
    /// relay raw bytes with `target` in both directions.
    ConnectTunnel { target: Vec<u8> },
    /// Any other method: send `payload` to `target`, relay the response
    /// back, then shut the target-facing socket down.
    Forward { target: Vec<u8>, payload: Vec<u8> },
}

/// The decision `plan_request` owes for raw request bytes `raw` under
/// next-hop configuration `next_http`: trim, rewrite, then drop requests
/// with an empty first line; forward everything to the next hop when one is
/// configured; otherwise resolve the `Host` header and either tunnel
/// (`CONNECT`) or forward, dropping requests that name no host.
pub open spec fn plan_matches(raw: Seq<u8>, next_http: Seq<u8>, p: HttpAction) -> bool {
    let req = rewritten(trim_crlf(raw));
    let fl = first_line(req);
    if fl.len() == 0 {
        p is Drop
    } else if next_http.len() > 0 {
        p matches HttpAction::Chained { payload } && payload@ == req + double_crlf()
    } else {
        match find_host(req) {
            Option::None => p is Drop,
            Option::Some(h) => {
                if is_connect(fl) {
                    p matches HttpAction::ConnectTunnel { target } && target@ == h
                } else {
                    p matches HttpAction::Forward { target, payload } && target@ == h
                        && payload@ == req + double_crlf()
                }
            },
        }
    }
}

/// Decide what to do with one request.
pub fn plan_request(raw: &Vec<u8>, next_http: &Vec<u8>) -> (p: HttpAction)
    ensures
        plan_matches(raw@, next_http@, p),
{
    let trimmed = trimmed_request(raw);
    let mut req = rewrite_request(&trimmed);
    let ghost reqs = req@;
    let ll = scan_for(&req, 0, 10);
    proof {
        assert(reqs.skip(0) =~= reqs);
        lemma_scan_len_bounds(reqs, 10);
    }
    let mut flend: usize = ll;
    if flend > 0 && req[flend - 1] == 13 {
        flend = flend - 1;
    }
    proof {
        if ll > 0 && reqs[ll - 1] == 13 {
            assert(reqs.take(ll as int)[ll - 1] == reqs[ll - 1]);
            assert(reqs.take(ll as int).take(ll - 1) =~= reqs.take(flend as int));
        }
        assert(first_line(reqs) =~= reqs.take(flend as int));
    }
    if flend == 0 {
        return HttpAction::Drop;
    }
    if next_http.len() > 0 {
        req.push(13);
        req.push(10);
        req.push(13);
        req.push(10);
        proof {
            assert(req@ =~= reqs + double_crlf());
        }
        return HttpAction::Chained { payload: req };
    }
    let host = host_from(&req, 0);
    match host {
        None => HttpAction::Drop,
        Some(target) => {
            let fl = vec_slice(&req, 0, flend);
            proof {
                assert(fl@ =~= first_line(reqs));
            }
            if is_connect_exec(&fl) {
                HttpAction::ConnectTunnel { target }
            } else {
                req.push(13);
                req.push(10);
                req.push(13);
                req.push(10);
                proof {
                    assert(req@ =~= reqs + double_crlf());
                }
                HttpAction::Forward { target, payload: req }
            }
        },
    }
}

} // verus!
