//! Node classification: whether an upstream names an address that is already
//! reachable or a service whose container has to be generated, and whether a
//! proxy declaration materializes at all.

use vstd::prelude::*;
use crate::config::{ProxyConfig, ProxyType};

verus! {

/// Characters allowed in a URL scheme.
pub open spec fn is_scheme_char(c: char) -> bool {
    ('a' <= c && c <= 'z') || ('A' <= c && c <= 'Z') || ('0' <= c && c <= '9') || c == '+'
        || c == '-' || c == '.'
}

/// Length of the leading run of scheme characters of `s`.
pub open spec fn scheme_run(s: Seq<char>) -> nat
    decreases s.len(),
{
    if s.len() > 0 && is_scheme_char(s[0]) {
        1 + scheme_run(s.drop_first())
    } else {
        0
    }
}

/// `s` without its `scheme://` prefix, if it has one.
pub open spec fn strip_scheme(s: Seq<char>) -> Seq<char> {
    let n = scheme_run(s) as int;
    if n + 3 <= s.len() && s.subrange(n, n + 3) == "://"@ {
        s.subrange(n + 3, s.len() as int)
    } else {
        s
    }
}

/// Characters that end the host part of an address.
pub open spec fn ends_host(c: char) -> bool {
    c == ':' || c == '/' || c == '?' || c == '#'
}

/// The leading characters of `s` up to the first character that ends a host.
pub open spec fn take_host(s: Seq<char>) -> Seq<char>
    decreases s.len(),
{
    if s.len() == 0 || ends_host(s[0]) {
        Seq::empty()
    } else {
        seq![s[0]] + take_host(s.drop_first())
    }
}

/// The leading characters of `s` up to the first `]`.
pub open spec fn take_bracketed(s: Seq<char>) -> Seq<char>
    decreases s.len(),
{
    if s.len() == 0 || s[0] == ']' {
        Seq::empty()
    } else {
        seq![s[0]] + take_bracketed(s.drop_first())
    }
}

/// The host of the upstream is written in brackets, as IPv6 literals are.
pub open spec fn is_bracketed(u: Seq<char>) -> bool {
    let r = strip_scheme(u);
    r.len() > 0 && r[0] == '['
}

/// The host part of an upstream given as `host:port` or as a URL; for a
/// bracketed host, the text inside the brackets.
pub open spec fn host_of(u: Seq<char>) -> Seq<char> {
    let r = strip_scheme(u);
    if is_bracketed(u) {
        take_bracketed(r.drop_first())
    } else {
        take_host(r)
    }
}

/// `s` split at every `sep`, by a scan from the left.
pub open spec fn split_on(s: Seq<char>, sep: char) -> Seq<Seq<char>>
    decreases s.len(),
{
    if s.len() == 0 {
        seq![Seq::empty()]
    } else {
        let p = split_on(s.drop_last(), sep);
        if s.last() == sep {
            p.push(Seq::empty())
        } else {
            p.update(p.len() - 1, p.last().push(s.last()))
        }
    }
}

pub open spec fn is_digit(c: char) -> bool {
    '0' <= c && c <= '9'
}

/// The number written by the decimal digits `s`.
pub open spec fn digits_value(s: Seq<char>) -> nat
    decreases s.len(),
{
    if s.len() == 0 {
        0
    } else {
        digits_value(s.drop_last()) * 10 + ((s.last() as u32 - '0' as u32) as nat)
    }
}

/// One to three digits, without a leading zero, of value at most 255.
pub open spec fn is_octet(s: Seq<char>) -> bool {
    &&& 1 <= s.len() <= 3
    &&& forall|i: int| 0 <= i < s.len() ==> is_digit(#[trigger] s[i])
    &&& (s.len() == 1 || s[0] != '0')
    &&& digits_value(s) <= 255
}

/// A dotted-quad IPv4 address.
pub open spec fn is_ipv4(s: Seq<char>) -> bool {
    let parts = split_on(s, '.');
    parts.len() == 4 && forall|i: int| 0 <= i < 4 ==> is_octet(#[trigger] parts[i])
}

/// What an upstream points at.
#[derive(Debug, Clone, Copy, PartialEq, Eq, Structural)]
pub enum UpstreamKind {
    /// A literal IP address: already reachable, no container is generated.
    ExternalAddress,
    /// The name of a service whose container is generated.
    InternalService,
}

pub open spec fn is_hex_digit(c: char) -> bool {
    ('0' <= c && c <= '9') || ('a' <= c && c <= 'f') || ('A' <= c && c <= 'F')
}

/// One to four hexadecimal digits.
pub open spec fn is_hex_group(g: Seq<char>) -> bool {
    1 <= g.len() <= 4 && forall|i: int| 0 <= i < g.len() ==> is_hex_digit(#[trigger] g[i])
}

/// Every part is a group of hexadecimal digits.
pub open spec fn all_hex_groups(parts: Seq<Seq<char>>) -> bool {
    forall|i: int| 0 <= i < parts.len() ==> is_hex_group(#[trigger] parts[i])
}

/// Empty, or hexadecimal groups separated by single colons.
pub open spec fn groups_ok(s: Seq<char>) -> bool {
    s.len() == 0 || all_hex_groups(split_on(s, ':'))
}

/// The number of colon-separated groups of `s`.
pub open spec fn group_count(s: Seq<char>) -> int {
    if s.len() == 0 { 0 } else { split_on(s, ':').len() as int }
}

/// `h` abbreviates zero groups by a `::` at position `k`, with at most
/// seven groups written around it.
pub open spec fn compressed_at(h: Seq<char>, k: int) -> bool {
    let left = h.subrange(0, k);
    let right = h.subrange(k + 2, h.len() as int);
    &&& 0 <= k && k + 2 <= h.len()
    &&& h[k] == ':' && h[k + 1] == ':'
    &&& groups_ok(left) && groups_ok(right)
    &&& group_count(left) + group_count(right) <= 7
}

/// An IPv6 address in hexadecimal text form: eight groups, or fewer with
/// one `::` standing for the missing ones.
pub open spec fn is_ipv6_hex(h: Seq<char>) -> bool {
    (split_on(h, ':').len() == 8 && all_hex_groups(split_on(h, ':')))
        || exists|k: int| #[trigger] compressed_at(h, k)
}

/// `h` ends, after a colon at `k - 1`, in a dotted-quad address that stands
/// for its last two groups.
pub open spec fn ipv4_tail_at(h: Seq<char>, k: int) -> bool {
    &&& 1 <= k < h.len()
    &&& h[k - 1] == ':'
    &&& is_ipv4(h.subrange(k, h.len() as int))
    &&& is_ipv6_hex(h.subrange(0, k) + "0:0"@)
}

/// An IPv6 address in text form, possibly with its last two groups written
/// as a dotted-quad IPv4 address.
pub open spec fn is_ipv6(h: Seq<char>) -> bool {
    is_ipv6_hex(h) || exists|k: int| #[trigger] ipv4_tail_at(h, k)
}

/// The classification of an upstream, `None` when it has no host or its
/// bracketed host is not an IPv6 address.
pub open spec fn upstream_kind(u: Seq<char>) -> Option<UpstreamKind> {
    let h = host_of(u);
    if h.len() == 0 {
        None
    } else if is_bracketed(u) {
        if is_ipv6(h) { Some(UpstreamKind::ExternalAddress) } else { None }
    } else if is_ipv4(h) {
        Some(UpstreamKind::ExternalAddress)
    } else {
        Some(UpstreamKind::InternalService)
    }
}

/// Proxy kinds that sit in front of Anubis, and only exist together with it.
pub open spec fn requires_anubis(t: ProxyType) -> bool {
    match t {
        ProxyType::Nginx => true,
        ProxyType::Caddy => false,
        ProxyType::HaProxy => false,
        ProxyType::Traefik => false,
    }
}

/// Whether a proxy of kind `t` materializes given the Anubis flag.
pub open spec fn materializes(t: ProxyType, anubis_enabled: bool) -> bool {
    !requires_anubis(t) || anubis_enabled
}

/// The table of proxy kinds that are wired to route through Anubis.
pub fn needs_anubis(t: ProxyType) -> (r: bool)
    ensures
        r == requires_anubis(t),
{
    match t {
        ProxyType::Nginx => true,
        ProxyType::Caddy => false,
        ProxyType::HaProxy => false,
        ProxyType::Traefik => false,
    }
}

/// Whether the proxy declaration yields nodes: a kind that needs Anubis
/// only does so while Anubis is enabled; every other kind always does.
pub fn should_materialize(proxy: &ProxyConfig, anubis_enabled: bool) -> (r: bool)
    ensures
        r == materializes(proxy.proxy_type, anubis_enabled),
{
    !needs_anubis(proxy.proxy_type) || anubis_enabled
}

fn scheme_char(c: char) -> (r: bool)
    ensures
        r == is_scheme_char(c),
{
    ('a' <= c && c <= 'z') || ('A' <= c && c <= 'Z') || ('0' <= c && c <= '9') || c == '+'
        || c == '-' || c == '.'
}

/// The position where the host of `u` begins.
fn host_start(u: &Vec<char>) -> (r: usize)
    ensures
        r <= u@.len(),
        strip_scheme(u@) == u@.subrange(r as int, u@.len() as int),
{
    let n = u.len();
    let mut i: usize = 0;
    assert(u@.subrange(0, n as int) =~= u@);
    while i < n && scheme_char(u[i])
        invariant
            n == u@.len(),
            i <= n,
            scheme_run(u@) == i + scheme_run(u@.subrange(i as int, n as int)),
        decreases n - i,
    {
        proof {
            assert(u@.subrange(i as int, n as int).drop_first() =~= u@.subrange(i + 1, n as int));
        }
        i = i + 1;
    }
    proof {
        let rest = u@.subrange(i as int, n as int);
        if i < n {
            assert(rest[0] == u@[i as int]);
        }
        assert(scheme_run(rest) == 0);
        assert(u@.subrange(0, n as int) =~= u@);
    }
    if n - i >= 3 && u[i] == ':' && u[i + 1] == '/' && u[i + 2] == '/' {
        proof {
            reveal_strlit("://");
            assert(u@.subrange(i as int, i + 3) =~= "://"@);
        }
        i + 3
    } else {
        proof {
            reveal_strlit("://");
            if i + 3 <= n {
                let w = u@.subrange(i as int, i + 3);
                if w == "://"@ {
                    assert(w[0] == u@[i as int] && w[1] == u@[i + 1] && w[2] == u@[i + 2]);
                }
            }
            assert(u@.subrange(0, n as int) =~= u@);
        }
        0
    }
}

/// The host part of an upstream, as characters, and whether it is
/// bracketed.
pub fn host_chars(u: &str) -> (r: (Vec<char>, bool))
    ensures
        r.0@ == host_of(u@),
        r.1 == is_bracketed(u@),
{
    let v = crate::text::chars_of(u);
    let start = host_start(&v);
    let n = v.len();
    let mut h: Vec<char> = Vec::new();
    if start < n && v[start] == '[' {
        let mut i: usize = start + 1;
        proof {
            assert(v@.subrange(start as int, n as int).drop_first() =~= v@.subrange(start + 1, n as int));
            assert(h@ + take_bracketed(v@.subrange(i as int, n as int)) =~= take_bracketed(v@.subrange(i as int, n as int)));
        }
        while i < n && v[i] != ']'
            invariant
                v@ == u@,
                n == v@.len(),
                start < i <= n,
                take_bracketed(v@.subrange(start + 1, n as int)) == h@ + take_bracketed(v@.subrange(i as int, n as int)),
            decreases n - i,
        {
            proof {
                let rest = v@.subrange(i as int, n as int);
                assert(rest.drop_first() =~= v@.subrange(i + 1, n as int));
                assert(rest[0] == v@[i as int]);
                assert(h@.push(v@[i as int]) + take_bracketed(rest.drop_first()) =~= h@ + (seq![rest[0]] + take_bracketed(rest.drop_first())));
            }
            h.push(v[i]);
            i = i + 1;
        }
        proof {
            let rest = v@.subrange(i as int, n as int);
            if i < n {
                assert(rest[0] == v@[i as int]);
            }
            assert(take_bracketed(rest) =~= Seq::empty());
            assert(h@ + Seq::<char>::empty() =~= h@);
        }
        (h, true)
    } else {
        let mut i: usize = start;
        while i < n && !(v[i] == ':' || v[i] == '/' || v[i] == '?' || v[i] == '#')
            invariant
                v@ == u@,
                n == v@.len(),
                start <= i <= n,
                strip_scheme(u@) == v@.subrange(start as int, n as int),
                take_host(v@.subrange(start as int, n as int)) == h@ + take_host(v@.subrange(i as int, n as int)),
            decreases n - i,
        {
            proof {
                let rest = v@.subrange(i as int, n as int);
                assert(rest.drop_first() =~= v@.subrange(i + 1, n as int));
                assert(rest[0] == v@[i as int]);
                assert(h@.push(v@[i as int]) + take_host(rest.drop_first()) =~= h@ + (seq![rest[0]] + take_host(rest.drop_first())));
            }
            h.push(v[i]);
            i = i + 1;
        }
        proof {
            let rest = v@.subrange(i as int, n as int);
            if i < n {
                assert(rest[0] == v@[i as int]);
            }
            assert(take_host(rest) =~= Seq::empty());
            assert(h@ + Seq::<char>::empty() =~= h@);
            if start < n {
                assert(strip_scheme(u@)[0] == v@[start as int]);
            }
        }
        (h, false)
    }
}

/// The views of a sequence of character vectors.
pub open spec fn char_views(v: Seq<Vec<char>>) -> Seq<Seq<char>> {
    v.map_values(|x: Vec<char>| x@)
}

/// `s` split at every `sep`.
fn split_at(s: &Vec<char>, sep: char) -> (r: Vec<Vec<char>>)
    ensures
        char_views(r@) == split_on(s@, sep),
{
    let n = s.len();
    let mut done: Vec<Vec<char>> = Vec::new();
    let mut cur: Vec<char> = Vec::new();
    let mut i: usize = 0;
    proof {
        assert(s@.subrange(0, 0) =~= Seq::<char>::empty());
        assert(char_views(done@).push(cur@) =~= seq![Seq::<char>::empty()]);
    }
    while i < n
        invariant
            n == s@.len(),
            i <= n,
            split_on(s@.subrange(0, i as int), sep) == char_views(done@).push(cur@),
        decreases n - i,
    {
        let c = s[i];
        proof {
            let pre = s@.subrange(0, i + 1);
            assert(pre.drop_last() =~= s@.subrange(0, i as int));
            assert(pre.last() == c);
        }
        if c == sep {
            let old_cur = cur;
            done.push(old_cur);
            cur = Vec::new();
            proof {
                assert(char_views(done@).push(cur@) =~= split_on(s@.subrange(0, i as int), sep).push(Seq::empty()));
            }
        } else {
            cur.push(c);
            proof {
                let p = split_on(s@.subrange(0, i as int), sep);
                assert(char_views(done@).push(cur@) =~= p.update(p.len() - 1, p.last().push(c)));
            }
        }
        i = i + 1;
    }
    proof {
        assert(s@.subrange(0, n as int) =~= s@);
    }
    let ghost final_views = char_views(done@).push(cur@);
    done.push(cur);
    proof {
        assert(char_views(done@) =~= final_views);
    }
    done
}

fn digit(c: char) -> (r: bool)
    ensures
        r == is_digit(c),
{
    '0' <= c && c <= '9'
}

/// Whether `v` is an octet of a dotted-quad address.
fn octet(v: &Vec<char>) -> (r: bool)
    ensures
        r == is_octet(v@),
{
    let n = v.len();
    if n < 1 || n > 3 {
        return false;
    }
    let mut value: u32 = 0;
    let mut i: usize = 0;
    while i < n
        invariant
            n == v@.len(),
            1 <= n <= 3,
            i <= n,
            forall|j: int| 0 <= j < i ==> is_digit(#[trigger] v@[j]),
            value as nat == digits_value(v@.subrange(0, i as int)),
            value < 1000,
            i < 3 ==> value < 100,
            i < 2 ==> value < 10,
            i == 0 ==> value == 0,
        decreases n - i,
    {
        let c = v[i];
        if !digit(c) {
            return false;
        }
        proof {
            let pre = v@.subrange(0, i + 1);
            assert(pre.drop_last() =~= v@.subrange(0, i as int));
        }
        value = value * 10 + (c as u32 - '0' as u32);
        i = i + 1;
    }
    proof {
        assert(v@.subrange(0, n as int) =~= v@);
    }
    if n > 1 && v[0] == '0' {
        return false;
    }
    value <= 255
}

/// Whether `h` is a dotted-quad IPv4 address.
pub fn ipv4(h: &Vec<char>) -> (r: bool)
    ensures
        r == is_ipv4(h@),
{
    let parts = split_at(h, '.');
    if parts.len() != 4 {
        return false;
    }
    let mut i: usize = 0;
    while i < 4
        invariant
            parts@.len() == 4,
            char_views(parts@) == split_on(h@, '.'),
            i <= 4,
            forall|j: int| 0 <= j < i ==> is_octet(#[trigger] split_on(h@, '.')[j]),
        decreases 4 - i,
    {
        assert(char_views(parts@)[i as int] == parts@[i as int]@);
        if !octet(&parts[i]) {
            return false;
        }
        i = i + 1;
    }
    true
}

fn hex_digit(c: char) -> (r: bool)
    ensures
        r == is_hex_digit(c),
{
    ('0' <= c && c <= '9') || ('a' <= c && c <= 'f') || ('A' <= c && c <= 'F')
}

/// Whether `g` is a group of one to four hexadecimal digits.
fn hex_group(g: &Vec<char>) -> (r: bool)
    ensures
        r == is_hex_group(g@),
{
    if g.len() < 1 || g.len() > 4 {
        return false;
    }
    let mut i: usize = 0;
    while i < g.len()
        invariant
            i <= g@.len(),
            forall|j: int| 0 <= j < i ==> is_hex_digit(#[trigger] g@[j]),
        decreases g.len() - i,
    {
        if !hex_digit(g[i]) {
            return false;
        }
        i = i + 1;
    }
    true
}

/// Whether every part is a hexadecimal group.
fn hex_groups(parts: &Vec<Vec<char>>) -> (r: bool)
    ensures
        r == all_hex_groups(char_views(parts@)),
{
    let mut i: usize = 0;
    while i < parts.len()
        invariant
            i <= parts@.len(),
            forall|j: int| 0 <= j < i ==> is_hex_group(#[trigger] char_views(parts@)[j]),
        decreases parts.len() - i,
    {
        assert(char_views(parts@)[i as int] == parts@[i as int]@);
        if !hex_group(&parts[i]) {
            return false;
        }
        i = i + 1;
    }
    true
}

/// The characters of `v` from `a` to `b`.
fn slice(v: &Vec<char>, a: usize, b: usize) -> (r: Vec<char>)
    requires
        a <= b <= v@.len(),
    ensures
        r@ == v@.subrange(a as int, b as int),
{
    let mut out: Vec<char> = Vec::new();
    let mut i: usize = a;
    while i < b
        invariant
            a <= i <= b,
            b <= v@.len(),
            out@ == v@.subrange(a as int, i as int),
        decreases b - i,
    {
        out.push(v[i]);
        assert(out@ =~= v@.subrange(a as int, i + 1));
        i = i + 1;
    }
    out
}

/// Whether `s` is empty or colon-separated hexadecimal groups, and how
/// many groups it has.
fn groups_of(s: &Vec<char>) -> (r: (bool, usize))
    ensures
        r.0 == groups_ok(s@),
        r.1 as int == group_count(s@),
{
    if s.len() == 0 {
        return (true, 0);
    }
    let parts = split_at(s, ':');
    assert(char_views(parts@).len() == parts@.len());
    (hex_groups(&parts), parts.len())
}

/// Whether `h` is an IPv6 address in text form.
pub fn ipv6(h: &Vec<char>) -> (r: bool)
    ensures
        r == is_ipv6(h@),
{
    if ipv6_hex(h) {
        return true;
    }
    let n = h.len();
    let mut k: usize = 1;
    while k < n
        invariant
            n == h@.len(),
            1 <= k,
            forall|j: int| 1 <= j < k ==> !#[trigger] ipv4_tail_at(h@, j),
        decreases n - k,
    {
        if h[k - 1] == ':' && ipv4(&slice(h, k, n)) {
            let mut head = slice(h, 0, k);
            head.push('0');
            head.push(':');
            head.push('0');
            proof {
                reveal_strlit("0:0");
                assert(head@ =~= h@.subrange(0, k as int) + "0:0"@);
            }
            if ipv6_hex(&head) {
                assert(ipv4_tail_at(h@, k as int));
                return true;
            }
        }
        k = k + 1;
    }
    assert(forall|j: int| !#[trigger] ipv4_tail_at(h@, j));
    false
}

/// Whether `h` is an IPv6 address in hexadecimal text form.
fn ipv6_hex(h: &Vec<char>) -> (r: bool)
    ensures
        r == is_ipv6_hex(h@),
{
    let parts = split_at(h, ':');
    assert(char_views(parts@).len() == parts@.len());
    if parts.len() == 8 && hex_groups(&parts) {
        return true;
    }
    let n = h.len();
    if n < 2 {
        assert(forall|k: int| !#[trigger] compressed_at(h@, k));
        return false;
    }
    let mut k: usize = 0;
    while k < n - 1
        invariant
            n == h@.len(),
            n >= 2,
            k <= n - 1,
            forall|j: int| 0 <= j < k ==> !#[trigger] compressed_at(h@, j),
        decreases n - k,
    {
        if h[k] == ':' && h[k + 1] == ':' {
            let (lok, lc) = groups_of(&slice(h, 0, k));
            let (rok, rc) = groups_of(&slice(h, k + 2, n));
            if lok && rok && lc <= 7 && rc <= 7 - lc {
                assert(compressed_at(h@, k as int));
                return true;
            }
        }
        k = k + 1;
    }
    assert(forall|j: int| !#[trigger] compressed_at(h@, j)) by {
        assert forall|j: int| !#[trigger] compressed_at(h@, j) by {
            if j >= k {
                assert(!(j + 2 <= n));
            }
        }
    }
    false
}

/// Classifies an upstream: `None` when it has no host, or a bracketed host
/// that is not an IPv6 address; an external address when the host is a
/// literal IPv4 or IPv6 address; an internal service otherwise.
pub fn classify_upstream(u: &str) -> (r: Option<UpstreamKind>)
    ensures
        r == upstream_kind(u@),
{
    let (h, bracketed) = host_chars(u);
    if h.len() == 0 {
        None
    } else if bracketed {
        if ipv6(&h) { Some(UpstreamKind::ExternalAddress) } else { None }
    } else if ipv4(&h) {
        Some(UpstreamKind::ExternalAddress)
    } else {
        Some(UpstreamKind::InternalService)
    }
}

} // verus!
