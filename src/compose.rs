//! The container-orchestration descriptor: a YAML document with a
//! `services`, a `networks` and a `volumes` section, written in a fixed key
//! order so that regenerating from the same input gives the same text.

use vstd::prelude::*;
use crate::config::{proxy_type_name, Config, ProxyConfig, ProxyType};
use crate::error::CerberusError;
use crate::topology::{
    layer_of, node_views, resolve, str_views, topology_nodes, NetworkSegment,
    NodeKind, NodeView, ResolvedNode, Segment, SegmentView, Topology,
};
use crate::text::{decimal, decimal_string, join2, join3};

verus! {

/// Characters that may appear in a plain (unquoted) scalar of this writer.
pub open spec fn is_plain_char(c: char) -> bool {
    ('a' <= c && c <= 'z') || ('A' <= c && c <= 'Z') || ('0' <= c && c <= '9') || c == '.'
        || c == '_' || c == '/' || c == '-' || c == ':' || c == '@' || c == '=' || c == '+'
}

/// `a` is the lowercase letter `l` or its uppercase form.
pub open spec fn same_letter(a: char, l: char) -> bool {
    a == l || (a as u32) + 32 == (l as u32)
}

/// `s` spells the lowercase word `w` in any mix of case.
pub open spec fn spells(s: Seq<char>, w: Seq<char>) -> bool {
    s.len() == w.len() && forall|i: int| 0 <= i < s.len() ==> same_letter(#[trigger] s[i], w[i])
}

/// Words that YAML readers take for booleans or null, in any case.
pub open spec fn is_reserved_word(s: Seq<char>) -> bool {
    spells(s, "true"@) || spells(s, "false"@) || spells(s, "yes"@) || spells(s, "no"@)
        || spells(s, "on"@) || spells(s, "off"@) || spells(s, "null"@) || spells(s, "y"@)
        || spells(s, "n"@)
}

/// `s` reads back as the same string when written unquoted: it begins with
/// a letter, `/` or `./`, holds only plain characters, does not end with
/// `:`, and is no boolean or null word.
pub open spec fn plain_safe(s: Seq<char>) -> bool {
    &&& s.len() > 0
    &&& (('a' <= s[0] && s[0] <= 'z') || ('A' <= s[0] && s[0] <= 'Z') || s[0] == '/'
        || (s[0] == '.' && s.len() > 1 && s[1] == '/'))
    &&& forall|i: int| 0 <= i < s.len() ==> is_plain_char(#[trigger] s[i])
    &&& s.last() != ':'
    &&& !is_reserved_word(s)
}

/// The lowercase hexadecimal digit of `d < 16`.
pub open spec fn hex_char(d: nat) -> char {
    if d < 10 { crate::text::digit_char(d) } else if d == 10 { 'a' } else if d == 11 { 'b' }
    else if d == 12 { 'c' } else if d == 13 { 'd' } else if d == 14 { 'e' } else { 'f' }
}

/// Characters that a double-quoted scalar writes as a `\x` escape.
pub open spec fn needs_hex_escape(c: char) -> bool {
    let u = c as u32;
    (u < 0x20 && c != '\n' && c != '\t' && c != '\r') || u == 0x7f || (0x80 <= u && u <= 0x9f)
}

/// One character inside a double-quoted scalar.
pub open spec fn escape_char(c: char) -> Seq<char> {
    if c == '"' {
        seq!['\\', '"']
    } else if c == '\\' {
        seq!['\\', '\\']
    } else if c == '\n' {
        seq!['\\', 'n']
    } else if c == '\t' {
        seq!['\\', 't']
    } else if c == '\r' {
        seq!['\\', 'r']
    } else if needs_hex_escape(c) {
        seq!['\\', 'x', hex_char((c as u32 / 16) as nat), hex_char((c as u32 % 16) as nat)]
    } else {
        seq![c]
    }
}

/// The characters of `s` escaped for a double-quoted scalar.
pub open spec fn escaped(s: Seq<char>) -> Seq<char>
    decreases s.len(),
{
    if s.len() == 0 {
        Seq::empty()
    } else {
        escaped(s.drop_last()) + escape_char(s.last())
    }
}

/// How a string is written as a YAML scalar: plain when that is safe,
/// otherwise double-quoted with escapes.
pub open spec fn yaml_scalar(s: Seq<char>) -> Seq<char> {
    if plain_safe(s) { s } else { seq!['"'] + escaped(s) + seq!['"'] }
}

/// A `key: value` line of a service entry.
pub open spec fn field(key: Seq<char>, value: Seq<char>) -> Seq<char> {
    "    "@ + key + ": "@ + yaml_scalar(value) + "\n"@
}

/// The items as YAML list lines.
pub open spec fn item_lines(items: Seq<Seq<char>>) -> Seq<char>
    decreases items.len(),
{
    if items.len() == 0 {
        Seq::empty()
    } else {
        item_lines(items.drop_last()) + "      - "@ + yaml_scalar(items.last()) + "\n"@
    }
}

/// A list-valued key of a service entry; nothing when the list is empty.
pub open spec fn list_field(key: Seq<char>, items: Seq<Seq<char>>) -> Seq<char> {
    if items.len() == 0 {
        Seq::empty()
    } else {
        "    "@ + key + ":\n"@ + item_lines(items)
    }
}

/// The image of a proxy kind.
pub open spec fn proxy_image(t: ProxyType) -> Seq<char> {
    match t {
        ProxyType::Caddy => "caddy:alpine"@,
        ProxyType::Nginx => "nginx:alpine"@,
        ProxyType::HaProxy => "haproxy:alpine"@,
        ProxyType::Traefik => "traefik:v3.0"@,
    }
}

/// The configuration directory of a proxy kind inside its container.
pub open spec fn proxy_config_dir(t: ProxyType) -> Seq<char> {
    match t {
        ProxyType::Caddy => "/etc/caddy"@,
        ProxyType::Nginx => "/etc/nginx"@,
        ProxyType::HaProxy => "/usr/local/etc/haproxy"@,
        ProxyType::Traefik => "/etc/traefik"@,
    }
}

/// The key of a network segment.
pub open spec fn segment_key(s: Segment) -> Seq<char> {
    match s {
        Segment::Front => "front-net"@,
        Segment::Back => "back-net"@,
    }
}

/// The connection limit of a proxy; 1024 when none is declared.
pub open spec fn max_connections_of(p: ProxyConfig) -> nat {
    match p.max_connections {
        Some(m) => m as nat,
        None => 1024,
    }
}

/// The restart policy of a proxy; `unless-stopped` when none is declared.
pub open spec fn proxy_restart(p: ProxyConfig) -> Seq<char> {
    match p.restart {
        Some(r) => r@,
        None => "unless-stopped"@,
    }
}

/// The published ports of a proxy node, `external:internal`.
pub open spec fn port_items(v: NodeView, p: ProxyConfig) -> Seq<Seq<char>> {
    match v.external_port {
        Some(e) => seq![decimal(e as nat) + ":"@ + decimal(p.internal_port as nat)],
        None => Seq::empty(),
    }
}

/// The mounts of a proxy node: its configuration directory, its log
/// directory, then the declared volumes.
pub open spec fn proxy_mounts(p: ProxyConfig) -> Seq<Seq<char>> {
    seq![
        "./proxy-configs/"@ + p.name@ + ":"@ + proxy_config_dir(p.proxy_type) + ":ro"@,
        "./built/logs:/var/log/"@ + proxy_type_name(p.proxy_type) + ":rw"@,
    ] + str_views(p.volumes@)
}

/// The environment of a proxy node; replicas after the first also carry
/// their instance index.
pub open spec fn proxy_env(v: NodeView, p: ProxyConfig) -> Seq<Seq<char>> {
    let base = seq![
        "PROXY_LAYER="@ + decimal(layer_of(p) as nat),
        "MAX_CONNECTIONS="@ + decimal(max_connections_of(p)),
    ];
    if v.instance > 1 { base.push("INSTANCE_ID="@ + decimal(v.instance as nat)) } else { base }
}

/// The labels of a proxy node.
pub open spec fn proxy_labels(p: ProxyConfig) -> Seq<Seq<char>> {
    seq![
        "cerberus.service=proxy"@,
        "cerberus.layer="@ + decimal(layer_of(p) as nat),
        "cerberus.type="@ + proxy_type_name(p.proxy_type),
    ]
}

/// The entry of a proxy node.
pub open spec fn proxy_entry(v: NodeView, p: ProxyConfig) -> Seq<char> {
    "  "@ + yaml_scalar(v.name) + ":\n"@
        + field("image"@, proxy_image(p.proxy_type))
        + field("container_name"@, v.name)
        + field("restart"@, proxy_restart(p))
        + list_field("ports"@, port_items(v, p))
        + list_field("volumes"@, proxy_mounts(p))
        + list_field("environment"@, proxy_env(v, p))
        + list_field("labels"@, proxy_labels(p))
        + list_field("networks"@, seq![segment_key(v.segment)])
        + list_field("depends_on"@, v.depends_on)
}

/// The environment of the Anubis node.
pub open spec fn anubis_env(c: Config) -> Seq<Seq<char>> {
    let a = c.anubis;
    seq![
        "BIND="@ + a.bind@,
        "DIFFICULTY="@ + decimal(a.difficulty as nat),
        "TARGET="@ + a.target@,
        "METRICS_BIND="@ + a.metrics_bind@,
        "SERVE_ROBOTS_TXT="@ + a.serve_robots_txt@,
        "POLICY_FNAME="@ + a.policy_fname@,
    ]
}

/// The entry of the Anubis node.
pub open spec fn anubis_entry(v: NodeView, c: Config) -> Seq<char> {
    "  "@ + yaml_scalar(v.name) + ":\n"@
        + field("image"@, c.anubis.image@)
        + field("container_name"@, v.name)
        + field("restart"@, c.anubis.restart@)
        + list_field("environment"@, anubis_env(c))
        + list_field("volumes"@, seq!["./anubis:/data/cfg:ro"@] + str_views(c.anubis.volumes@))
        + list_field("labels"@, seq!["cerberus.service=anubis"@])
        + list_field("networks"@, seq![segment_key(v.segment)])
        + list_field("depends_on"@, v.depends_on)
}

/// The health check of a generated service.
pub const SERVICE_HEALTHCHECK: &'static str = "    healthcheck:\n      test: [\"CMD-SHELL\", \"wget -q --spider http://localhost/ || exit 1\"]\n      interval: 30s\n      timeout: 10s\n      retries: 3\n";

/// The entry of a generated service node.
pub open spec fn service_entry(v: NodeView, c: Config) -> Seq<char> {
    "  "@ + yaml_scalar(v.name) + ":\n"@
        + field("image"@, "alpine:latest"@)
        + field("container_name"@, v.name)
        + field("restart"@, "unless-stopped"@)
        + SERVICE_HEALTHCHECK@
        + list_field("labels"@, seq!["cerberus.service=backend"@, "cerberus.domain="@ + c.services@[v.source].domain@])
        + list_field("networks"@, seq![segment_key(v.segment)])
}

/// The entry of any node.
pub open spec fn node_entry(v: NodeView, c: Config) -> Seq<char> {
    match v.kind {
        NodeKind::ProxyReplica => proxy_entry(v, c.proxies@[v.source]),
        NodeKind::Anubis => anubis_entry(v, c),
        NodeKind::BackendService => service_entry(v, c),
    }
}

/// The entries of the nodes, in order.
pub open spec fn node_entries(nodes: Seq<NodeView>, c: Config) -> Seq<char>
    decreases nodes.len(),
{
    if nodes.len() == 0 {
        Seq::empty()
    } else {
        node_entries(nodes.drop_last(), c) + node_entry(nodes.last(), c)
    }
}

/// The entry of a network segment.
pub open spec fn network_entry(s: SegmentView) -> Seq<char> {
    "  "@ + s.key + ":\n    name: "@ + yaml_scalar(s.name) + "\n    driver: bridge\n    ipam:\n      config:\n        - subnet: "@
        + s.subnet + "\n"@
}

/// The entries of the network segments, in order.
pub open spec fn network_entries(nets: Seq<SegmentView>) -> Seq<char>
    decreases nets.len(),
{
    if nets.len() == 0 {
        Seq::empty()
    } else {
        network_entries(nets.drop_last()) + network_entry(nets.last())
    }
}

/// The entries of the named volumes, in order.
pub open spec fn volume_entries(vols: Seq<Seq<char>>) -> Seq<char>
    decreases vols.len(),
{
    if vols.len() == 0 {
        Seq::empty()
    } else {
        volume_entries(vols.drop_last()) + "  "@ + vols.last() + ":\n"@
    }
}

/// The whole descriptor.
pub open spec fn compose_document(c: Config, nodes: Seq<NodeView>, nets: Seq<SegmentView>, vols: Seq<Seq<char>>) -> Seq<char> {
    "services:\n"@ + node_entries(nodes, c) + "networks:\n"@ + network_entries(nets) + "volumes:\n"@ + volume_entries(vols)
}

/// Every node points at a declaration of `c`.
pub open spec fn nodes_sourced(c: Config, nodes: Seq<NodeView>) -> bool {
    forall|x: int| 0 <= x < nodes.len() ==> {
        let v = #[trigger] nodes[x];
        &&& v.kind == NodeKind::ProxyReplica ==> 0 <= v.source < c.proxies@.len()
        &&& v.kind == NodeKind::BackendService ==> 0 <= v.source < c.services@.len()
    }
}


fn plain_char(c: char) -> (r: bool)
    ensures
        r == is_plain_char(c),
{
    ('a' <= c && c <= 'z') || ('A' <= c && c <= 'Z') || ('0' <= c && c <= '9') || c == '.'
        || c == '_' || c == '/' || c == '-' || c == ':' || c == '@' || c == '=' || c == '+'
}

/// Whether `s` spells the lowercase word `w` in any case.
fn spells_word(s: &Vec<char>, w: &str) -> (r: bool)
    ensures
        r == spells(s@, w@),
{
    let x = crate::text::chars_of(w);
    if s.len() != x.len() {
        return false;
    }
    let mut i: usize = 0;
    while i < s.len()
        invariant
            x@ == w@,
            s@.len() == x@.len(),
            i <= s@.len(),
            forall|j: int| 0 <= j < i ==> same_letter(#[trigger] s@[j], w@[j]),
        decreases s.len() - i,
    {
        let a = s[i];
        let l = x[i];
        if !(a == l || ((l as u32) >= 32 && (a as u32) == (l as u32) - 32)) {
            return false;
        }
        i = i + 1;
    }
    true
}

/// Whether `s` may be written unquoted.
fn plain(s: &Vec<char>) -> (r: bool)
    ensures
        r == plain_safe(s@),
{
    let n = s.len();
    if n == 0 {
        return false;
    }
    let f = s[0];
    if !(('a' <= f && f <= 'z') || ('A' <= f && f <= 'Z') || f == '/' || (f == '.' && n > 1 && s[1] == '/')) {
        return false;
    }
    let mut i: usize = 0;
    while i < n
        invariant
            n == s@.len(),
            i <= n,
            forall|j: int| 0 <= j < i ==> is_plain_char(#[trigger] s@[j]),
        decreases n - i,
    {
        if !plain_char(s[i]) {
            return false;
        }
        i = i + 1;
    }
    if s[n - 1] == ':' {
        return false;
    }
    let reserved = spells_word(s, "true") || spells_word(s, "false") || spells_word(s, "yes")
        || spells_word(s, "no") || spells_word(s, "on") || spells_word(s, "off")
        || spells_word(s, "null") || spells_word(s, "y") || spells_word(s, "n");
    !reserved
}

/// The hexadecimal digit of `d < 16`.
fn hex_str(d: u32) -> (r: &'static str)
    requires
        d < 16,
    ensures
        r@ == seq![hex_char(d as nat)],
{
    proof {
        reveal_strlit("0");
        reveal_strlit("1");
        reveal_strlit("2");
        reveal_strlit("3");
        reveal_strlit("4");
        reveal_strlit("5");
        reveal_strlit("6");
        reveal_strlit("7");
        reveal_strlit("8");
        reveal_strlit("9");
        reveal_strlit("a");
        reveal_strlit("b");
        reveal_strlit("c");
        reveal_strlit("d");
        reveal_strlit("e");
        reveal_strlit("f");
    }
    if d == 0 { "0" } else if d == 1 { "1" } else if d == 2 { "2" } else if d == 3 { "3" }
    else if d == 4 { "4" } else if d == 5 { "5" } else if d == 6 { "6" } else if d == 7 { "7" }
    else if d == 8 { "8" } else if d == 9 { "9" } else if d == 10 { "a" } else if d == 11 { "b" }
    else if d == 12 { "c" } else if d == 13 { "d" } else if d == 14 { "e" } else { "f" }
}

/// Appends the character at `i` of `s`, escaped for a double-quoted scalar.
fn push_escaped_char(out: &mut String, s: &str, i: usize, c: char)
    requires
        i < s@.len(),
        s@.len() <= usize::MAX,
        s@[i as int] == c,
    ensures
        final(out)@ == old(out)@ + escape_char(c),
{
    proof {
        reveal_strlit("\\\"");
        reveal_strlit("\\\\");
        reveal_strlit("\\n");
        reveal_strlit("\\t");
        reveal_strlit("\\r");
        reveal_strlit("\\x");
    }
    let u = c as u32;
    if c == '"' {
        out.append("\\\"");
    } else if c == '\\' {
        out.append("\\\\");
    } else if c == '\n' {
        out.append("\\n");
    } else if c == '\t' {
        out.append("\\t");
    } else if c == '\r' {
        out.append("\\r");
    } else if u < 0x20 || u == 0x7f || (0x80 <= u && u <= 0x9f) {
        out.append("\\x");
        out.append(hex_str(u / 16));
        out.append(hex_str(u % 16));
    } else {
        out.append(s.substring_char(i, i + 1));
        assert(s@.subrange(i as int, i + 1) =~= seq![c]);
    }
    assert(final(out)@ =~= old(out)@ + escape_char(c));
}

/// Appends `s` as a YAML scalar.
pub fn push_scalar(out: &mut String, s: &str)
    ensures
        final(out)@ == old(out)@ + yaml_scalar(s@),
{
    let v = crate::text::chars_of(s);
    if plain(&v) {
        out.append(s);
        return;
    }
    proof {
        reveal_strlit("\"");
    }
    out.append("\"");
    let ghost head = out@;
    let mut i: usize = 0;
    while i < v.len()
        invariant
            v@ == s@,
            i <= v@.len(),
            out@ == head + escaped(s@.subrange(0, i as int)),
        decreases v.len() - i,
    {
        push_escaped_char(out, s, i, v[i]);
        proof {
            let pre = s@.subrange(0, i + 1);
            assert(pre.drop_last() =~= s@.subrange(0, i as int));
            assert(out@ =~= head + escaped(pre));
        }
        i = i + 1;
    }
    assert(s@.subrange(0, s@.len() as int) =~= s@);
    out.append("\"");
    assert(final(out)@ =~= old(out)@ + yaml_scalar(s@));
}

/// Appends a `key: value` line.

fn push_field(out: &mut String, key: &str, value: &str)
    ensures
        final(out)@ == old(out)@ + field(key@, value@),
{
    out.append("    ");
    out.append(key);
    out.append(": ");
    push_scalar(out, value);
    out.append("\n");
    assert(final(out)@ =~= old(out)@ + field(key@, value@));
}

/// Appends a list-valued key, or nothing for an empty list.
fn push_list(out: &mut String, key: &str, items: &Vec<String>)
    ensures
        final(out)@ == old(out)@ + list_field(key@, str_views(items@)),
{
    if items.len() == 0 {
        assert(old(out)@ + list_field(key@, str_views(items@)) =~= old(out)@);
        return;
    }
    out.append("    ");
    out.append(key);
    out.append(":\n");
    let ghost head = out@;
    let mut k: usize = 0;
    while k < items.len()
        invariant
            k <= items@.len(),
            out@ == head + item_lines(str_views(items@.subrange(0, k as int))),
        decreases items.len() - k,
    {
        out.append("      - ");
        push_scalar(out, items[k].as_str());
        out.append("\n");
        proof {
            let pre = str_views(items@.subrange(0, k + 1));
            assert(pre.drop_last() =~= str_views(items@.subrange(0, k as int)));
            assert(pre.last() == items@[k as int]@);
            assert(out@ =~= head + item_lines(pre));
        }
        k = k + 1;
    }
    proof {
        assert(items@.subrange(0, items@.len() as int) =~= items@);
        assert(final(out)@ =~= old(out)@ + list_field(key@, str_views(items@)));
    }
}

/// Appends the text `s` to a list of names.
fn push_name(v: &mut Vec<String>, s: String)
    ensures
        str_views(final(v)@) == str_views(old(v)@).push(s@),
{
    v.push(s);
    assert(str_views(final(v)@) =~= str_views(old(v)@).push(s@));
}

/// Appends copies of `extra` to a list of names.
fn extend_names(v: &mut Vec<String>, extra: &Vec<String>)
    ensures
        str_views(final(v)@) == str_views(old(v)@) + str_views(extra@),
{
    let ghost start = str_views(v@);
    let mut k: usize = 0;
    while k < extra.len()
        invariant
            k <= extra@.len(),
            str_views(v@) == start + str_views(extra@.subrange(0, k as int)),
        decreases extra.len() - k,
    {
        push_name(v, extra[k].clone());
        assert(str_views(extra@.subrange(0, k + 1)) =~= str_views(extra@.subrange(0, k as int)).push(extra@[k as int]@));
        k = k + 1;
    }
    assert(extra@.subrange(0, extra@.len() as int) =~= extra@);
}

/// Image of a proxy kind.
pub fn image_of(t: ProxyType) -> (r: &'static str)
    ensures
        r@ == proxy_image(t),
{
    match t {
        ProxyType::Caddy => "caddy:alpine",
        ProxyType::Nginx => "nginx:alpine",
        ProxyType::HaProxy => "haproxy:alpine",
        ProxyType::Traefik => "traefik:v3.0",
    }
}

/// Configuration directory of a proxy kind inside its container.
pub fn config_dir_of(t: ProxyType) -> (r: &'static str)
    ensures
        r@ == proxy_config_dir(t),
{
    match t {
        ProxyType::Caddy => "/etc/caddy",
        ProxyType::Nginx => "/etc/nginx",
        ProxyType::HaProxy => "/usr/local/etc/haproxy",
        ProxyType::Traefik => "/etc/traefik",
    }
}

/// Key of a network segment.
pub fn segment_key_of(s: Segment) -> (r: &'static str)
    ensures
        r@ == segment_key(s),
{
    match s {
        Segment::Front => "front-net",
        Segment::Back => "back-net",
    }
}

fn layer_value(p: &ProxyConfig) -> (r: u8)
    ensures
        r as int == layer_of(*p),
{
    match p.layer {
        Some(l) => l,
        None => 1,
    }
}

/// The one-item list holding the segment key.
fn network_list(s: Segment) -> (r: Vec<String>)
    ensures
        str_views(r@) == seq![segment_key(s)],
{
    let mut v: Vec<String> = Vec::new();
    push_name(&mut v, String::from_str(segment_key_of(s)));
    assert(str_views(v@) =~= seq![segment_key(s)]);
    v
}

/// The published ports of a proxy node.
fn ports_of(node: &ResolvedNode, p: &ProxyConfig) -> (r: Vec<String>)
    ensures
        str_views(r@) == port_items(node@, *p),
{
    let mut ports: Vec<String> = Vec::new();
    if let Some(e) = node.external_port {
        let item = join3(decimal_string(e as u64).as_str(), ":", decimal_string(p.internal_port as u64).as_str());
        push_name(&mut ports, item);
        assert(str_views(ports@) =~= port_items(node@, *p));
    } else {
        assert(str_views(ports@) =~= port_items(node@, *p));
    }
    ports
}

/// The mounts of a proxy node.
fn mounts_of(p: &ProxyConfig) -> (r: Vec<String>)
    ensures
        str_views(r@) == proxy_mounts(*p),
{
    let mut mounts: Vec<String> = Vec::new();
    let first = join3(join3("./proxy-configs/", p.name.as_str(), ":").as_str(), config_dir_of(p.proxy_type), ":ro");
    assert(first@ =~= "./proxy-configs/"@ + p.name@ + ":"@ + proxy_config_dir(p.proxy_type) + ":ro"@);
    push_name(&mut mounts, first);
    push_name(&mut mounts, join3("./built/logs:/var/log/", p.proxy_type.as_str(), ":rw"));
    extend_names(&mut mounts, &p.volumes);
    assert(str_views(mounts@) =~= proxy_mounts(*p));
    mounts
}

/// The environment of a proxy node.
fn env_of(node: &ResolvedNode, p: &ProxyConfig) -> (r: Vec<String>)
    ensures
        str_views(r@) == proxy_env(node@, *p),
{
    let layer = layer_value(p);
    let maxc: u32 = match p.max_connections {
        Some(m) => m,
        None => 1024,
    };
    let mut env: Vec<String> = Vec::new();
    push_name(&mut env, join2("PROXY_LAYER=", decimal_string(layer as u64).as_str()));
    push_name(&mut env, join2("MAX_CONNECTIONS=", decimal_string(maxc as u64).as_str()));
    if node.instance > 1 {
        push_name(&mut env, join2("INSTANCE_ID=", decimal_string(node.instance as u64).as_str()));
    }
    assert(str_views(env@) =~= proxy_env(node@, *p));
    env
}

/// The labels of a proxy node.
fn labels_of(p: &ProxyConfig) -> (r: Vec<String>)
    ensures
        str_views(r@) == proxy_labels(*p),
{
    let layer = layer_value(p);
    let mut labels: Vec<String> = Vec::new();
    push_name(&mut labels, String::from_str("cerberus.service=proxy"));
    push_name(&mut labels, join2("cerberus.layer=", decimal_string(layer as u64).as_str()));
    push_name(&mut labels, join2("cerberus.type=", p.proxy_type.as_str()));
    assert(str_views(labels@) =~= proxy_labels(*p));
    labels
}

/// Appends the head of a service entry: its key, image, container name and
/// restart policy.
fn push_head(out: &mut String, name: &str, image: &str, restart: &str)
    ensures
        final(out)@ == old(out)@ + ("  "@ + yaml_scalar(name@) + ":\n"@ + field("image"@, image@)
            + field("container_name"@, name@) + field("restart"@, restart@)),
{
    out.append("  ");
    push_scalar(out, name);
    out.append(":\n");
    push_field(out, "image", image);
    push_field(out, "container_name", name);
    push_field(out, "restart", restart);
    assert(final(out)@ =~= old(out)@ + ("  "@ + yaml_scalar(name@) + ":\n"@ + field("image"@, image@)
        + field("container_name"@, name@) + field("restart"@, restart@)));
}

/// Appends the entry of a proxy node.
fn push_proxy(out: &mut String, node: &ResolvedNode, p: &ProxyConfig)
    requires
        node@.kind == NodeKind::ProxyReplica,
    ensures
        final(out)@ == old(out)@ + proxy_entry(node@, *p),
{
    let restart = match &p.restart {
        Some(r) => r.clone(),
        None => String::from_str("unless-stopped"),
    };
    push_head(out, node.name.as_str(), image_of(p.proxy_type), restart.as_str());
    push_list(out, "ports", &ports_of(node, p));
    push_list(out, "volumes", &mounts_of(p));
    push_list(out, "environment", &env_of(node, p));
    push_list(out, "labels", &labels_of(p));
    push_list(out, "networks", &network_list(node.segment));
    push_list(out, "depends_on", &node.depends_on);
    assert(final(out)@ =~= old(out)@ + proxy_entry(node@, *p));
}


/// The environment of the Anubis node.
fn anubis_env_of(c: &Config) -> (r: Vec<String>)
    ensures
        str_views(r@) == anubis_env(*c),
{
    let a = &c.anubis;
    let mut env: Vec<String> = Vec::new();
    push_name(&mut env, join2("BIND=", a.bind.as_str()));
    push_name(&mut env, join2("DIFFICULTY=", decimal_string(a.difficulty as u64).as_str()));
    push_name(&mut env, join2("TARGET=", a.target.as_str()));
    push_name(&mut env, join2("METRICS_BIND=", a.metrics_bind.as_str()));
    push_name(&mut env, join2("SERVE_ROBOTS_TXT=", a.serve_robots_txt.as_str()));
    push_name(&mut env, join2("POLICY_FNAME=", a.policy_fname.as_str()));
    assert(str_views(env@) =~= anubis_env(*c));
    env
}

/// Appends the entry of the Anubis node.
fn push_anubis(out: &mut String, node: &ResolvedNode, c: &Config)
    ensures
        final(out)@ == old(out)@ + anubis_entry(node@, *c),
{
    push_head(out, node.name.as_str(), c.anubis.image.as_str(), c.anubis.restart.as_str());
    push_list(out, "environment", &anubis_env_of(c));
    let mut mounts: Vec<String> = Vec::new();
    push_name(&mut mounts, String::from_str("./anubis:/data/cfg:ro"));
    extend_names(&mut mounts, &c.anubis.volumes);
    assert(str_views(mounts@) =~= seq!["./anubis:/data/cfg:ro"@] + str_views(c.anubis.volumes@));
    push_list(out, "volumes", &mounts);
    let mut labels: Vec<String> = Vec::new();
    push_name(&mut labels, String::from_str("cerberus.service=anubis"));
    assert(str_views(labels@) =~= seq!["cerberus.service=anubis"@]);
    push_list(out, "labels", &labels);
    push_list(out, "networks", &network_list(node.segment));
    push_list(out, "depends_on", &node.depends_on);
    assert(final(out)@ =~= old(out)@ + anubis_entry(node@, *c));
}

/// Appends the entry of a generated service node.
fn push_service(out: &mut String, node: &ResolvedNode, c: &Config)
    requires
        0 <= node@.source < c.services@.len(),
    ensures
        final(out)@ == old(out)@ + service_entry(node@, *c),
{
    push_head(out, node.name.as_str(), "alpine:latest", "unless-stopped");
    out.append(SERVICE_HEALTHCHECK);
    let mut labels: Vec<String> = Vec::new();
    push_name(&mut labels, String::from_str("cerberus.service=backend"));
    push_name(&mut labels, join2("cerberus.domain=", c.services[node.source].domain.as_str()));
    assert(str_views(labels@) =~= seq!["cerberus.service=backend"@, "cerberus.domain="@ + c.services@[node@.source].domain@]);
    push_list(out, "labels", &labels);
    push_list(out, "networks", &network_list(node.segment));
    assert(final(out)@ =~= old(out)@ + service_entry(node@, *c));
}

/// Renders the descriptor of a topology of `c`.
#[verifier::rlimit(60)]
pub fn render_compose(c: &Config, t: &Topology) -> (r: String)
    requires
        nodes_sourced(*c, node_views(t.nodes@)),
    ensures
        r@ == compose_document(*c, node_views(t.nodes@), t.networks@.map_values(|n: NetworkSegment| n.view()),
            str_views(t.volumes@)),
{
    let mut out = String::from_str("services:\n");
    let ghost head = out@;
    let n = t.nodes.len();
    let mut k: usize = 0;
    while k < n
        invariant
            n == t.nodes@.len(),
            k <= n,
            nodes_sourced(*c, node_views(t.nodes@)),
            head == "services:\n"@,
            out@ == head + node_entries(node_views(t.nodes@.subrange(0, k as int)), *c),
        decreases n - k,
    {
        let node = &t.nodes[k];
        assert(node_views(t.nodes@)[k as int] == node@);
        let ghost before = out@;
        match node.kind {
            NodeKind::ProxyReplica => push_proxy(&mut out, node, &c.proxies[node.source]),
            NodeKind::Anubis => push_anubis(&mut out, node, c),
            NodeKind::BackendService => push_service(&mut out, node, c),
        }
        proof {
            let pre = node_views(t.nodes@.subrange(0, k + 1));
            assert(pre.drop_last() =~= node_views(t.nodes@.subrange(0, k as int)));
            assert(pre.last() == node@);
            assert(out@ =~= head + node_entries(pre, *c));
        }
        k = k + 1;
    }
    assert(t.nodes@.subrange(0, n as int) =~= t.nodes@);
    out.append("networks:\n");
    let ghost nets = t.networks@.map_values(|x: NetworkSegment| x.view());
    let ghost s2 = out@;
    let m = t.networks.len();
    let mut j: usize = 0;
    while j < m
        invariant
            m == t.networks@.len(),
            j <= m,
            nets == t.networks@.map_values(|x: NetworkSegment| x.view()),
            out@ == s2 + network_entries(nets.subrange(0, j as int)),
        decreases m - j,
    {
        let net = &t.networks[j];
        let ghost before = out@;
        out.append("  ");
        out.append(net.key.as_str());
        out.append(":\n    name: ");
        push_scalar(&mut out, net.name.as_str());
        out.append("\n    driver: bridge\n    ipam:\n      config:\n        - subnet: ");
        out.append(net.subnet.as_str());
        out.append("\n");
        proof {
            let pre = nets.subrange(0, j + 1);
            assert(pre.drop_last() =~= nets.subrange(0, j as int));
            assert(pre.last() == net.view());
            assert(out@ =~= before + network_entry(net.view()));
            assert(out@ =~= s2 + network_entries(pre));
        }
        j = j + 1;
    }
    assert(nets.subrange(0, m as int) =~= nets);
    out.append("volumes:\n");
    let ghost vols = str_views(t.volumes@);
    let ghost s4 = out@;
    let q = t.volumes.len();
    let mut i: usize = 0;
    while i < q
        invariant
            q == t.volumes@.len(),
            i <= q,
            vols == str_views(t.volumes@),
            out@ == s4 + volume_entries(vols.subrange(0, i as int)),
        decreases q - i,
    {
        let ghost before = out@;
        out.append("  ");
        out.append(t.volumes[i].as_str());
        out.append(":\n");
        proof {
            let pre = vols.subrange(0, i + 1);
            assert(pre.drop_last() =~= vols.subrange(0, i as int));
            assert(pre.last() == t.volumes@[i as int]@);
            assert(out@ =~= s4 + volume_entries(pre));
        }
        i = i + 1;
    }
    assert(vols.subrange(0, q as int) =~= vols);
    assert(out@ =~= compose_document(*c, node_views(t.nodes@), nets, vols));
    out
}

/// The descriptor of the topology of `c`, or why it has none.
pub open spec fn compose_of(c: Config) -> Seq<char> {
    compose_document(c, topology_nodes(c), crate::topology::segments_of(c.project.name@),
        crate::topology::conventional_volumes())
}

/// Generator of the container-orchestration descriptor of a configuration.
pub struct DockerComposeGenerator<'a> {
    pub config: &'a Config,
}

impl<'a> DockerComposeGenerator<'a> {
    /// A generator for `config`.
    pub fn new(config: &'a Config) -> (r: Self)
        ensures
            *r.config == *config,
    {
        DockerComposeGenerator { config }
    }

    /// Resolves the configuration and renders its descriptor.
    pub fn generate(&self) -> (r: Result<String, CerberusError>)
        requires
            self.config.proxies@.len() < usize::MAX,
        ensures
            r is Ok <==> crate::topology::resolves(*self.config),
            match r {
                Ok(s) => crate::topology::resolves(*self.config) && s@ == compose_of(*self.config),
                Err(e) => crate::topology::explains_failure(*self.config, e),
            },
    {
        match resolve(self.config) {
            Ok(t) => {
                proof {
                    crate::lemmas::lemma_nodes_sourced(*self.config);
                }
                Ok(render_compose(self.config, &t))
            },
            Err(e) => Err(e),
        }
    }
}

} // verus!
