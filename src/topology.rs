//! Topology resolution: which nodes exist, how they depend on each other,
//! how proxy declarations expand into replicas, and which network segment
//! each node joins.
//!
//! Dependencies follow explicit textual rules over upstream strings:
//! - a proxy whose default upstream or a route upstream contains `anubis`
//!   depends on the Anubis node, when that node exists;
//! - a proxy whose default upstream contains the declared name of another
//!   materialized proxy depends on that proxy;
//! - when materialized proxies sit on more than one layer, the Anubis node
//!   depends on every proxy of the highest layer.
//!
//! Dependencies may form any acyclic graph; a dependency that closes a
//! cycle is reported as an error naming both of its ends.

use vstd::prelude::*;
use crate::classify::{classify_upstream, materializes, requires_anubis, should_materialize, upstream_kind, UpstreamKind};
use crate::config::{config_problem, config_valid, Config, ProxyConfig};
use crate::error::{CerberusError, TopologyError};
use crate::text::{contains_text, decimal, decimal_string, join2, join3, occurs_in};

verus! {

/// What a resolved node is.
#[derive(Debug, Clone, Copy, PartialEq, Eq, Structural)]
pub enum NodeKind {
    ProxyReplica,
    Anubis,
    BackendService,
}

/// The two network segments.
#[derive(Debug, Clone, Copy, PartialEq, Eq, Structural)]
pub enum Segment {
    /// Internet-facing: layer-1 proxies and nodes that publish a port.
    Front,
    /// Everything else.
    Back,
}

/// A deployable unit after classification, dependency resolution and
/// replica expansion.
#[derive(Debug, Clone)]
pub struct ResolvedNode {
    pub kind: NodeKind,
    pub name: String,
    pub segment: Segment,
    /// Names of the nodes that must start first.
    pub depends_on: Vec<String>,
    /// Position of the proxy or service declaration behind the node
    /// (0 for Anubis).
    pub source: usize,
    /// Replica index, counting from 1 (1 for non-proxy nodes).
    pub instance: u8,
    /// Host port published by the node.
    pub external_port: Option<u16>,
}

/// The mathematical value of a `ResolvedNode`.
pub struct NodeView {
    pub kind: NodeKind,
    pub name: Seq<char>,
    pub segment: Segment,
    pub depends_on: Seq<Seq<char>>,
    pub source: int,
    pub instance: int,
    pub external_port: Option<u16>,
}

/// The views of a sequence of strings.
pub open spec fn str_views(v: Seq<String>) -> Seq<Seq<char>> {
    v.map_values(|s: String| s@)
}

impl View for ResolvedNode {
    type V = NodeView;

    open spec fn view(&self) -> NodeView {
        NodeView {
            kind: self.kind,
            name: self.name@,
            segment: self.segment,
            depends_on: str_views(self.depends_on@),
            source: self.source as int,
            instance: self.instance as int,
            external_port: self.external_port,
        }
    }
}

/// The views of a sequence of nodes.
pub open spec fn node_views(v: Seq<ResolvedNode>) -> Seq<NodeView> {
    v.map_values(|n: ResolvedNode| n@)
}

/// A network segment with its fixed address block.
#[derive(Debug, Clone)]
pub struct NetworkSegment {
    pub segment: Segment,
    /// Key of the network in the compose descriptor.
    pub key: String,
    /// Network name: the project name with the segment as suffix.
    pub name: String,
    pub subnet: String,
}

/// The resolved deployment graph handed to the renderers.
#[derive(Debug, Clone)]
pub struct Topology {
    pub nodes: Vec<ResolvedNode>,
    pub networks: Vec<NetworkSegment>,
    /// Named volumes that are always declared.
    pub volumes: Vec<String>,
    /// Proxies that declare several instances while scaling is disabled,
    /// and so yield a single node.
    pub collapsed: Vec<String>,
}

/// The name of the Anubis node.
pub open spec fn anubis_name() -> Seq<char> {
    "anubis"@
}

/// The layer of a proxy; an absent layer is layer 1.
pub open spec fn layer_of(p: ProxyConfig) -> int {
    match p.layer {
        Some(l) => l as int,
        None => 1,
    }
}

/// Whether the proxy at `i` yields nodes.
pub open spec fn mat(c: Config, i: int) -> bool {
    materializes(c.proxies@[i].proxy_type, c.anubis.enabled)
}

/// Whether some proxy among the first `k` is of a kind that needs Anubis.
pub open spec fn ddos_kind_upto(c: Config, k: int) -> bool
    decreases k,
{
    if k <= 0 {
        false
    } else {
        ddos_kind_upto(c, k - 1) || requires_anubis(c.proxies@[k - 1].proxy_type)
    }
}

/// The Anubis node exists: Anubis is enabled and some proxy of a kind that
/// routes through it is declared.
pub open spec fn anubis_present(c: Config) -> bool {
    c.anubis.enabled && ddos_kind_upto(c, c.proxies@.len() as int)
}

/// The highest layer among the materialized proxies of the first `k`
/// (0 when there is none).
pub open spec fn max_layer_upto(c: Config, k: int) -> int
    decreases k,
{
    if k <= 0 {
        0
    } else {
        let m = max_layer_upto(c, k - 1);
        if mat(c, k - 1) && layer_of(c.proxies@[k - 1]) > m {
            layer_of(c.proxies@[k - 1])
        } else {
            m
        }
    }
}

/// The highest layer among the materialized proxies.
pub open spec fn max_layer(c: Config) -> int {
    max_layer_upto(c, c.proxies@.len() as int)
}

/// Materialized proxies sit on more than one layer.
pub open spec fn multi_layer(c: Config) -> bool {
    exists|j: int| 0 <= j < c.proxies@.len() && #[trigger] mat(c, j) && layer_of(c.proxies@[j]) != max_layer(c)
}

/// Some route of the proxy mentions Anubis.
pub open spec fn route_mentions_anubis(p: ProxyConfig) -> bool {
    exists|r: int| 0 <= r < p.routes@.len() && occurs_in(anubis_name(), #[trigger] p.routes@[r].upstream@)
}

/// The proxy's default upstream or one of its routes mentions Anubis.
pub open spec fn mentions_anubis(p: ProxyConfig) -> bool {
    (p.default_upstream is Some && occurs_in(anubis_name(), p.default_upstream->Some_0@))
        || route_mentions_anubis(p)
}

/// The proxy at `i` depends on the Anubis node.
pub open spec fn anubis_edge(c: Config, i: int) -> bool {
    anubis_present(c) && mentions_anubis(c.proxies@[i])
}

/// The proxy at `i` depends on the proxy at `j`.
pub open spec fn proxy_edge(c: Config, i: int, j: int) -> bool {
    let p = c.proxies@[i];
    &&& j != i
    &&& mat(c, j)
    &&& p.default_upstream is Some
    &&& occurs_in(c.proxies@[j].name@, p.default_upstream->Some_0@)
}

/// The names of the proxies among the first `k` that the proxy at `i`
/// depends on.
pub open spec fn proxy_refs_upto(c: Config, i: int, k: int) -> Seq<Seq<char>>
    decreases k,
{
    if k <= 0 {
        Seq::empty()
    } else {
        let prev = proxy_refs_upto(c, i, k - 1);
        if proxy_edge(c, i, k - 1) {
            prev.push(c.proxies@[k - 1].name@)
        } else {
            prev
        }
    }
}

/// The dependencies of every replica of the proxy at `i`.
pub open spec fn proxy_deps(c: Config, i: int) -> Seq<Seq<char>> {
    let a = if anubis_edge(c, i) { seq![anubis_name()] } else { Seq::empty() };
    a + proxy_refs_upto(c, i, c.proxies@.len() as int)
}

/// The names of the materialized proxies among the first `k` on the
/// highest layer.
pub open spec fn back_layer_upto(c: Config, k: int) -> Seq<Seq<char>>
    decreases k,
{
    if k <= 0 {
        Seq::empty()
    } else {
        let prev = back_layer_upto(c, k - 1);
        if mat(c, k - 1) && layer_of(c.proxies@[k - 1]) == max_layer(c) {
            prev.push(c.proxies@[k - 1].name@)
        } else {
            prev
        }
    }
}

/// The dependencies of the Anubis node.
pub open spec fn anubis_deps(c: Config) -> Seq<Seq<char>> {
    if multi_layer(c) {
        back_layer_upto(c, c.proxies@.len() as int)
    } else {
        Seq::empty()
    }
}

/// The dependency graph between declarations: node `i < n` stands for the
/// proxy declared at `i` (all its replicas share its dependencies), node `n`
/// for Anubis, where `n` is the number of proxies.
pub open spec fn decl_edge(c: Config, u: int, v: int) -> bool {
    let n = c.proxies@.len() as int;
    if 0 <= u < n && 0 <= v < n {
        mat(c, u) && proxy_edge(c, u, v)
    } else if 0 <= u < n && v == n {
        mat(c, u) && anubis_edge(c, u)
    } else if u == n && 0 <= v < n {
        anubis_present(c) && multi_layer(c) && mat(c, v) && layer_of(c.proxies@[v]) == max_layer(c)
    } else {
        false
    }
}

/// The dependency graph as an adjacency matrix.
pub open spec fn decl_graph(c: Config) -> Seq<Seq<bool>> {
    let n = c.proxies@.len() as int;
    Seq::new((n + 1) as nat, |u: int| Seq::new((n + 1) as nat, |v: int| decl_edge(c, u, v)))
}

/// The name of a node of the dependency graph.
pub open spec fn decl_name(c: Config, u: int) -> Seq<char> {
    if u < c.proxies@.len() { c.proxies@[u].name@ } else { anubis_name() }
}

/// The dependencies close a cycle.
pub open spec fn has_dependency_cycle(c: Config) -> bool {
    crate::graph::has_cycle(decl_graph(c))
}

/// `from` depends on `to`, and that dependency closes a cycle.
pub open spec fn names_cycle_edge(c: Config, from: Seq<char>, to: Seq<char>) -> bool {
    exists|u: int, v: int| #[trigger] crate::graph::closes_cycle(decl_graph(c), u, v)
        && decl_name(c, u) == from && decl_name(c, v) == to
}

/// How many nodes the proxy at `i` expands into, when it materializes:
/// its instance count under scaling, one otherwise.
pub open spec fn replica_count(c: Config, i: int) -> int {
    if c.project.scaling { c.proxies@[i].instances as int } else { 1 }
}

/// The name of replica `k` (from 1) of a proxy named `base`.
pub open spec fn replica_name(base: Seq<char>, k: int) -> Seq<char> {
    if k == 1 { base } else { base + "-"@ + decimal(k as nat) }
}

/// The published port of replica `k`: only the first one publishes.
pub open spec fn replica_port(p: ProxyConfig, k: int) -> Option<u16> {
    if k == 1 { p.external_port } else { None }
}

/// Segment of a proxy node: front on layer 1 or when it publishes a port.
pub open spec fn proxy_segment(layer: int, port: Option<u16>) -> Segment {
    if layer == 1 || port is Some { Segment::Front } else { Segment::Back }
}

/// Replica `k` (from 1) of the proxy at `i`.
pub open spec fn replica_view(c: Config, i: int, k: int) -> NodeView {
    let p = c.proxies@[i];
    NodeView {
        kind: NodeKind::ProxyReplica,
        name: replica_name(p.name@, k),
        segment: proxy_segment(layer_of(p), replica_port(p, k)),
        depends_on: proxy_deps(c, i),
        source: i,
        instance: k,
        external_port: replica_port(p, k),
    }
}

/// The nodes of the proxy at `i`.
pub open spec fn replicas(c: Config, i: int) -> Seq<NodeView> {
    if mat(c, i) {
        Seq::new(replica_count(c, i) as nat, |k: int| replica_view(c, i, k + 1))
    } else {
        Seq::empty()
    }
}

/// The nodes of the first `k` proxies, in declaration order.
pub open spec fn proxy_nodes_upto(c: Config, k: int) -> Seq<NodeView>
    decreases k,
{
    if k <= 0 {
        Seq::empty()
    } else {
        proxy_nodes_upto(c, k - 1) + replicas(c, k - 1)
    }
}

/// The Anubis node.
pub open spec fn anubis_view(c: Config) -> NodeView {
    NodeView {
        kind: NodeKind::Anubis,
        name: anubis_name(),
        segment: Segment::Back,
        depends_on: anubis_deps(c),
        source: 0,
        instance: 1,
        external_port: None,
    }
}

/// The node of the service at `i`, generated when its upstream names an
/// internal service.
pub open spec fn service_view(c: Config, i: int) -> NodeView {
    NodeView {
        kind: NodeKind::BackendService,
        name: c.services@[i].name@,
        segment: Segment::Back,
        depends_on: Seq::empty(),
        source: i,
        instance: 1,
        external_port: None,
    }
}

/// The nodes of the first `k` services.
pub open spec fn service_nodes_upto(c: Config, k: int) -> Seq<NodeView>
    decreases k,
{
    if k <= 0 {
        Seq::empty()
    } else {
        let prev = service_nodes_upto(c, k - 1);
        if upstream_kind(c.services@[k - 1].upstream@) == Some(UpstreamKind::InternalService) {
            prev.push(service_view(c, k - 1))
        } else {
            prev
        }
    }
}

/// Every node of the topology of `c`: proxy replicas in declaration order,
/// then Anubis, then generated services.
pub open spec fn topology_nodes(c: Config) -> Seq<NodeView> {
    let a = if anubis_present(c) { seq![anubis_view(c)] } else { Seq::empty() };
    proxy_nodes_upto(c, c.proxies@.len() as int) + a + service_nodes_upto(c, c.services@.len() as int)
}

/// Two nodes of `nodes` share a name.
pub open spec fn has_duplicate_name(nodes: Seq<NodeView>) -> bool {
    exists|a: int, b: int| 0 <= a < b < nodes.len() && #[trigger] nodes[a].name == #[trigger] nodes[b].name
}

/// `name` is carried by two nodes of `nodes`.
pub open spec fn is_duplicated(nodes: Seq<NodeView>, name: Seq<char>) -> bool {
    exists|a: int, b: int| 0 <= a < b < nodes.len() && #[trigger] nodes[a].name == name && #[trigger] nodes[b].name == name
}

/// The proxies among the first `k` whose instance count is ignored because
/// scaling is disabled.
pub open spec fn collapsed_upto(c: Config, k: int) -> Seq<Seq<char>>
    decreases k,
{
    if k <= 0 {
        Seq::empty()
    } else {
        let prev = collapsed_upto(c, k - 1);
        if !c.project.scaling && mat(c, k - 1) && c.proxies@[k - 1].instances > 1 {
            prev.push(c.proxies@[k - 1].name@)
        } else {
            prev
        }
    }
}

/// The mathematical value of a network segment.
pub struct SegmentView {
    pub segment: Segment,
    pub key: Seq<char>,
    pub name: Seq<char>,
    pub subnet: Seq<char>,
}

/// The two segments of a project, with their fixed address blocks.
pub open spec fn segments_of(project: Seq<char>) -> Seq<SegmentView> {
    seq![
        SegmentView { segment: Segment::Front, key: "front-net"@, name: project + "-front"@, subnet: "10.100.0.0/16"@ },
        SegmentView { segment: Segment::Back, key: "back-net"@, name: project + "-back"@, subnet: "10.101.0.0/16"@ },
    ]
}

/// The named volumes that are always declared.
pub open spec fn conventional_volumes() -> Seq<Seq<char>> {
    seq!["postgres_data"@, "redis_data"@, "nginx_logs"@]
}

impl NetworkSegment {
    pub open spec fn view(&self) -> SegmentView {
        SegmentView { segment: self.segment, key: self.key@, name: self.name@, subnet: self.subnet@ }
    }
}

/// `t` is the topology of `c`.
pub open spec fn is_topology_of(t: Topology, c: Config) -> bool {
    &&& node_views(t.nodes@) == topology_nodes(c)
    &&& t.networks@.map_values(|n: NetworkSegment| n.view()) == segments_of(c.project.name@)
    &&& str_views(t.volumes@) == conventional_volumes()
    &&& str_views(t.collapsed@) == collapsed_upto(c, c.proxies@.len() as int)
}


/// Layer of a proxy as a number.
fn layer_number(p: &ProxyConfig) -> (r: u8)
    ensures
        r as int == layer_of(*p),
{
    match p.layer {
        Some(l) => l,
        None => 1,
    }
}

/// Whether the Anubis node exists.
pub fn anubis_is_present(c: &Config) -> (r: bool)
    ensures
        r == anubis_present(*c),
{
    if !c.anubis.enabled {
        return false;
    }
    let n = c.proxies.len();
    let mut found = false;
    let mut k: usize = 0;
    while k < n
        invariant
            n == c.proxies@.len(),
            k <= n,
            found == ddos_kind_upto(*c, k as int),
        decreases n - k,
    {
        if crate::classify::needs_anubis(c.proxies[k].proxy_type) {
            found = true;
        }
        k = k + 1;
    }
    found
}

/// The highest layer among the materialized proxies.
pub fn highest_layer(c: &Config) -> (r: u8)
    ensures
        r as int == max_layer(*c),
{
    let n = c.proxies.len();
    let mut m: u8 = 0;
    let mut k: usize = 0;
    while k < n
        invariant
            n == c.proxies@.len(),
            k <= n,
            m as int == max_layer_upto(*c, k as int),
        decreases n - k,
    {
        let l = layer_number(&c.proxies[k]);
        if should_materialize(&c.proxies[k], c.anubis.enabled) && l > m {
            m = l;
        }
        k = k + 1;
    }
    m
}

/// Whether materialized proxies sit on more than one layer.
fn several_layers(c: &Config, top: u8) -> (r: bool)
    requires
        top as int == max_layer(*c),
    ensures
        r == multi_layer(*c),
{
    let n = c.proxies.len();
    let mut k: usize = 0;
    while k < n
        invariant
            n == c.proxies@.len(),
            k <= n,
            top as int == max_layer(*c),
            forall|j: int| 0 <= j < k ==> !(#[trigger] mat(*c, j) && layer_of(c.proxies@[j]) != max_layer(*c)),
        decreases n - k,
    {
        if should_materialize(&c.proxies[k], c.anubis.enabled) && layer_number(&c.proxies[k]) != top {
            assert(mat(*c, k as int));
            return true;
        }
        k = k + 1;
    }
    false
}

/// Whether the proxy's default upstream or one of its routes mentions Anubis.
pub fn proxy_mentions_anubis(p: &ProxyConfig) -> (r: bool)
    ensures
        r == mentions_anubis(*p),
{
    if let Some(u) = &p.default_upstream {
        if contains_text(u.as_str(), "anubis") {
            return true;
        }
    }
    let n = p.routes.len();
    let mut k: usize = 0;
    while k < n
        invariant
            n == p.routes@.len(),
            k <= n,
            !(p.default_upstream is Some && occurs_in(anubis_name(), p.default_upstream->Some_0@)),
            forall|r: int| 0 <= r < k ==> !occurs_in(anubis_name(), #[trigger] p.routes@[r].upstream@),
        decreases n - k,
    {
        if contains_text(p.routes[k].upstream.as_str(), "anubis") {
            return true;
        }
        k = k + 1;
    }
    false
}

/// Whether the proxy at `i` depends on the proxy at `k`.
fn has_proxy_edge(c: &Config, i: usize, k: usize) -> (r: bool)
    requires
        i < c.proxies@.len(),
        k < c.proxies@.len(),
    ensures
        r == proxy_edge(*c, i as int, k as int),
{
    let p = &c.proxies[i];
    let q = &c.proxies[k];
    if k != i && should_materialize(q, c.anubis.enabled) {
        if let Some(u) = &p.default_upstream {
            return contains_text(u.as_str(), q.name.as_str());
        }
    }
    false
}

/// The dependencies of the replicas of the proxy at `i`.
fn dependencies_of(c: &Config, i: usize, present: bool) -> (r: Vec<String>)
    requires
        i < c.proxies@.len(),
        present == anubis_present(*c),
    ensures
        str_views(r@) == proxy_deps(*c, i as int),
{
    let p = &c.proxies[i];
    let mut deps: Vec<String> = Vec::new();
    if present && proxy_mentions_anubis(p) {
        deps.push(String::from_str("anubis"));
    }
    let ghost a: Seq<Seq<char>> = if anubis_edge(*c, i as int) { seq![anubis_name()] } else { Seq::empty() };
    assert(str_views(deps@) =~= a);
    let n = c.proxies.len();
    let mut k: usize = 0;
    while k < n
        invariant
            n == c.proxies@.len(),
            k <= n,
            i < n,
            *p == c.proxies@[i as int],
            str_views(deps@) == a + proxy_refs_upto(*c, i as int, k as int),
        decreases n - k,
    {
        let q = &c.proxies[k];
        let edge = has_proxy_edge(c, i, k);
        if edge {
            let ghost before = deps@;
            deps.push(q.name.clone());
            assert(str_views(deps@) =~= str_views(before).push(q.name@));
        }
        proof {
            assert(a + proxy_refs_upto(*c, i as int, k + 1) =~= if edge { (a + proxy_refs_upto(*c, i as int, k as int)).push(q.name@) } else { a + proxy_refs_upto(*c, i as int, k as int) });
        }
        k = k + 1;
    }
    deps
}

/// One entry of the dependency graph.
fn decl_edge_at(c: &Config, u: usize, v: usize, present: bool, several: bool, top: u8) -> (r: bool)
    requires
        u <= c.proxies@.len(),
        v <= c.proxies@.len(),
        present == anubis_present(*c),
        several == multi_layer(*c),
        top as int == max_layer(*c),
    ensures
        r == decl_edge(*c, u as int, v as int),
{
    let n = c.proxies.len();
    if u < n && v < n {
        should_materialize(&c.proxies[u], c.anubis.enabled) && has_proxy_edge(c, u, v)
    } else if u < n && v == n {
        should_materialize(&c.proxies[u], c.anubis.enabled) && present && proxy_mentions_anubis(&c.proxies[u])
    } else if u == n && v < n {
        present && several && should_materialize(&c.proxies[v], c.anubis.enabled) && layer_number(&c.proxies[v]) == top
    } else {
        false
    }
}

/// The dependency graph as an adjacency matrix.
fn dependency_graph(c: &Config, present: bool, several: bool, top: u8) -> (r: Vec<Vec<bool>>)
    requires
        c.proxies@.len() < usize::MAX,
        present == anubis_present(*c),
        several == multi_layer(*c),
        top as int == max_layer(*c),
    ensures
        crate::graph::rows(r@) == decl_graph(*c),
        crate::graph::square(crate::graph::rows(r@)),
{
    let size = c.proxies.len() + 1;
    let ghost g = decl_graph(*c);
    let mut m: Vec<Vec<bool>> = Vec::new();
    let mut u: usize = 0;
    while u < size
        invariant
            size == c.proxies@.len() + 1,
            g == decl_graph(*c),
            u <= size,
            m@.len() == u,
            forall|x: int| 0 <= x < u ==> (#[trigger] m@[x])@ == g[x],
            present == anubis_present(*c),
            several == multi_layer(*c),
            top as int == max_layer(*c),
        decreases size - u,
    {
        let mut row: Vec<bool> = Vec::new();
        let mut v: usize = 0;
        while v < size
            invariant
                size == c.proxies@.len() + 1,
                g == decl_graph(*c),
                u < size,
                v <= size,
                row@.len() == v,
                forall|y: int| 0 <= y < v ==> row@[y] == g[u as int][y],
                present == anubis_present(*c),
                several == multi_layer(*c),
                top as int == max_layer(*c),
            decreases size - v,
        {
            row.push(decl_edge_at(c, u, v, present, several, top));
            v = v + 1;
        }
        assert(row@ =~= g[u as int]);
        m.push(row);
        u = u + 1;
    }
    assert(crate::graph::rows(m@) =~= g);
    m
}



/// A copy of a list of names.
fn copy_names(v: &Vec<String>) -> (r: Vec<String>)
    ensures
        str_views(r@) == str_views(v@),
{
    let mut out: Vec<String> = Vec::new();
    let mut k: usize = 0;
    while k < v.len()
        invariant
            k <= v@.len(),
            str_views(out@) == str_views(v@.subrange(0, k as int)),
        decreases v.len() - k,
    {
        let ghost before = out@;
        out.push(v[k].clone());
        proof {
            assert(str_views(out@) =~= str_views(before).push(v@[k as int]@));
            assert(str_views(v@.subrange(0, k + 1)) =~= str_views(v@.subrange(0, k as int)).push(v@[k as int]@));
        }
        k = k + 1;
    }
    assert(v@.subrange(0, v@.len() as int) =~= v@);
    out
}

/// Segment of a proxy node.
fn segment_for(layer: u8, port: Option<u16>) -> (r: Segment)
    ensures
        r == proxy_segment(layer as int, port),
{
    if layer == 1 || port.is_some() { Segment::Front } else { Segment::Back }
}

/// Appends the replicas of the proxy at `i`, which all share `deps`.
fn push_replicas(c: &Config, i: usize, deps: &Vec<String>, nodes: &mut Vec<ResolvedNode>)
    requires
        i < c.proxies@.len(),
        mat(*c, i as int),
        str_views(deps@) == proxy_deps(*c, i as int),
    ensures
        node_views(final(nodes)@) == node_views(old(nodes)@) + replicas(*c, i as int),
{
    let p = &c.proxies[i];
    let count: u8 = if c.project.scaling { p.instances } else { 1 };
    let layer = layer_number(p);
    let ghost start = node_views(nodes@);
    let mut k: u16 = 1;
    while k <= count as u16
        invariant
            i < c.proxies@.len(),
            mat(*c, i as int),
            *p == c.proxies@[i as int],
            count as int == replica_count(*c, i as int),
            layer as int == layer_of(*p),
            str_views(deps@) == proxy_deps(*c, i as int),
            1 <= k <= count as int + 1,
            node_views(nodes@) == start + replicas(*c, i as int).subrange(0, k - 1),
        decreases count as int + 1 - k,
    {
        let name = if k == 1 { p.name.clone() } else { join3(p.name.as_str(), "-", decimal_string(k as u64).as_str()) };
        let port = if k == 1 { p.external_port } else { None };
        let node = ResolvedNode {
            kind: NodeKind::ProxyReplica,
            name,
            segment: segment_for(layer, port),
            depends_on: copy_names(deps),
            source: i,
            instance: k as u8,
            external_port: port,
        };
        let ghost before = nodes@;
        nodes.push(node);
        proof {
            assert(node@ == replica_view(*c, i as int, k as int));
            assert(node_views(nodes@) =~= node_views(before).push(node@));
            assert(replicas(*c, i as int).subrange(0, k as int) =~= replicas(*c, i as int).subrange(0, k - 1).push(replica_view(*c, i as int, k as int)));
        }
        k = k + 1;
    }
    proof {
        assert(replicas(*c, i as int).subrange(0, replicas(*c, i as int).len() as int) =~= replicas(*c, i as int));
    }
}


/// Appends the nodes of the services whose upstream names an internal
/// service.
fn push_services(c: &Config, nodes: &mut Vec<ResolvedNode>)
    ensures
        node_views(final(nodes)@) == node_views(old(nodes)@) + service_nodes_upto(*c, c.services@.len() as int),
{
    let ghost start = node_views(nodes@);
    let m = c.services.len();
    let mut k: usize = 0;
    while k < m
        invariant
            m == c.services@.len(),
            k <= m,
            node_views(nodes@) == start + service_nodes_upto(*c, k as int),
        decreases m - k,
    {
        let s = &c.services[k];
        let kind = classify_upstream(s.upstream.as_str());
        if kind == Some(UpstreamKind::InternalService) {
            let node = ResolvedNode {
                kind: NodeKind::BackendService,
                name: s.name.clone(),
                segment: Segment::Back,
                depends_on: Vec::new(),
                source: k,
                instance: 1,
                external_port: None,
            };
            let ghost before = nodes@;
            nodes.push(node);
            proof {
                assert(str_views(node.depends_on@) =~= Seq::empty());
                assert(node@ == service_view(*c, k as int));
                assert(node_views(nodes@) =~= node_views(before).push(node@));
                assert(start + service_nodes_upto(*c, k + 1) =~= (start + service_nodes_upto(*c, k as int)).push(node@));
            }
        }
        k = k + 1;
    }
}

/// The dependencies of the Anubis node: every materialized proxy of the
/// highest layer, when there are several layers.
fn anubis_dependencies(c: &Config, several: bool, top: u8) -> (r: Vec<String>)
    requires
        several == multi_layer(*c),
        top as int == max_layer(*c),
    ensures
        str_views(r@) == anubis_deps(*c),
{
    let mut deps: Vec<String> = Vec::new();
    if !several {
        assert(str_views(deps@) =~= Seq::empty());
        return deps;
    }
    let n = c.proxies.len();
    let mut k: usize = 0;
    while k < n
        invariant
            n == c.proxies@.len(),
            k <= n,
            several == multi_layer(*c),
            several,
            top as int == max_layer(*c),
            str_views(deps@) == back_layer_upto(*c, k as int),
        decreases n - k,
    {
        let q = &c.proxies[k];
        if should_materialize(q, c.anubis.enabled) && layer_number(q) == top {
            let ghost before = deps@;
            deps.push(q.name.clone());
            assert(str_views(deps@) =~= str_views(before).push(q.name@));
        }
        k = k + 1;
    }
    deps
}

/// The proxies whose instance count is ignored because scaling is off.
fn collapsed_proxies(c: &Config) -> (r: Vec<String>)
    ensures
        str_views(r@) == collapsed_upto(*c, c.proxies@.len() as int),
{
    let mut out: Vec<String> = Vec::new();
    let n = c.proxies.len();
    let mut k: usize = 0;
    while k < n
        invariant
            n == c.proxies@.len(),
            k <= n,
            str_views(out@) == collapsed_upto(*c, k as int),
        decreases n - k,
    {
        let q = &c.proxies[k];
        if !c.project.scaling && should_materialize(q, c.anubis.enabled) && q.instances > 1 {
            let ghost before = out@;
            out.push(q.name.clone());
            assert(str_views(out@) =~= str_views(before).push(q.name@));
        }
        k = k + 1;
    }
    out
}

/// A name carried by two of the nodes, if any.
fn find_duplicate(nodes: &Vec<ResolvedNode>) -> (r: Option<String>)
    ensures
        r is None <==> !has_duplicate_name(node_views(nodes@)),
        r is Some ==> is_duplicated(node_views(nodes@), r->Some_0@),
{
    let ghost vs = node_views(nodes@);
    let n = nodes.len();
    let mut a: usize = 0;
    while a < n
        invariant
            n == nodes@.len(),
            vs == node_views(nodes@),
            a <= n,
            forall|x: int, y: int| 0 <= x < a && x < y < n ==> #[trigger] vs[x].name != #[trigger] vs[y].name,
        decreases n - a,
    {
        let mut b: usize = a + 1;
        while b < n
            invariant
                n == nodes@.len(),
                vs == node_views(nodes@),
                a < n,
                a + 1 <= b <= n,
                forall|x: int, y: int| 0 <= x < a && x < y < n ==> #[trigger] vs[x].name != #[trigger] vs[y].name,
                forall|y: int| a < y < b ==> vs[a as int].name != #[trigger] vs[y].name,
            decreases n - b,
        {
            if nodes[a].name == nodes[b].name {
                assert(vs[a as int].name == nodes@[a as int].name@);
                assert(vs[b as int].name == nodes@[b as int].name@);
                return Some(nodes[a].name.clone());
            }
            b = b + 1;
        }
        a = a + 1;
    }
    None
}

/// The fixed network segments of a project.
fn segments(project: &String) -> (r: Vec<NetworkSegment>)
    ensures
        r@.map_values(|n: NetworkSegment| n.view()) == segments_of(project@),
{
    let front = NetworkSegment {
        segment: Segment::Front,
        key: String::from_str("front-net"),
        name: join2(project.as_str(), "-front"),
        subnet: String::from_str("10.100.0.0/16"),
    };
    let back = NetworkSegment {
        segment: Segment::Back,
        key: String::from_str("back-net"),
        name: join2(project.as_str(), "-back"),
        subnet: String::from_str("10.101.0.0/16"),
    };
    let r = vec![front, back];
    assert(r@.map_values(|n: NetworkSegment| n.view()) =~= segments_of(project@));
    r
}

/// The named volumes that are always declared.
fn volumes() -> (r: Vec<String>)
    ensures
        str_views(r@) == conventional_volumes(),
{
    let r = vec![String::from_str("postgres_data"), String::from_str("redis_data"), String::from_str("nginx_logs")];
    assert(str_views(r@) =~= conventional_volumes());
    r
}

/// `c` has a topology: it is valid, its dependencies close no cycle, and
/// node names are unique.
pub open spec fn resolves(c: Config) -> bool {
    config_valid(c) && !has_dependency_cycle(c) && !has_duplicate_name(topology_nodes(c))
}

/// `e` is a reason why `c` has no topology: its first configuration
/// problem, a dependency that closes a cycle (named by its two ends), or a
/// name carried by two nodes (checked in that order).
pub open spec fn explains_failure(c: Config, e: CerberusError) -> bool {
    match e {
        CerberusError::Config(e) => config_problem(c) == Some(e@),
        CerberusError::Topology(TopologyError::Cycle { from, to }) => config_valid(c)
            && names_cycle_edge(c, from@, to@),
        CerberusError::Topology(TopologyError::DuplicateName { name }) => config_valid(c)
            && !has_dependency_cycle(c) && is_duplicated(topology_nodes(c), name@),
    }
}

/// Resolves a configuration into its topology.
///
/// Fails with the configuration's first problem when it is invalid; with a
/// `Cycle` naming both ends of a dependency that closes a cycle; and with
/// `DuplicateName` when two nodes would share a name.
/// Otherwise the topology holds exactly `topology_nodes(c)`, the two fixed
/// network segments and the conventional volumes.
pub fn resolve(c: &Config) -> (r: Result<Topology, CerberusError>)
    requires
        c.proxies@.len() < usize::MAX,
    ensures
        r is Ok <==> resolves(*c),
        match r {
            Ok(t) => resolves(*c) && is_topology_of(t, *c),
            Err(e) => explains_failure(*c, e),
        },
{
    match c.validate() {
        Ok(_) => {},
        Err(e) => {
            return Err(e);
        },
    }
    let present = anubis_is_present(c);
    let top = highest_layer(c);
    let several = several_layers(c, top);
    let mut nodes: Vec<ResolvedNode> = Vec::new();
    let n = c.proxies.len();
    let mut i: usize = 0;
    while i < n
        invariant
            n == c.proxies@.len(),
            i <= n,
            config_valid(*c),
            present == anubis_present(*c),
            top as int == max_layer(*c),
            several == multi_layer(*c),
            node_views(nodes@) == proxy_nodes_upto(*c, i as int),
        decreases n - i,
    {
        if should_materialize(&c.proxies[i], c.anubis.enabled) {
            let deps = dependencies_of(c, i, present);
            push_replicas(c, i, &deps, &mut nodes);
        } else {
            assert(replicas(*c, i as int) =~= Seq::empty());
            assert(node_views(nodes@) + replicas(*c, i as int) =~= node_views(nodes@));
        }
        i = i + 1;
    }
    if present {
        let node = ResolvedNode {
            kind: NodeKind::Anubis,
            name: String::from_str("anubis"),
            segment: Segment::Back,
            depends_on: anubis_dependencies(c, several, top),
            source: 0,
            instance: 1,
            external_port: None,
        };
        let ghost before = nodes@;
        nodes.push(node);
        assert(node_views(nodes@) =~= node_views(before).push(anubis_view(*c)));
    }
    let ghost with_anubis = node_views(nodes@);
    push_services(c, &mut nodes);
    proof {
        let a = if anubis_present(*c) { seq![anubis_view(*c)] } else { Seq::<NodeView>::empty() };
        assert(with_anubis =~= proxy_nodes_upto(*c, n as int) + a);
        assert(node_views(nodes@) =~= topology_nodes(*c));
    }
    let graph = dependency_graph(c, present, several, top);
    match crate::graph::find_cycle(&graph) {
        Some((u, v)) => {
            let from = if u < n { c.proxies[u].name.clone() } else { String::from_str("anubis") };
            let to = if v < n { c.proxies[v].name.clone() } else { String::from_str("anubis") };
            proof {
                let g = decl_graph(*c);
                assert(crate::graph::closes_cycle(g, u as int, v as int));
                assert(u as int <= n && v as int <= n);
                assert(decl_name(*c, u as int) == from@);
                assert(decl_name(*c, v as int) == to@);
            }
            return Err(CerberusError::Topology(TopologyError::Cycle { from, to }));
        },
        None => {},
    }
    match find_duplicate(&nodes) {
        Some(name) => {
            proof {
                let nodes = topology_nodes(*c);
                let (a, b) = choose|a: int, b: int| 0 <= a < b < nodes.len() && #[trigger] nodes[a].name == name@ && #[trigger] nodes[b].name == name@;
                assert(nodes[a].name == nodes[b].name);
            }
            return Err(CerberusError::Topology(TopologyError::DuplicateName { name }));
        },
        None => {},
    }
    let t = Topology {
        nodes,
        networks: segments(&c.project.name),
        volumes: volumes(),
        collapsed: collapsed_proxies(c),
    };
    Ok(t)
}

} // verus!
