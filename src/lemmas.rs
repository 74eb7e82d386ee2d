//! Properties of every resolved topology, proved over the spec model that
//! `resolve` is verified against.

use vstd::prelude::*;
use crate::classify::{materializes, requires_anubis};
use crate::config::{config_valid, Config};
use crate::topology::{
    anubis_edge, anubis_name, anubis_present, anubis_view, back_layer_upto, decl_edge, decl_graph,
    ddos_kind_upto, has_duplicate_name, is_topology_of, layer_of, mat, max_layer,
    mentions_anubis, multi_layer, node_views, proxy_deps, proxy_edge, proxy_nodes_upto,
    proxy_refs_upto, replica_count, replica_name, replica_view, replicas, resolves,
    route_mentions_anubis, service_nodes_upto, topology_nodes, NetworkSegment, NodeKind, NodeView,
    Topology,
};

verus! {

/// Every node of the first `k` proxies is a replica of a materialized
/// proxy among them, with a replica index in range.
proof fn lemma_proxy_nodes_shape(c: Config, k: int)
    requires
        0 <= k <= c.proxies@.len(),
    ensures
        forall|x: int| 0 <= x < proxy_nodes_upto(c, k).len() ==> {
            let v = #[trigger] proxy_nodes_upto(c, k)[x];
            &&& 0 <= v.source < k
            &&& mat(c, v.source)
            &&& 1 <= v.instance <= replica_count(c, v.source)
            &&& v == replica_view(c, v.source, v.instance)
        },
    decreases k,
{
    if k > 0 {
        lemma_proxy_nodes_shape(c, k - 1);
        let prev = proxy_nodes_upto(c, k - 1);
        let r = replicas(c, k - 1);
        assert forall|x: int| 0 <= x < proxy_nodes_upto(c, k).len() implies {
            let v = #[trigger] proxy_nodes_upto(c, k)[x];
            &&& 0 <= v.source < k
            &&& mat(c, v.source)
            &&& 1 <= v.instance <= replica_count(c, v.source)
            &&& v == replica_view(c, v.source, v.instance)
        } by {
            if x >= prev.len() {
                assert(proxy_nodes_upto(c, k)[x] == r[x - prev.len()]);
            } else {
                assert(proxy_nodes_upto(c, k)[x] == prev[x]);
            }
        }
    }
}

/// The nodes of the first `b` proxies extend those of the first `a`, and
/// the added ones come from proxies at `a` or later.
proof fn lemma_proxy_nodes_extend(c: Config, a: int, b: int)
    requires
        0 <= a <= b <= c.proxies@.len(),
    ensures
        proxy_nodes_upto(c, a).len() <= proxy_nodes_upto(c, b).len(),
        proxy_nodes_upto(c, b).subrange(0, proxy_nodes_upto(c, a).len() as int) == proxy_nodes_upto(c, a),
        forall|x: int| proxy_nodes_upto(c, a).len() <= x < proxy_nodes_upto(c, b).len()
            ==> a <= (#[trigger] proxy_nodes_upto(c, b)[x]).source,
    decreases b,
{
    lemma_proxy_nodes_shape(c, b);
    if b > a {
        lemma_proxy_nodes_extend(c, a, b - 1);
        let prev = proxy_nodes_upto(c, b - 1);
        let cur = proxy_nodes_upto(c, b);
        assert(cur.subrange(0, prev.len() as int) =~= prev);
        assert(cur.subrange(0, proxy_nodes_upto(c, a).len() as int) =~= prev.subrange(0, proxy_nodes_upto(c, a).len() as int));
        assert forall|x: int| proxy_nodes_upto(c, a).len() <= x < cur.len() implies a <= (#[trigger] cur[x]).source by {
            if x < prev.len() {
                assert(cur[x] == prev[x]);
            } else {
                assert(cur[x] == replicas(c, b - 1)[x - prev.len()]);
            }
        }
    } else {
        assert(proxy_nodes_upto(c, b).subrange(0, proxy_nodes_upto(c, a).len() as int) =~= proxy_nodes_upto(c, a));
    }
}

/// The position of the first replica of the proxy at `i` among all nodes.
pub open spec fn replica_offset(c: Config, i: int) -> int {
    proxy_nodes_upto(c, i).len() as int
}

/// The replicas of the proxy at `i` stand in one block of the topology's
/// nodes, and no other proxy node comes from that declaration.
proof fn lemma_replica_block(c: Config, i: int)
    requires
        0 <= i < c.proxies@.len(),
    ensures
        replica_offset(c, i) + replicas(c, i).len() <= proxy_nodes_upto(c, c.proxies@.len() as int).len(),
        forall|t: int| 0 <= t < replicas(c, i).len()
            ==> #[trigger] topology_nodes(c)[replica_offset(c, i) + t] == replicas(c, i)[t],
        forall|x: int| 0 <= x < topology_nodes(c).len() && (#[trigger] topology_nodes(c)[x]).kind == NodeKind::ProxyReplica
            && topology_nodes(c)[x].source == i
            ==> replica_offset(c, i) <= x < replica_offset(c, i) + replicas(c, i).len(),
{
    let n = c.proxies@.len() as int;
    let all = proxy_nodes_upto(c, n);
    let before = proxy_nodes_upto(c, i);
    let upto = proxy_nodes_upto(c, i + 1);
    lemma_proxy_nodes_extend(c, i + 1, n);
    lemma_proxy_nodes_shape(c, i);
    lemma_proxy_nodes_shape(c, n);
    assert(upto == before + replicas(c, i));
    let a = if anubis_present(c) { seq![anubis_view(c)] } else { Seq::<NodeView>::empty() };
    let tail = a + service_nodes_upto(c, c.services@.len() as int);
    lemma_service_nodes_kind(c, c.services@.len() as int);
    assert(topology_nodes(c) =~= all + tail);
    assert forall|t: int| 0 <= t < replicas(c, i).len()
        implies #[trigger] topology_nodes(c)[replica_offset(c, i) + t] == replicas(c, i)[t] by {
        assert(all.subrange(0, upto.len() as int)[before.len() + t] == upto[before.len() + t]);
    }
    assert forall|x: int| 0 <= x < topology_nodes(c).len() && (#[trigger] topology_nodes(c)[x]).kind == NodeKind::ProxyReplica
        && topology_nodes(c)[x].source == i
        implies replica_offset(c, i) <= x < replica_offset(c, i) + replicas(c, i).len() by {
        if x >= all.len() {
            let y = x - all.len();
            if y < a.len() {
                assert(tail[y] == anubis_view(c));
            } else {
                assert(tail[y] == service_nodes_upto(c, c.services@.len() as int)[y - a.len()]);
            }
        } else if x < before.len() {
            assert(all[x] == all.subrange(0, upto.len() as int)[x]);
            assert(all[x] == before[x]);
        }
    }
}

/// Generated service nodes are backend services.
proof fn lemma_service_nodes_kind(c: Config, k: int)
    requires
        0 <= k <= c.services@.len(),
    ensures
        forall|x: int| 0 <= x < service_nodes_upto(c, k).len()
            ==> (#[trigger] service_nodes_upto(c, k)[x]).kind == NodeKind::BackendService,
    decreases k,
{
    if k > 0 {
        lemma_service_nodes_kind(c, k - 1);
        let prev = service_nodes_upto(c, k - 1);
        assert forall|x: int| 0 <= x < service_nodes_upto(c, k).len()
            implies (#[trigger] service_nodes_upto(c, k)[x]).kind == NodeKind::BackendService by {
            if x < prev.len() {
                assert(service_nodes_upto(c, k)[x] == prev[x]);
            }
        }
    }
}

/// With Anubis disabled the topology holds no Anubis node, and no node of
/// a proxy kind that routes through Anubis, however many are declared.
pub proof fn lemma_anubis_disabled(c: Config)
    requires
        !c.anubis.enabled,
    ensures
        !anubis_present(c),
        forall|x: int| 0 <= x < topology_nodes(c).len() ==> (#[trigger] topology_nodes(c)[x]).kind != NodeKind::Anubis,
        forall|x: int| 0 <= x < topology_nodes(c).len() && (#[trigger] topology_nodes(c)[x]).kind == NodeKind::ProxyReplica
            ==> 0 <= topology_nodes(c)[x].source < c.proxies@.len()
                && !requires_anubis(c.proxies@[topology_nodes(c)[x].source].proxy_type),
{
    let n = c.proxies@.len() as int;
    let all = proxy_nodes_upto(c, n);
    let s = service_nodes_upto(c, c.services@.len() as int);
    lemma_proxy_nodes_shape(c, n);
    lemma_service_nodes_kind(c, c.services@.len() as int);
    assert(topology_nodes(c) =~= all + s);
    assert forall|x: int| 0 <= x < topology_nodes(c).len() implies {
        &&& (#[trigger] topology_nodes(c)[x]).kind != NodeKind::Anubis
        &&& topology_nodes(c)[x].kind == NodeKind::ProxyReplica ==> 0 <= topology_nodes(c)[x].source < n
                && !requires_anubis(c.proxies@[topology_nodes(c)[x].source].proxy_type)
    } by {
        if x < all.len() {
            assert(topology_nodes(c)[x] == all[x]);
        } else {
            assert(topology_nodes(c)[x] == s[x - all.len()]);
        }
    }
}

/// A declared proxy of a kind that needs Anubis makes the Anubis node
/// exist, once Anubis is enabled.
proof fn lemma_ddos_kind_found(c: Config, i: int, k: int)
    requires
        0 <= i < k <= c.proxies@.len(),
        requires_anubis(c.proxies@[i].proxy_type),
    ensures
        ddos_kind_upto(c, k),
    decreases k,
{
    if k - 1 > i {
        lemma_ddos_kind_found(c, i, k - 1);
    }
}

/// A valid configuration materializes every proxy whose kind allows it:
/// its first replica carries the declared name and external port.
pub proof fn lemma_proxy_materializes(c: Config, i: int)
    requires
        config_valid(c),
        0 <= i < c.proxies@.len(),
        mat(c, i),
    ensures
        replicas(c, i).len() >= 1,
        topology_nodes(c)[replica_offset(c, i)] == replica_view(c, i, 1),
        topology_nodes(c)[replica_offset(c, i)].name == c.proxies@[i].name@,
        topology_nodes(c)[replica_offset(c, i)].external_port == c.proxies@[i].external_port,
{
    lemma_valid_instances(c, i);
    lemma_replica_block(c, i);
    assert(topology_nodes(c)[replica_offset(c, i) + 0] == replicas(c, i)[0]);
}

/// Every proxy of a valid configuration declares at least one instance.
proof fn lemma_valid_instances(c: Config, i: int)
    requires
        config_valid(c),
        0 <= i < c.proxies@.len(),
    ensures
        c.proxies@[i].instances >= 1,
{
    lemma_no_proxy_problem(c, 0, i);
}

/// No proxy problem from `from` on means none at `i`.
proof fn lemma_no_proxy_problem(c: Config, from: int, i: int)
    requires
        0 <= from <= i < c.proxies@.len(),
        crate::config::proxies_problem(c.proxies@, from) is None,
    ensures
        crate::config::proxy_problem(c.proxies@[i], i) is None,
    decreases i - from,
{
    if from < i {
        lemma_no_proxy_problem(c, from + 1, i);
    }
}

/// With Anubis enabled and a proxy of a kind that routes through it
/// declared, the Anubis node exists and that proxy materializes; a proxy of
/// any other kind materializes whatever the Anubis flag.
pub proof fn lemma_anubis_enabled(c: Config, i: int)
    requires
        config_valid(c),
        0 <= i < c.proxies@.len(),
        c.anubis.enabled || !requires_anubis(c.proxies@[i].proxy_type),
    ensures
        requires_anubis(c.proxies@[i].proxy_type) ==> anubis_present(c)
            && topology_nodes(c)[proxy_nodes_upto(c, c.proxies@.len() as int).len() as int] == anubis_view(c),
        topology_nodes(c)[replica_offset(c, i)] == replica_view(c, i, 1),
        forall|e: bool| !requires_anubis(c.proxies@[i].proxy_type) ==> #[trigger] materializes(c.proxies@[i].proxy_type, e),
{
    lemma_proxy_materializes(c, i);
    if requires_anubis(c.proxies@[i].proxy_type) {
        lemma_ddos_kind_found(c, i, c.proxies@.len() as int);
    }
}

/// Under scaling, a proxy declaring `N > 1` instances yields exactly `N`
/// nodes, named `base`, `base-2`, ..., `base-N`; only the first publishes
/// the external port, and node `k` carries instance index `k`.
pub proof fn lemma_scaling(c: Config, i: int)
    requires
        0 <= i < c.proxies@.len(),
        c.project.scaling,
        mat(c, i),
        c.proxies@[i].instances > 1,
    ensures
        replicas(c, i).len() == c.proxies@[i].instances,
        forall|t: int| 0 <= t < c.proxies@[i].instances ==> {
            let v = #[trigger] topology_nodes(c)[replica_offset(c, i) + t];
            &&& v.kind == NodeKind::ProxyReplica
            &&& v.source == i
            &&& v.name == replica_name(c.proxies@[i].name@, t + 1)
            &&& v.instance == t + 1
            &&& v.external_port == (if t == 0 { c.proxies@[i].external_port } else { None })
        },
        forall|x: int| 0 <= x < topology_nodes(c).len() && (#[trigger] topology_nodes(c)[x]).kind == NodeKind::ProxyReplica
            && topology_nodes(c)[x].source == i
            ==> replica_offset(c, i) <= x < replica_offset(c, i) + c.proxies@[i].instances,
{
    lemma_replica_block(c, i);
}

/// `d` is the name of a proxy among the first `k` that `i` has an edge to.
pub open spec fn names_edge_target(c: Config, i: int, k: int, d: Seq<char>) -> bool {
    exists|j: int| 0 <= j < k && #[trigger] proxy_edge(c, i, j) && c.proxies@[j].name@ == d
}

/// Every element of the proxy references of `i` among the first `k`
/// proxies names a proxy that `i` has an edge to.
proof fn lemma_refs_are_edges(c: Config, i: int, k: int)
    requires
        0 <= k <= c.proxies@.len(),
    ensures
        forall|e: int| 0 <= e < proxy_refs_upto(c, i, k).len()
            ==> names_edge_target(c, i, k, #[trigger] proxy_refs_upto(c, i, k)[e]),
    decreases k,
{
    if k > 0 {
        lemma_refs_are_edges(c, i, k - 1);
        let prev = proxy_refs_upto(c, i, k - 1);
        assert forall|e: int| 0 <= e < proxy_refs_upto(c, i, k).len()
            implies names_edge_target(c, i, k, #[trigger] proxy_refs_upto(c, i, k)[e]) by {
            if e < prev.len() {
                assert(proxy_refs_upto(c, i, k)[e] == prev[e]);
                assert(names_edge_target(c, i, k - 1, prev[e]));
                let j = choose|j: int| 0 <= j < k - 1 && #[trigger] proxy_edge(c, i, j) && c.proxies@[j].name@ == prev[e];
                assert(proxy_edge(c, i, j));
            } else {
                assert(proxy_edge(c, i, k - 1));
                assert(c.proxies@[k - 1].name@ == proxy_refs_upto(c, i, k)[e]);
            }
        }
    }
}

/// Every proxy that `i` has an edge to, among the first `k`, is named in
/// its references.
proof fn lemma_edges_are_refs(c: Config, i: int, j: int, k: int)
    requires
        0 <= j < k <= c.proxies@.len(),
        proxy_edge(c, i, j),
    ensures
        proxy_refs_upto(c, i, k).contains(c.proxies@[j].name@),
    decreases k,
{
    if k - 1 > j {
        lemma_edges_are_refs(c, i, j, k - 1);
        let prev = proxy_refs_upto(c, i, k - 1);
        let w = choose|e: int| 0 <= e < prev.len() && prev[e] == c.proxies@[j].name@;
        assert(proxy_refs_upto(c, i, k)[w] == prev[w]);
    } else {
        assert(proxy_refs_upto(c, i, k).last() == c.proxies@[j].name@);
    }
}

/// When `j` is the only proxy that `i` has an edge to, the references of
/// `i` among the first `k` proxies are `j`'s name once `k` passes `j`.
proof fn lemma_single_ref(c: Config, i: int, j: int, k: int)
    requires
        0 <= j < c.proxies@.len(),
        0 <= k <= c.proxies@.len(),
        proxy_edge(c, i, j),
        forall|x: int| 0 <= x < c.proxies@.len() && #[trigger] proxy_edge(c, i, x) ==> x == j,
    ensures
        proxy_refs_upto(c, i, k) == if j < k { seq![c.proxies@[j].name@] } else { Seq::<Seq<char>>::empty() },
    decreases k,
{
    if k > 0 {
        lemma_single_ref(c, i, j, k - 1);
        if k - 1 == j {
            assert(Seq::<Seq<char>>::empty().push(c.proxies@[j].name@) =~= seq![c.proxies@[j].name@]);
        }
    }
}

/// Dependencies between proxy layers: a proxy with neither default upstream
/// nor routes depends on nothing; a proxy whose default upstream names
/// another materialized proxy depends on it; one that mentions Anubis
/// depends on the Anubis node when it exists. Every replica of a proxy
/// carries these dependencies.
pub proof fn lemma_layer_dependencies(c: Config, i: int, j: int)
    requires
        0 <= i < c.proxies@.len(),
        0 <= j < c.proxies@.len(),
    ensures
        c.proxies@[i].default_upstream is None && c.proxies@[i].routes@.len() == 0
            ==> proxy_deps(c, i).len() == 0,
        proxy_edge(c, i, j) ==> proxy_deps(c, i).contains(c.proxies@[j].name@),
        anubis_present(c) && mentions_anubis(c.proxies@[i]) ==> proxy_deps(c, i)[0] == anubis_name(),
        !(anubis_present(c) && mentions_anubis(c.proxies@[i])) ==> proxy_deps(c, i)
            == proxy_refs_upto(c, i, c.proxies@.len() as int),
        proxy_edge(c, i, j) && !(anubis_present(c) && mentions_anubis(c.proxies@[i]))
            && (forall|x: int| 0 <= x < c.proxies@.len() && #[trigger] proxy_edge(c, i, x) ==> x == j)
            ==> proxy_deps(c, i) == seq![c.proxies@[j].name@],
        forall|k: int| 1 <= k <= replica_count(c, i) ==> (#[trigger] replica_view(c, i, k)).depends_on == proxy_deps(c, i),
{
    let n = c.proxies@.len() as int;
    let a = if anubis_edge(c, i) { seq![anubis_name()] } else { Seq::<Seq<char>>::empty() };
    let refs = proxy_refs_upto(c, i, n);
    if c.proxies@[i].default_upstream is None && c.proxies@[i].routes@.len() == 0 {
        lemma_refs_are_edges(c, i, n);
        if refs.len() > 0 {
            assert(names_edge_target(c, i, n, refs[0]));
        }
        assert(!route_mentions_anubis(c.proxies@[i]));
    }
    if !anubis_edge(c, i) {
        assert(a + refs =~= refs);
    }
    if proxy_edge(c, i, j) && !anubis_edge(c, i)
        && (forall|x: int| 0 <= x < c.proxies@.len() && #[trigger] proxy_edge(c, i, x) ==> x == j) {
        lemma_single_ref(c, i, j, n);
    }
    if proxy_edge(c, i, j) {
        lemma_edges_are_refs(c, i, j, n);
        let w = choose|e: int| 0 <= e < refs.len() && refs[e] == c.proxies@[j].name@;
        assert(proxy_deps(c, i)[a.len() + w] == refs[w]);
    }
}

/// Resolution is deterministic: two topologies of one configuration have
/// the same nodes, in the same segments, with the same dependencies, and
/// the same network segments with the same address blocks.
pub proof fn lemma_deterministic(c: Config, t1: Topology, t2: Topology)
    requires
        is_topology_of(t1, c),
        is_topology_of(t2, c),
    ensures
        node_views(t1.nodes@) == node_views(t2.nodes@),
        forall|x: int| 0 <= x < t1.nodes@.len() ==> (#[trigger] t1.nodes@[x]).segment == t2.nodes@[x].segment
            && t1.nodes@[x].name@ == t2.nodes@[x].name@,
        t1.networks@.len() == t2.networks@.len(),
        forall|x: int| 0 <= x < t1.networks@.len() ==> (#[trigger] t1.networks@[x]).view() == t2.networks@[x].view(),
{
    assert(node_views(t1.nodes@).len() == t1.nodes@.len());
    assert(node_views(t2.nodes@).len() == t2.nodes@.len());
    assert(t1.networks@.map_values(|n: NetworkSegment| n.view()).len() == t1.networks@.len());
    assert(t2.networks@.map_values(|n: NetworkSegment| n.view()).len() == t2.networks@.len());
    assert forall|x: int| 0 <= x < t1.nodes@.len() implies (#[trigger] t1.nodes@[x]).segment == t2.nodes@[x].segment
        && t1.nodes@[x].name@ == t2.nodes@[x].name@ by {
        assert(node_views(t1.nodes@)[x] == node_views(t2.nodes@)[x]);
        assert(node_views(t1.nodes@)[x] == t1.nodes@[x]@);
        assert(node_views(t2.nodes@)[x] == t2.nodes@[x]@);
    }
    assert forall|x: int| 0 <= x < t1.networks@.len() implies (#[trigger] t1.networks@[x]).view() == t2.networks@[x].view() by {
        assert(t1.networks@.map_values(|n: NetworkSegment| n.view())[x] == t2.networks@.map_values(|n: NetworkSegment| n.view())[x]);
    }
}


/// Every node of a topology points at a declaration of its configuration.
pub proof fn lemma_nodes_sourced(c: Config)
    ensures
        crate::compose::nodes_sourced(c, topology_nodes(c)),
{
    let n = c.proxies@.len() as int;
    let m = c.services@.len() as int;
    let all = proxy_nodes_upto(c, n);
    let a = if anubis_present(c) { seq![anubis_view(c)] } else { Seq::<NodeView>::empty() };
    let s = service_nodes_upto(c, m);
    lemma_proxy_nodes_shape(c, n);
    lemma_service_nodes_shape(c, m);
    assert(topology_nodes(c) =~= all + a + s);
    assert forall|x: int| 0 <= x < topology_nodes(c).len() implies {
        let v = #[trigger] topology_nodes(c)[x];
        &&& v.kind == NodeKind::ProxyReplica ==> 0 <= v.source < c.proxies@.len()
        &&& v.kind == NodeKind::BackendService ==> 0 <= v.source < c.services@.len()
    } by {
        if x < all.len() {
            assert(topology_nodes(c)[x] == all[x]);
        } else if x < all.len() + a.len() {
            assert(topology_nodes(c)[x] == a[x - all.len()]);
        } else {
            assert(topology_nodes(c)[x] == s[x - all.len() - a.len()]);
        }
    }
}

/// Generated service nodes are backend services of declared services.
proof fn lemma_service_nodes_shape(c: Config, k: int)
    requires
        0 <= k <= c.services@.len(),
    ensures
        forall|x: int| 0 <= x < service_nodes_upto(c, k).len() ==> {
            let v = #[trigger] service_nodes_upto(c, k)[x];
            v.kind == NodeKind::BackendService && 0 <= v.source < k
        },
    decreases k,
{
    if k > 0 {
        lemma_service_nodes_shape(c, k - 1);
        let prev = service_nodes_upto(c, k - 1);
        assert forall|x: int| 0 <= x < service_nodes_upto(c, k).len() implies {
            let v = #[trigger] service_nodes_upto(c, k)[x];
            v.kind == NodeKind::BackendService && 0 <= v.source < k
        } by {
            if x < prev.len() {
                assert(service_nodes_upto(c, k)[x] == prev[x]);
            }
        }
    }
}


/// `d` names a materialized proxy among the first `k` on the highest layer.
pub open spec fn names_back_layer(c: Config, k: int, d: Seq<char>) -> bool {
    exists|j: int| 0 <= j < k && #[trigger] mat(c, j) && layer_of(c.proxies@[j]) == max_layer(c) && c.proxies@[j].name@ == d
}

/// Every dependency of Anubis among the first `k` proxies names a
/// materialized proxy of the highest layer.
proof fn lemma_back_layer_names(c: Config, k: int)
    requires
        0 <= k <= c.proxies@.len(),
    ensures
        forall|e: int| 0 <= e < back_layer_upto(c, k).len()
            ==> names_back_layer(c, k, #[trigger] back_layer_upto(c, k)[e]),
    decreases k,
{
    if k > 0 {
        lemma_back_layer_names(c, k - 1);
        let prev = back_layer_upto(c, k - 1);
        assert forall|e: int| 0 <= e < back_layer_upto(c, k).len()
            implies names_back_layer(c, k, #[trigger] back_layer_upto(c, k)[e]) by {
            if e < prev.len() {
                assert(back_layer_upto(c, k)[e] == prev[e]);
                assert(names_back_layer(c, k - 1, prev[e]));
                let j = choose|j: int| 0 <= j < k - 1 && #[trigger] mat(c, j) && layer_of(c.proxies@[j]) == max_layer(c) && c.proxies@[j].name@ == prev[e];
                assert(mat(c, j));
            } else {
                assert(mat(c, k - 1));
            }
        }
    }
}

/// Each node of the topology, by position: a proxy replica, the Anubis
/// node, or a generated service.
proof fn lemma_node_at(c: Config, x: int)
    requires
        0 <= x < topology_nodes(c).len(),
    ensures
        x < proxy_nodes_upto(c, c.proxies@.len() as int).len() ==> {
            let v = topology_nodes(c)[x];
            &&& v.kind == NodeKind::ProxyReplica
            &&& 0 <= v.source < c.proxies@.len()
            &&& mat(c, v.source)
            &&& v.depends_on == proxy_deps(c, v.source)
        },
        topology_nodes(c)[x].kind == NodeKind::Anubis ==> anubis_present(c),
        topology_nodes(c)[x].kind != NodeKind::BackendService ==> 0 <= decl_node(c, topology_nodes(c)[x]) <= c.proxies@.len(),
        x >= proxy_nodes_upto(c, c.proxies@.len() as int).len() ==> (
            (topology_nodes(c)[x].kind == NodeKind::Anubis && topology_nodes(c)[x] == anubis_view(c))
            || (topology_nodes(c)[x].kind == NodeKind::BackendService && topology_nodes(c)[x].depends_on.len() == 0)),
{
    let n = c.proxies@.len() as int;
    let m = c.services@.len() as int;
    let all = proxy_nodes_upto(c, n);
    let a = if anubis_present(c) { seq![anubis_view(c)] } else { Seq::<NodeView>::empty() };
    let s = service_nodes_upto(c, m);
    lemma_proxy_nodes_shape(c, n);
    lemma_service_nodes_views(c, m);
    assert(topology_nodes(c) =~= all + a + s);
    if x < all.len() {
        assert(topology_nodes(c)[x] == all[x]);
    } else if x < all.len() + a.len() {
        assert(topology_nodes(c)[x] == a[x - all.len()]);
    } else {
        assert(topology_nodes(c)[x] == s[x - all.len() - a.len()]);
    }
}

/// Generated service nodes are the views of their services.
proof fn lemma_service_nodes_views(c: Config, k: int)
    requires
        0 <= k <= c.services@.len(),
    ensures
        forall|x: int| 0 <= x < service_nodes_upto(c, k).len() ==> {
            let v = #[trigger] service_nodes_upto(c, k)[x];
            v.kind == NodeKind::BackendService && v.depends_on.len() == 0
        },
    decreases k,
{
    if k > 0 {
        lemma_service_nodes_views(c, k - 1);
        let prev = service_nodes_upto(c, k - 1);
        assert forall|x: int| 0 <= x < service_nodes_upto(c, k).len() implies {
            let v = #[trigger] service_nodes_upto(c, k)[x];
            v.kind == NodeKind::BackendService && v.depends_on.len() == 0
        } by {
            if x < prev.len() {
                assert(service_nodes_upto(c, k)[x] == prev[x]);
            }
        }
    }
}

/// When it exists, the Anubis node stands right after the proxy nodes.
proof fn lemma_anubis_node(c: Config)
    requires
        anubis_present(c),
    ensures
        topology_nodes(c)[proxy_nodes_upto(c, c.proxies@.len() as int).len() as int] == anubis_view(c),
{
    let all = proxy_nodes_upto(c, c.proxies@.len() as int);
    let s = service_nodes_upto(c, c.services@.len() as int);
    assert(topology_nodes(c) =~= all + seq![anubis_view(c)] + s);
    assert(topology_nodes(c)[all.len() as int] == anubis_view(c));
}

/// The node of the dependency graph that a topology node belongs to.
pub open spec fn decl_node(c: Config, v: NodeView) -> int {
    if v.kind == NodeKind::Anubis { c.proxies@.len() as int } else { v.source }
}

/// In the topology of a valid configuration, every dependency of a node
/// names a node whose declaration it has an edge to in the dependency graph.
pub proof fn lemma_dependency_is_edge(c: Config, x: int, e: int)
    requires
        config_valid(c),
        0 <= x < topology_nodes(c).len(),
        0 <= e < topology_nodes(c)[x].depends_on.len(),
    ensures
        topology_nodes(c)[x].kind != NodeKind::BackendService,
        exists|y: int| 0 <= y < topology_nodes(c).len()
            && #[trigger] topology_nodes(c)[y].name == topology_nodes(c)[x].depends_on[e]
            && topology_nodes(c)[y].kind != NodeKind::BackendService
            && decl_edge(c, decl_node(c, topology_nodes(c)[x]), decl_node(c, topology_nodes(c)[y])),
{
    let n = c.proxies@.len() as int;
    let nodes = topology_nodes(c);
    let pn = proxy_nodes_upto(c, n).len() as int;
    lemma_node_at(c, x);
    let v = nodes[x];
    let d = v.depends_on[e];
    if x < pn {
        let i = v.source;
        let a = if anubis_edge(c, i) { seq![anubis_name()] } else { Seq::<Seq<char>>::empty() };
        let refs = proxy_refs_upto(c, i, n);
        if e < a.len() {
            lemma_anubis_node(c);
            lemma_node_at(c, pn);
            assert(nodes[pn].name == d);
            assert(decl_edge(c, decl_node(c, v), decl_node(c, nodes[pn])));
        } else {
            assert(d == refs[e - a.len()]);
            lemma_refs_are_edges(c, i, n);
            assert(names_edge_target(c, i, n, refs[e - a.len()]));
            let j = choose|j: int| 0 <= j < n && #[trigger] proxy_edge(c, i, j) && c.proxies@[j].name@ == refs[e - a.len()];
            lemma_proxy_materializes(c, j);
            let y = replica_offset(c, j);
            lemma_replica_block(c, j);
            assert(nodes[y].name == d);
            assert(decl_edge(c, decl_node(c, v), decl_node(c, nodes[y])));
        }
    } else {
        assert(v == anubis_view(c));
        assert(multi_layer(c));
        let b = back_layer_upto(c, n);
        lemma_back_layer_names(c, n);
        assert(names_back_layer(c, n, b[e]));
        let j = choose|j: int| 0 <= j < n && #[trigger] mat(c, j) && layer_of(c.proxies@[j]) == max_layer(c) && c.proxies@[j].name@ == b[e];
        lemma_proxy_materializes(c, j);
        let y = replica_offset(c, j);
        lemma_replica_block(c, j);
        assert(nodes[y].name == d);
        assert(anubis_present(c));
        assert(decl_edge(c, decl_node(c, v), decl_node(c, nodes[y])));
    }
}

/// `path` follows dependencies: each node depends on the next one.
pub open spec fn is_dependency_path(nodes: Seq<NodeView>, path: Seq<int>) -> bool {
    &&& forall|s: int| 0 <= s < path.len() ==> 0 <= #[trigger] path[s] < nodes.len()
    &&& forall|s: int| 0 <= s < path.len() - 1 ==> nodes[#[trigger] path[s]].depends_on.contains(nodes[path[s + 1]].name)
}

/// A dependency between two nodes of a resolved topology is an edge of
/// the dependency graph between their declarations.
proof fn lemma_dependency_step(c: Config, p: int, q: int)
    requires
        resolves(c),
        0 <= p < topology_nodes(c).len(),
        0 <= q < topology_nodes(c).len(),
        topology_nodes(c)[p].depends_on.contains(topology_nodes(c)[q].name),
    ensures
        crate::graph::edge(decl_graph(c), decl_node(c, topology_nodes(c)[p]), decl_node(c, topology_nodes(c)[q])),
{
    let nodes = topology_nodes(c);
    let g = decl_graph(c);
    let e = choose|e: int| 0 <= e < nodes[p].depends_on.len() && nodes[p].depends_on[e] == nodes[q].name;
    lemma_dependency_is_edge(c, p, e);
    let y = choose|y: int| 0 <= y < nodes.len() && #[trigger] nodes[y].name == nodes[p].depends_on[e]
        && nodes[y].kind != NodeKind::BackendService
        && decl_edge(c, decl_node(c, nodes[p]), decl_node(c, nodes[y]));
    if y != q {
        if y < q {
            assert(nodes[y].name == nodes[q].name);
        } else {
            assert(nodes[q].name == nodes[y].name);
        }
        assert(has_duplicate_name(nodes));
    }
    lemma_node_at(c, p);
    lemma_node_at(c, q);
    let a = decl_node(c, nodes[p]);
    let b = decl_node(c, nodes[q]);
    assert(g[a][b] == decl_edge(c, a, b));
}

/// The dependency graph of a resolved topology has no cycle: no path of
/// dependencies leads from a node back to itself.
#[verifier::rlimit(60)]
pub proof fn lemma_no_dependency_cycle(c: Config, path: Seq<int>)
    requires
        resolves(c),
        path.len() >= 2,
        is_dependency_path(topology_nodes(c), path),
    ensures
        path[0] != path[path.len() - 1],
{
    let nodes = topology_nodes(c);
    let g = decl_graph(c);
    let w = Seq::new(path.len(), |s: int| decl_node(c, nodes[path[s]]));
    assert forall|s: int| 0 <= s < w.len() - 1 implies crate::graph::edge(g, #[trigger] w[s], w[s + 1]) by {
        lemma_dependency_step(c, path[s], path[s + 1]);
    }
    assert forall|s: int| 0 <= s < w.len() implies 0 <= #[trigger] w[s] < g.len() by {
        if s < w.len() - 1 {
            assert(crate::graph::edge(g, w[s], w[s + 1]));
        } else {
            assert(crate::graph::edge(g, w[s - 1], w[s]));
        }
    }
    assert(crate::graph::is_walk(g, w));
    crate::graph::lemma_acyclic_walk(g, w);
}

} // verus!
