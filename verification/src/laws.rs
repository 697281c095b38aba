//! The laws of the engine, proved over the host model.

use vstd::prelude::*;
use crate::ip::Ipv4;
use crate::model::{
    lemma_add_addr_wf, lemma_lookup_none, lemma_lookup_some, lemma_set_up_wf, lemma_with_ns_wf,
    HostModel, Loc, MountTables, Route,
};
use crate::namespaces::peer_name_of;

verus! {

/// Namespace lifecycle law: a name not yet present can be created, the
/// created namespace can then be opened, and a second creation under the
/// same name is refused — creation is not idempotent.
pub proof fn lemma_create_then_open(m: HostModel, name: Seq<char>)
    requires
        !m.namespaces.contains(name),
    ensures
        m.can_create_ns(name),
        m.with_ns(name).can_open_ns(name),
        !m.with_ns(name).can_create_ns(name),
{
}

/// Veth-pair law: the two indices a pair creation hands out are distinct,
/// and each resolves by name lookup to its own end.
pub proof fn lemma_veth_pair_distinct(m: HostModel, name: Seq<char>, peer_name: Seq<char>)
    requires
        m.wf(),
        name != peer_name,
        m.lookup(Loc::Host, name) is None,
        m.lookup(Loc::Host, peer_name) is None,
    ensures
        ({
            let m2 = m.add_veth(name, peer_name);
            let h = m.next_index;
            let p = (m.next_index + 1) as nat;
            &&& m2.wf()
            &&& h != p
            &&& m2.lookup(Loc::Host, name) == Some(h)
            &&& m2.lookup(Loc::Host, peer_name) == Some(p)
        }),
{
    let m2 = m.add_veth(name, peer_name);
    let h = m.next_index;
    let p = (m.next_index + 1) as nat;
    assert forall|i: nat, j: nat|
        #[trigger] m2.links.dom().contains(i) && #[trigger] m2.links.dom().contains(j) && i != j
            && m2.links[i].loc == m2.links[j].loc implies m2.links[i].name
        != m2.links[j].name by {
        if i != h && i != p && j != h && j != p {
            assert(m.links.dom().contains(i));
            assert(m.links.dom().contains(j));
        } else if (i == h && j != h && j != p) || (j == h && i != h && i != p) {
            let o = if i == h {
                j
            } else {
                i
            };
            if m2.links[o].name == name && m2.links[o].loc == Loc::Host {
                assert(m.link_named(o, Loc::Host, name));
            }
        } else if (i == p && j != h && j != p) || (j == p && i != h && i != p) {
            let o = if i == p {
                j
            } else {
                i
            };
            if m2.links[o].name == peer_name && m2.links[o].loc == Loc::Host {
                assert(m.link_named(o, Loc::Host, peer_name));
            }
        }
    }
    assert(m2.link_named(h, Loc::Host, name));
    assert(m2.link_named(p, Loc::Host, peer_name));
    lemma_lookup_some(m2, h, Loc::Host, name);
    lemma_lookup_some(m2, p, Loc::Host, peer_name);
}

/// Namespace-handoff law: after a link is moved into another namespace, a
/// lookup of its name in the original namespace finds nothing, and the same
/// lookup inside the destination namespace finds exactly the moved link.
pub proof fn lemma_move_interface(m: HostModel, i: nat, dest: Loc)
    requires
        m.wf(),
        m.links.dom().contains(i),
        m.links[i].loc != dest,
        m.loc_exists(dest),
        m.lookup(dest, m.links[i].name) is None,
    ensures
        ({
            let m2 = m.move_link(i, dest);
            let name = m.links[i].name;
            let orig = m.links[i].loc;
            &&& m2.wf()
            &&& m2.lookup(orig, name) is None
            &&& m2.lookup(dest, name) == Some(i)
        }),
{
    let m2 = m.move_link(i, dest);
    let name = m.links[i].name;
    let orig = m.links[i].loc;
    assert forall|a: nat, b: nat|
        #[trigger] m2.links.dom().contains(a) && #[trigger] m2.links.dom().contains(b) && a != b
            && m2.links[a].loc == m2.links[b].loc implies m2.links[a].name
        != m2.links[b].name by {
        if a != i && b != i {
            assert(m.links.dom().contains(a));
            assert(m.links.dom().contains(b));
        } else {
            let o = if a == i {
                b
            } else {
                a
            };
            if m2.links[o].name == name && m2.links[o].loc == dest {
                assert(m.link_named(o, dest, name));
            }
        }
    }
    if exists|j: nat| m2.link_named(j, orig, name) {
        let w = choose|j: nat| m2.link_named(j, orig, name);
        if w == i {
            assert(false);
        } else {
            assert(m.link_named(w, orig, name));
            assert(m.link_named(i, orig, name));
            assert(false);
        }
    }
    assert(m2.link_named(i, dest, name));
    lemma_lookup_some(m2, i, dest, name);
}

/// The model-level effect of the four delegated configuration commands, run
/// inside namespace `ns`: bring the loopback up, bring the veth peer up,
/// assign `peer_ip/24` to the peer, add a default route via `gw` through
/// the peer.  A command whose link lookup finds nothing changes nothing.
pub open spec fn conf_effect(m: HostModel, ns: Seq<char>, gw: Ipv4, peer_ip: Ipv4) -> HostModel {
    let loc = Loc::Netns(ns);
    let peern = peer_name_of(ns);
    let m1 = match m.lookup(loc, "lo"@) {
        Some(i) => m.set_up(i),
        None => m,
    };
    let m2 = match m1.lookup(loc, peern) {
        Some(i) => m1.set_up(i),
        None => m1,
    };
    let m3 = match m2.lookup(loc, peern) {
        Some(i) => m2.add_addr(i, peer_ip, 24),
        None => m2,
    };
    m3.add_route(loc, peern, gw)
}

/// The model-level effect of the whole orchestration for namespace `ns`:
/// create the namespace, create the veth pair named after it, move the peer
/// end inside, and run the in-namespace configuration.
pub open spec fn provision(m: HostModel, ns: Seq<char>, gw: Ipv4, peer_ip: Ipv4) -> HostModel {
    let m1 = m.with_ns(ns);
    let m2 = m1.add_veth(ns, peer_name_of(ns));
    let peer_idx = (m1.next_index + 1) as nat;
    let m3 = m2.move_link(peer_idx, Loc::Netns(ns));
    conf_effect(m3, ns, gw, peer_ip)
}

/// End-to-end law: after a full orchestration for a fresh namespace `ns`,
/// the peer interface `<ns>_peer` resolves inside `ns`, carries
/// `peer_ip/24`, is administratively up, a default route via `gw` through
/// it exists in `ns`, and the namespace's loopback is up.
pub proof fn lemma_provision_end_to_end(m: HostModel, ns: Seq<char>, gw: Ipv4, peer_ip: Ipv4)
    requires
        m.wf(),
        !m.namespaces.contains(ns),
        m.lookup(Loc::Host, ns) is None,
        m.lookup(Loc::Host, peer_name_of(ns)) is None,
    ensures
        ({
            let mf = provision(m, ns, gw, peer_ip);
            let loc = Loc::Netns(ns);
            let peern = peer_name_of(ns);
            let lo_idx = m.next_index;
            let peer_idx = (m.next_index + 2) as nat;
            &&& mf.wf()
            &&& mf.lookup(loc, peern) == Some(peer_idx)
            &&& mf.links[peer_idx].addrs.contains((peer_ip, 24))
            &&& mf.links[peer_idx].up
            &&& mf.routes.contains(Route { loc, dev: peern, via: gw })
            &&& mf.lookup(loc, "lo"@) == Some(lo_idx)
            &&& mf.links[lo_idx].up
        }),
{
    let loc = Loc::Netns(ns);
    let peern = peer_name_of(ns);
    reveal_strlit("lo");
    reveal_strlit("_peer");
    assert(peern.len() == ns.len() + 5);
    assert("lo"@.len() == 2);
    assert(ns != peern);
    assert(peern != "lo"@);
    lemma_lookup_none(m, Loc::Host, ns);
    lemma_lookup_none(m, Loc::Host, peern);

    let m1 = m.with_ns(ns);
    let lo_idx = m.next_index;
    lemma_with_ns_wf(m, ns);
    assert(m1.lookup(Loc::Host, ns) is None) by {
        if exists|j: nat| m1.link_named(j, Loc::Host, ns) {
            let w = choose|j: nat| m1.link_named(j, Loc::Host, ns);
            if w != lo_idx {
                assert(m.link_named(w, Loc::Host, ns));
            }
            assert(false);
        }
    }
    assert(m1.lookup(Loc::Host, peern) is None) by {
        if exists|j: nat| m1.link_named(j, Loc::Host, peern) {
            let w = choose|j: nat| m1.link_named(j, Loc::Host, peern);
            if w != lo_idx {
                assert(m.link_named(w, Loc::Host, peern));
            }
            assert(false);
        }
    }

    let m2 = m1.add_veth(ns, peern);
    let h = m1.next_index;
    let p = (m1.next_index + 1) as nat;
    lemma_veth_pair_distinct(m1, ns, peern);
    assert(m2.lookup(loc, peern) is None) by {
        if exists|j: nat| m2.link_named(j, loc, peern) {
            let w = choose|j: nat| m2.link_named(j, loc, peern);
            if w != h && w != p && w != lo_idx {
                assert(m.link_named(w, loc, peern));
                assert(m.loc_exists(loc));
            }
            assert(false);
        }
    }

    assert(m2.links.dom().contains(p));
    assert(m2.links[p].loc == Loc::Host);
    assert(m2.links[p].name == peern);
    assert(m2.loc_exists(loc));
    lemma_move_interface(m2, p, loc);
    let m3 = m2.move_link(p, loc);

    assert(m3.link_named(lo_idx, loc, "lo"@));
    lemma_lookup_some(m3, lo_idx, loc, "lo"@);

    let c1 = m3.set_up(lo_idx);
    lemma_set_up_wf(m3, lo_idx);
    assert(c1.link_named(p, loc, peern));
    lemma_lookup_some(c1, p, loc, peern);
    let c2 = c1.set_up(p);
    lemma_set_up_wf(c1, p);
    assert(c2.link_named(p, loc, peern));
    lemma_lookup_some(c2, p, loc, peern);
    let c3 = c2.add_addr(p, peer_ip, 24);
    lemma_add_addr_wf(c2, p, peer_ip, 24);
    let mf = c3.add_route(loc, peern, gw);
    assert(mf.wf());

    assert(c3.links[p].up);
    assert(c3.links[p].addrs.contains((peer_ip, 24)));
    assert(mf.link_named(p, loc, peern));
    lemma_lookup_some(mf, p, loc, peern);
    assert(mf.routes.contains(Route { loc, dev: peern, via: gw }));
    assert(c1.links[lo_idx].up);
    assert(mf.links[lo_idx].up);
    assert(mf.link_named(lo_idx, loc, "lo"@));
    lemma_lookup_some(mf, lo_idx, loc, "lo"@);
    assert(mf == provision(m, ns, gw, peer_ip));
}

/// Mount-isolation law: once a process has detached its mount namespace and
/// made it private, a mount it performs is invisible to every other
/// process — the table any other process sees is unchanged, while the
/// isolated process sees its old table with the new entry appended.
pub proof fn lemma_mount_isolation(m: MountTables, child: nat, other: nat, entry: Seq<char>)
    requires
        m.wf(),
        m.member.dom().contains(child),
        m.member.dom().contains(other),
        child != other,
    ensures
        ({
            let m2 = m.isolate_mounts(child).mount_in(child, entry);
            &&& m2.visible(other) == m.visible(other)
            &&& m2.visible(child) == m.visible(child).push(entry)
        }),
{
    let m1 = m.isolate_mounts(child);
    let m2 = m1.mount_in(child, entry);
    assert(m1.member[other] == m.member[other]);
    assert(m.member[other] < m.next_ns);
    assert(m1.visible(other) == m.visible(other));
    assert(m2.visible(other) == m.visible(other));
}

} // verus!
