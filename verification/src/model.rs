//! A mathematical model of the host state the engine manipulates.
//!
//! The kernel's observable state — which namespaces exist, which links live
//! where with which addresses, which routes exist, which mount tables which
//! process sees — is modelled here as ghost data.  Each request the engine
//! issues has a transition on this model, and the laws of the engine are
//! proved over these transitions.

use vstd::prelude::*;
use crate::ip::Ipv4;

verus! {

/// Where a link lives: the host namespace, or a named network namespace.
pub enum Loc {
    Host,
    Netns(Seq<char>),
}

/// One network link: its name, where it lives, its addresses, its
/// administrative state, and its veth peer if it has one.
pub struct Link {
    pub name: Seq<char>,
    pub loc: Loc,
    pub addrs: Set<(Ipv4, u8)>,
    pub up: bool,
    pub peer: Option<nat>,
}

/// One route: a default route via `via` through device `dev`, visible in
/// the namespace `loc`.
pub struct Route {
    pub loc: Loc,
    pub dev: Seq<char>,
    pub via: Ipv4,
}

/// The modelled host: the named namespaces, the links by interface index,
/// the routes, and the next index the kernel hands out.  An interface index
/// is process-wide unique and stable until its link is deleted.
pub struct HostModel {
    pub namespaces: Set<Seq<char>>,
    pub links: Map<nat, Link>,
    pub routes: Set<Route>,
    pub next_index: nat,
}

impl HostModel {
    /// Whether the namespace of a location exists.
    pub open spec fn loc_exists(self, l: Loc) -> bool {
        match l {
            Loc::Host => true,
            Loc::Netns(n) => self.namespaces.contains(n),
        }
    }

    /// Well-formedness: indices are below the next free one, a name is
    /// carried by at most one link per namespace, and every link lives in a
    /// namespace that exists.
    pub open spec fn wf(self) -> bool {
        &&& forall|i: nat| #[trigger] self.links.dom().contains(i) ==> i < self.next_index
        &&& forall|i: nat, j: nat|
            #[trigger] self.links.dom().contains(i) && #[trigger] self.links.dom().contains(j) && i
                != j && self.links[i].loc == self.links[j].loc ==> self.links[i].name
                != self.links[j].name
        &&& forall|i: nat| #[trigger] self.links.dom().contains(i) ==> self.loc_exists(
            self.links[i].loc,
        )
    }

    /// Link `i` exists, lives in `loc`, and is called `name`.
    pub open spec fn link_named(self, i: nat, loc: Loc, name: Seq<char>) -> bool {
        self.links.dom().contains(i) && self.links[i].loc == loc && self.links[i].name == name
    }

    /// The single-result lookup of a link by name within one namespace.
    pub open spec fn lookup(self, loc: Loc, name: Seq<char>) -> Option<nat> {
        if exists|i: nat| self.link_named(i, loc, name) {
            Some(choose|i: nat| self.link_named(i, loc, name))
        } else {
            None
        }
    }

    /// A namespace with this name can be created: none exists yet.
    pub open spec fn can_create_ns(self, name: Seq<char>) -> bool {
        !self.namespaces.contains(name)
    }

    /// A namespace with this name can be opened: it exists.
    pub open spec fn can_open_ns(self, name: Seq<char>) -> bool {
        self.namespaces.contains(name)
    }

    /// Namespace creation: the name comes into existence, and the new
    /// namespace starts with its own loopback link, administratively down.
    pub open spec fn with_ns(self, name: Seq<char>) -> HostModel {
        HostModel {
            namespaces: self.namespaces.insert(name),
            links: self.links.insert(
                self.next_index,
                Link {
                    name: "lo"@,
                    loc: Loc::Netns(name),
                    addrs: Set::empty(),
                    up: false,
                    peer: None,
                },
            ),
            routes: self.routes,
            next_index: (self.next_index + 1) as nat,
        }
    }

    /// Veth-pair creation: two fresh links on the host, each the other's
    /// peer, with consecutive fresh indices.
    pub open spec fn add_veth(self, name: Seq<char>, peer_name: Seq<char>) -> HostModel {
        let h = self.next_index;
        let p = (self.next_index + 1) as nat;
        HostModel {
            namespaces: self.namespaces,
            links: self.links.insert(
                h,
                Link { name, loc: Loc::Host, addrs: Set::empty(), up: false, peer: Some(p) },
            ).insert(
                p,
                Link { name: peer_name, loc: Loc::Host, addrs: Set::empty(), up: false, peer: Some(h) },
            ),
            routes: self.routes,
            next_index: (self.next_index + 2) as nat,
        }
    }

    /// Moving a link into another namespace: a one-way reassignment of its
    /// location; everything else about the link is untouched.
    pub open spec fn move_link(self, i: nat, dest: Loc) -> HostModel {
        if self.links.dom().contains(i) {
            HostModel {
                namespaces: self.namespaces,
                links: self.links.insert(
                    i,
                    Link {
                        name: self.links[i].name,
                        loc: dest,
                        addrs: self.links[i].addrs,
                        up: self.links[i].up,
                        peer: self.links[i].peer,
                    },
                ),
                routes: self.routes,
                next_index: self.next_index,
            }
        } else {
            self
        }
    }

    /// Bringing a link administratively up.
    pub open spec fn set_up(self, i: nat) -> HostModel {
        if self.links.dom().contains(i) {
            HostModel {
                namespaces: self.namespaces,
                links: self.links.insert(
                    i,
                    Link {
                        name: self.links[i].name,
                        loc: self.links[i].loc,
                        addrs: self.links[i].addrs,
                        up: true,
                        peer: self.links[i].peer,
                    },
                ),
                routes: self.routes,
                next_index: self.next_index,
            }
        } else {
            self
        }
    }

    /// Assigning one more address to a link.
    pub open spec fn add_addr(self, i: nat, addr: Ipv4, prefix: u8) -> HostModel {
        if self.links.dom().contains(i) {
            HostModel {
                namespaces: self.namespaces,
                links: self.links.insert(
                    i,
                    Link {
                        name: self.links[i].name,
                        loc: self.links[i].loc,
                        addrs: self.links[i].addrs.insert((addr, prefix)),
                        up: self.links[i].up,
                        peer: self.links[i].peer,
                    },
                ),
                routes: self.routes,
                next_index: self.next_index,
            }
        } else {
            self
        }
    }

    /// Adding a default route via `via` through `dev` in namespace `loc`.
    pub open spec fn add_route(self, loc: Loc, dev: Seq<char>, via: Ipv4) -> HostModel {
        HostModel {
            namespaces: self.namespaces,
            links: self.links,
            routes: self.routes.insert(Route { loc, dev, via }),
            next_index: self.next_index,
        }
    }
}

/// The modelled mount state of the host: mount tables by mount-namespace
/// id, the mount namespace each process is a member of, and the next free
/// namespace id.  After the root is remounted non-propagating, a mount made
/// in one namespace changes that namespace's table alone.
pub struct MountTables {
    pub tables: Map<nat, Seq<Seq<char>>>,
    pub member: Map<nat, nat>,
    pub next_ns: nat,
}

impl MountTables {
    /// Well-formedness: every process is a member of an existing mount
    /// namespace with an id below the next free one.
    pub open spec fn wf(self) -> bool {
        forall|p: nat| #[trigger] self.member.dom().contains(p) ==> self.member[p] < self.next_ns
            && self.tables.dom().contains(self.member[p])
    }

    /// The mount table the process `pid` sees.
    pub open spec fn visible(self, pid: nat) -> Seq<Seq<char>> {
        self.tables[self.member[pid]]
    }

    /// Unsharing the mount namespace of `pid` and making its root
    /// non-propagating: the process moves into a fresh namespace holding a
    /// private copy of the table it saw.
    pub open spec fn isolate_mounts(self, pid: nat) -> MountTables {
        MountTables {
            tables: self.tables.insert(self.next_ns, self.visible(pid)),
            member: self.member.insert(pid, self.next_ns),
            next_ns: (self.next_ns + 1) as nat,
        }
    }

    /// A mount performed by `pid`: an entry appended to the table of the
    /// mount namespace `pid` is a member of.
    pub open spec fn mount_in(self, pid: nat, entry: Seq<char>) -> MountTables {
        MountTables {
            tables: self.tables.insert(self.member[pid], self.visible(pid).push(entry)),
            member: self.member,
            next_ns: self.next_ns,
        }
    }
}

/// A name lookup resolves to exactly the link that carries the name: in a
/// well-formed host, at most one link per namespace does.
pub proof fn lemma_lookup_some(m: HostModel, i: nat, loc: Loc, name: Seq<char>)
    requires
        m.wf(),
        m.link_named(i, loc, name),
    ensures
        m.lookup(loc, name) == Some(i),
{
    assert(exists|j: nat| m.link_named(j, loc, name));
    let w = choose|j: nat| m.link_named(j, loc, name);
    if w != i {
        assert(m.links.dom().contains(i));
        assert(m.links.dom().contains(w));
        assert(false);
    }
}

/// A lookup that finds nothing means no link carries the name there.
pub proof fn lemma_lookup_none(m: HostModel, loc: Loc, name: Seq<char>)
    requires
        m.lookup(loc, name) is None,
    ensures
        forall|i: nat| !m.link_named(i, loc, name),
{
}

/// Namespace creation preserves well-formedness when the name is new.
pub proof fn lemma_with_ns_wf(m: HostModel, name: Seq<char>)
    requires
        m.wf(),
        !m.namespaces.contains(name),
    ensures
        m.with_ns(name).wf(),
{
    let m2 = m.with_ns(name);
    assert forall|i: nat, j: nat|
        #[trigger] m2.links.dom().contains(i) && #[trigger] m2.links.dom().contains(j) && i != j
            && m2.links[i].loc == m2.links[j].loc implies m2.links[i].name
        != m2.links[j].name by {
        if i == m.next_index || j == m.next_index {
            let o = if i == m.next_index {
                j
            } else {
                i
            };
            assert(m.links.dom().contains(o));
            assert(m.links[o].loc == Loc::Netns(name));
            assert(m.loc_exists(m.links[o].loc));
            assert(false);
        } else {
            assert(m.links.dom().contains(i));
            assert(m.links.dom().contains(j));
        }
    }
    assert forall|i: nat| #[trigger] m2.links.dom().contains(i) implies m2.loc_exists(
        m2.links[i].loc,
    ) by {
        if i != m.next_index {
            assert(m.links.dom().contains(i));
            assert(m.loc_exists(m.links[i].loc));
        }
    }
}

/// Bringing a link up preserves well-formedness, location, names, and the
/// rest of every link.
pub proof fn lemma_set_up_wf(m: HostModel, i: nat)
    requires
        m.wf(),
    ensures
        m.set_up(i).wf(),
{
}

/// Assigning an address preserves well-formedness.
pub proof fn lemma_add_addr_wf(m: HostModel, i: nat, addr: Ipv4, prefix: u8)
    requires
        m.wf(),
    ensures
        m.add_addr(i, addr, prefix).wf(),
{
}

} // verus!
