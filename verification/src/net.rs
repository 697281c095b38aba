//! Virtual network topology construction.
//!
//! Every netlink exchange is broken into a verified decision core and an
//! unverified effect.  A builder here is a state machine: `action` says which
//! netlink request to issue next, the surrounding process issues it and
//! reports the outcome through `step`, and `result` classifies the finished
//! run.  Creation and index-resolution failures are hard errors; address
//! assignment and link-up failures are logged and skipped (best-effort
//! sequencing), matching the stated policy of this subsystem.

use vstd::prelude::*;
use crate::errors::{Errcode, NetCause};
use crate::ip::Ipv4;
use crate::strutil::dec_rep;

verus! {

/// An external program invocation: a program name and its arguments.
#[derive(Debug)]
pub struct Command {
    pub program: String,
    pub args: Vec<String>,
}

impl Command {
    /// The arguments as sequences of characters.
    pub open spec fn args_view(&self) -> Seq<Seq<char>> {
        self.args.deep_view()
    }
}

/// One netlink request.
#[derive(Debug)]
pub enum NetAction {
    /// Create a bridge device with the given name.
    AddBridge { name: String },
    /// Create a veth pair with the given end names.
    AddVeth { name: String, peer: String },
    /// Resolve the index of the link with the given name; single-result query.
    GetLinkIndex { name: String },
    /// Assign `addr/prefix` to the link with the given index.
    AddAddress { index: u32, addr: Ipv4, prefix: u8 },
    /// Bring the link with the given index administratively up.
    SetLinkUp { index: u32 },
    /// Move the link into the network namespace of the given process.
    SetLinkNsByPid { index: u32, pid: u32 },
    /// Move the link into the namespace behind the given open descriptor.
    SetLinkNsByFd { index: u32, fd: i32 },
    /// Enumerate all links in the current namespace.
    ListLinks,
}

/// The outcome of one netlink request, as reported back to a builder.
#[derive(Clone, Copy, Debug, PartialEq, Eq, Structural)]
pub enum LinkEvent {
    /// The request completed.
    Done,
    /// An index lookup matched a link with this index.
    Index(u32),
    /// An index lookup matched nothing.
    NotFound,
    /// The request was answered with an error or the channel failed.
    Failed,
}

/// Where a bridge build stands.
#[derive(Clone, Copy, Debug, PartialEq, Eq, Structural)]
pub enum BridgeState {
    /// The bridge device is being created.
    Creating,
    /// The bridge index is being resolved by name.
    Resolving,
    /// The address is being assigned (best-effort).
    Addressing { index: u32 },
    /// The bridge is being brought up (best-effort).
    Raising { index: u32 },
    /// The build finished; the bridge has this index.
    Done { index: u32 },
    /// The build failed at a mandatory step.
    Failed { cause: NetCause },
}

/// The successor state of a bridge build on `ev`.
///
/// Creation and resolution failures are hard; address assignment and link-up
/// always advance, whatever their outcome.
pub open spec fn bridge_next(s: BridgeState, ev: LinkEvent) -> BridgeState {
    match s {
        BridgeState::Creating => match ev {
            LinkEvent::Done => BridgeState::Resolving,
            _ => BridgeState::Failed { cause: NetCause::RequestFailed },
        },
        BridgeState::Resolving => match ev {
            LinkEvent::Index(i) => BridgeState::Addressing { index: i },
            LinkEvent::NotFound => BridgeState::Failed { cause: NetCause::NotFound },
            _ => BridgeState::Failed { cause: NetCause::RequestFailed },
        },
        BridgeState::Addressing { index } => BridgeState::Raising { index },
        BridgeState::Raising { index } => BridgeState::Done { index },
        BridgeState::Done { index } => BridgeState::Done { index },
        BridgeState::Failed { cause } => BridgeState::Failed { cause },
    }
}

/// How many requests a bridge build still issues from state `s`.
pub open spec fn bridge_steps(s: BridgeState) -> nat {
    match s {
        BridgeState::Creating => 4,
        BridgeState::Resolving => 3,
        BridgeState::Addressing { .. } => 2,
        BridgeState::Raising { .. } => 1,
        BridgeState::Done { .. } => 0,
        BridgeState::Failed { .. } => 0,
    }
}

/// Builds a bridge: create it, resolve its index by name, assign its address,
/// bring it up.
pub struct BridgeBuilder {
    pub name: String,
    pub addr: Ipv4,
    pub prefix: u8,
    pub state: BridgeState,
}

/// The request a bridge build issues from its current state.
pub open spec fn bridge_action_of(b: &BridgeBuilder) -> Option<NetAction> {
    match b.state {
        BridgeState::Creating => Some(NetAction::AddBridge { name: b.name }),
        BridgeState::Resolving => Some(NetAction::GetLinkIndex { name: b.name }),
        BridgeState::Addressing { index } => Some(
            NetAction::AddAddress { index, addr: b.addr, prefix: b.prefix },
        ),
        BridgeState::Raising { index } => Some(NetAction::SetLinkUp { index }),
        BridgeState::Done { .. } => None,
        BridgeState::Failed { .. } => None,
    }
}

/// The classified outcome of a bridge build, once it is finished.
pub open spec fn bridge_result_of(b: &BridgeBuilder) -> Option<Result<u32, Errcode>> {
    match b.state {
        BridgeState::Done { index } => Some(Ok(index)),
        BridgeState::Failed { cause } => Some(Err(Errcode::NetworkError(cause))),
        _ => None,
    }
}

impl BridgeBuilder {
    /// Starts a bridge build; mirrors the bridge-creation entry point.
    pub fn create_bridge(name: &str, addr: Ipv4, prefix: u8) -> (b: BridgeBuilder)
        ensures
            b.name@ == name@,
            b.addr == addr,
            b.prefix == prefix,
            b.state == BridgeState::Creating,
    {
        BridgeBuilder { name: String::from_str(name), addr, prefix, state: BridgeState::Creating }
    }

    /// The next request to issue, or `None` once the build is finished.
    pub fn action(&self) -> (a: Option<NetAction>)
        ensures
            a == bridge_action_of(self),
    {
        match self.state {
            BridgeState::Creating => Some(NetAction::AddBridge { name: self.name.clone() }),
            BridgeState::Resolving => Some(NetAction::GetLinkIndex { name: self.name.clone() }),
            BridgeState::Addressing { index } => Some(
                NetAction::AddAddress { index, addr: self.addr, prefix: self.prefix },
            ),
            BridgeState::Raising { index } => Some(NetAction::SetLinkUp { index }),
            BridgeState::Done { .. } => None,
            BridgeState::Failed { .. } => None,
        }
    }

    /// Records the outcome of the issued request and advances.
    pub fn step(&mut self, ev: LinkEvent)
        ensures
            final(self).name == old(self).name,
            final(self).addr == old(self).addr,
            final(self).prefix == old(self).prefix,
            final(self).state == bridge_next(old(self).state, ev),
            bridge_steps(old(self).state) > 0 ==> bridge_steps(final(self).state) < bridge_steps(
                old(self).state,
            ),
    {
        let next = match self.state {
            BridgeState::Creating => match ev {
                LinkEvent::Done => BridgeState::Resolving,
                _ => BridgeState::Failed { cause: NetCause::RequestFailed },
            },
            BridgeState::Resolving => match ev {
                LinkEvent::Index(i) => BridgeState::Addressing { index: i },
                LinkEvent::NotFound => BridgeState::Failed { cause: NetCause::NotFound },
                _ => BridgeState::Failed { cause: NetCause::RequestFailed },
            },
            BridgeState::Addressing { index } => BridgeState::Raising { index },
            BridgeState::Raising { index } => BridgeState::Done { index },
            BridgeState::Done { index } => BridgeState::Done { index },
            BridgeState::Failed { cause } => BridgeState::Failed { cause },
        };
        self.state = next;
    }

    /// `Some` once the build is finished: the bridge index, or the error.
    pub fn result(&self) -> (r: Option<Result<u32, Errcode>>)
        ensures
            r == bridge_result_of(self),
    {
        match self.state {
            BridgeState::Done { index } => Some(Ok(index)),
            BridgeState::Failed { cause } => Some(Err(Errcode::NetworkError(cause))),
            _ => None,
        }
    }
}

/// Where a veth-pair build stands.
#[derive(Clone, Copy, Debug, PartialEq, Eq, Structural)]
pub enum VethState {
    /// The pair is being created.
    Creating,
    /// The host-side index is being resolved.
    ResolvingHost,
    /// The peer-side index is being resolved.
    ResolvingPeer { host: u32 },
    /// The host end is being brought up (best-effort).
    RaisingHost { host: u32, peer: u32 },
    /// The host address is being assigned (best-effort).
    AddressingHost { host: u32, peer: u32 },
    /// The peer address is being assigned (best-effort).
    AddressingPeer { host: u32, peer: u32 },
    /// The peer end is being brought up (best-effort).
    RaisingPeer { host: u32, peer: u32 },
    /// The build finished with these two indices.
    Done { host: u32, peer: u32 },
    /// The build failed at a mandatory step.
    Failed { cause: NetCause },
}

/// The successor state of a veth-pair build on `ev`.
///
/// Pair creation and the two index resolutions are hard steps; the two
/// address assignments and the two link-ups always advance.
pub open spec fn veth_next(s: VethState, ev: LinkEvent) -> VethState {
    match s {
        VethState::Creating => match ev {
            LinkEvent::Done => VethState::ResolvingHost,
            _ => VethState::Failed { cause: NetCause::RequestFailed },
        },
        VethState::ResolvingHost => match ev {
            LinkEvent::Index(i) => VethState::ResolvingPeer { host: i },
            LinkEvent::NotFound => VethState::Failed { cause: NetCause::NotFound },
            _ => VethState::Failed { cause: NetCause::RequestFailed },
        },
        VethState::ResolvingPeer { host } => match ev {
            LinkEvent::Index(i) => VethState::RaisingHost { host, peer: i },
            LinkEvent::NotFound => VethState::Failed { cause: NetCause::NotFound },
            _ => VethState::Failed { cause: NetCause::RequestFailed },
        },
        VethState::RaisingHost { host, peer } => VethState::AddressingHost { host, peer },
        VethState::AddressingHost { host, peer } => VethState::AddressingPeer { host, peer },
        VethState::AddressingPeer { host, peer } => VethState::RaisingPeer { host, peer },
        VethState::RaisingPeer { host, peer } => VethState::Done { host, peer },
        VethState::Done { host, peer } => VethState::Done { host, peer },
        VethState::Failed { cause } => VethState::Failed { cause },
    }
}

/// How many requests a veth-pair build still issues from state `s`.
pub open spec fn veth_steps(s: VethState) -> nat {
    match s {
        VethState::Creating => 7,
        VethState::ResolvingHost => 6,
        VethState::ResolvingPeer { .. } => 5,
        VethState::RaisingHost { .. } => 4,
        VethState::AddressingHost { .. } => 3,
        VethState::AddressingPeer { .. } => 2,
        VethState::RaisingPeer { .. } => 1,
        VethState::Done { .. } => 0,
        VethState::Failed { .. } => 0,
    }
}

/// Builds a veth pair `name`/`name_peer`: create both ends, resolve both
/// indices, bring the host end up, address both ends, bring the peer end up.
pub struct VethPairBuilder {
    pub name: String,
    pub peer_name: String,
    pub host_addr: Ipv4,
    pub peer_addr: Ipv4,
    pub prefix: u8,
    pub state: VethState,
}

/// The request a veth-pair build issues from its current state.
pub open spec fn veth_action_of(b: &VethPairBuilder) -> Option<NetAction> {
    match b.state {
        VethState::Creating => Some(NetAction::AddVeth { name: b.name, peer: b.peer_name }),
        VethState::ResolvingHost => Some(NetAction::GetLinkIndex { name: b.name }),
        VethState::ResolvingPeer { .. } => Some(NetAction::GetLinkIndex { name: b.peer_name }),
        VethState::RaisingHost { host, .. } => Some(NetAction::SetLinkUp { index: host }),
        VethState::AddressingHost { host, .. } => Some(
            NetAction::AddAddress { index: host, addr: b.host_addr, prefix: b.prefix },
        ),
        VethState::AddressingPeer { peer, .. } => Some(
            NetAction::AddAddress { index: peer, addr: b.peer_addr, prefix: b.prefix },
        ),
        VethState::RaisingPeer { peer, .. } => Some(NetAction::SetLinkUp { index: peer }),
        VethState::Done { .. } => None,
        VethState::Failed { .. } => None,
    }
}

/// The classified outcome of a veth-pair build, once it is finished.
pub open spec fn veth_result_of(b: &VethPairBuilder) -> Option<Result<(u32, u32), Errcode>> {
    match b.state {
        VethState::Done { host, peer } => Some(Ok((host, peer))),
        VethState::Failed { cause } => Some(Err(Errcode::NetworkError(cause))),
        _ => None,
    }
}

impl VethPairBuilder {
    /// Starts a veth-pair build; the peer end is named `<name>_peer`.
    pub fn create_veth_pair(name: &str, host_addr: Ipv4, peer_addr: Ipv4, prefix: u8) -> (b:
        VethPairBuilder)
        ensures
            b.name@ == name@,
            b.peer_name@ == name@ + "_peer"@,
            b.host_addr == host_addr,
            b.peer_addr == peer_addr,
            b.prefix == prefix,
            b.state == VethState::Creating,
    {
        let peer_name = String::from_str(name).concat("_peer");
        VethPairBuilder {
            name: String::from_str(name),
            peer_name,
            host_addr,
            peer_addr,
            prefix,
            state: VethState::Creating,
        }
    }

    /// The next request to issue, or `None` once the build is finished.
    pub fn action(&self) -> (a: Option<NetAction>)
        ensures
            a == veth_action_of(self),
    {
        match self.state {
            VethState::Creating => Some(
                NetAction::AddVeth { name: self.name.clone(), peer: self.peer_name.clone() },
            ),
            VethState::ResolvingHost => Some(NetAction::GetLinkIndex { name: self.name.clone() }),
            VethState::ResolvingPeer { .. } => Some(
                NetAction::GetLinkIndex { name: self.peer_name.clone() },
            ),
            VethState::RaisingHost { host, .. } => Some(NetAction::SetLinkUp { index: host }),
            VethState::AddressingHost { host, .. } => Some(
                NetAction::AddAddress { index: host, addr: self.host_addr, prefix: self.prefix },
            ),
            VethState::AddressingPeer { peer, .. } => Some(
                NetAction::AddAddress { index: peer, addr: self.peer_addr, prefix: self.prefix },
            ),
            VethState::RaisingPeer { peer, .. } => Some(NetAction::SetLinkUp { index: peer }),
            VethState::Done { .. } => None,
            VethState::Failed { .. } => None,
        }
    }

    /// Records the outcome of the issued request and advances.
    pub fn step(&mut self, ev: LinkEvent)
        ensures
            final(self).name == old(self).name,
            final(self).peer_name == old(self).peer_name,
            final(self).host_addr == old(self).host_addr,
            final(self).peer_addr == old(self).peer_addr,
            final(self).prefix == old(self).prefix,
            final(self).state == veth_next(old(self).state, ev),
            veth_steps(old(self).state) > 0 ==> veth_steps(final(self).state) < veth_steps(
                old(self).state,
            ),
    {
        let next = match self.state {
            VethState::Creating => match ev {
                LinkEvent::Done => VethState::ResolvingHost,
                _ => VethState::Failed { cause: NetCause::RequestFailed },
            },
            VethState::ResolvingHost => match ev {
                LinkEvent::Index(i) => VethState::ResolvingPeer { host: i },
                LinkEvent::NotFound => VethState::Failed { cause: NetCause::NotFound },
                _ => VethState::Failed { cause: NetCause::RequestFailed },
            },
            VethState::ResolvingPeer { host } => match ev {
                LinkEvent::Index(i) => VethState::RaisingHost { host, peer: i },
                LinkEvent::NotFound => VethState::Failed { cause: NetCause::NotFound },
                _ => VethState::Failed { cause: NetCause::RequestFailed },
            },
            VethState::RaisingHost { host, peer } => VethState::AddressingHost { host, peer },
            VethState::AddressingHost { host, peer } => VethState::AddressingPeer { host, peer },
            VethState::AddressingPeer { host, peer } => VethState::RaisingPeer { host, peer },
            VethState::RaisingPeer { host, peer } => VethState::Done { host, peer },
            VethState::Done { host, peer } => VethState::Done { host, peer },
            VethState::Failed { cause } => VethState::Failed { cause },
        };
        self.state = next;
    }

    /// `Some` once the build is finished: both indices, or the error.
    pub fn result(&self) -> (r: Option<Result<(u32, u32), Errcode>>)
        ensures
            r == veth_result_of(self),
    {
        match self.state {
            VethState::Done { host, peer } => Some(Ok((host, peer))),
            VethState::Failed { cause } => Some(Err(Errcode::NetworkError(cause))),
            _ => None,
        }
    }
}

/// Produces the request that moves link `veth_idx` into the network namespace
/// of process `pid`.
pub fn join_veth_to_ns_pid(veth_idx: u32, pid: u32) -> (a: NetAction)
    ensures
        a == (NetAction::SetLinkNsByPid { index: veth_idx, pid }),
{
    NetAction::SetLinkNsByPid { index: veth_idx, pid }
}

/// Produces the request that moves link `veth_idx` into the namespace behind
/// descriptor `fd`.
pub fn join_veth_to_ns_fd(veth_idx: u32, fd: i32) -> (a: NetAction)
    ensures
        a == (NetAction::SetLinkNsByFd { index: veth_idx, fd }),
{
    NetAction::SetLinkNsByFd { index: veth_idx, fd }
}

/// Classifies the outcome of a single completed-or-failed request.
pub fn classify_link_outcome(ev: LinkEvent) -> (r: Result<(), Errcode>)
    ensures
        r == (if ev == LinkEvent::Done {
            Ok::<(), Errcode>(())
        } else {
            Err::<(), Errcode>(Errcode::NetworkError(NetCause::RequestFailed))
        }),
{
    match ev {
        LinkEvent::Done => Ok(()),
        _ => Err(Errcode::NetworkError(NetCause::RequestFailed)),
    }
}

/// Produces the single-result index lookup for `bridge_name`.
pub fn get_bridge_idx(bridge_name: &str) -> (a: NetAction)
    ensures
        a matches NetAction::GetLinkIndex { name } && name@ == bridge_name@,
{
    NetAction::GetLinkIndex { name: String::from_str(bridge_name) }
}

/// Classifies the outcome of an index lookup: absence of a match is a hard
/// error, never a fallback index.
pub fn classify_index_lookup(ev: LinkEvent) -> (r: Result<u32, Errcode>)
    ensures
        r == (match ev {
            LinkEvent::Index(i) => Ok::<u32, Errcode>(i),
            LinkEvent::NotFound => Err::<u32, Errcode>(Errcode::NetworkError(NetCause::NotFound)),
            _ => Err::<u32, Errcode>(Errcode::NetworkError(NetCause::RequestFailed)),
        }),
{
    match ev {
        LinkEvent::Index(i) => Ok(i),
        LinkEvent::NotFound => Err(Errcode::NetworkError(NetCause::NotFound)),
        _ => Err(Errcode::NetworkError(NetCause::RequestFailed)),
    }
}

/// Where a peer-interface setup stands.
#[derive(Clone, Copy, Debug, PartialEq, Eq, Structural)]
pub enum PeerSetupState {
    /// The peer address is being assigned (best-effort).
    Addressing,
    /// The peer link is being brought up (best-effort).
    Raising,
    /// The loopback index is being resolved (mandatory).
    ResolvingLo,
    /// The loopback link is being brought up (best-effort).
    RaisingLo { lo: u32 },
    /// The setup finished.
    Done,
    /// The setup failed at the loopback resolution.
    Failed { cause: NetCause },
}

/// The successor state of a peer-interface setup on `ev`.
pub open spec fn peer_setup_next(s: PeerSetupState, ev: LinkEvent) -> PeerSetupState {
    match s {
        PeerSetupState::Addressing => PeerSetupState::Raising,
        PeerSetupState::Raising => PeerSetupState::ResolvingLo,
        PeerSetupState::ResolvingLo => match ev {
            LinkEvent::Index(i) => PeerSetupState::RaisingLo { lo: i },
            LinkEvent::NotFound => PeerSetupState::Failed { cause: NetCause::NotFound },
            _ => PeerSetupState::Failed { cause: NetCause::RequestFailed },
        },
        PeerSetupState::RaisingLo { .. } => PeerSetupState::Done,
        PeerSetupState::Done => PeerSetupState::Done,
        PeerSetupState::Failed { cause } => PeerSetupState::Failed { cause },
    }
}

/// How many requests a peer-interface setup still issues from state `s`.
pub open spec fn peer_setup_steps(s: PeerSetupState) -> nat {
    match s {
        PeerSetupState::Addressing => 4,
        PeerSetupState::Raising => 3,
        PeerSetupState::ResolvingLo => 2,
        PeerSetupState::RaisingLo { .. } => 1,
        PeerSetupState::Done => 0,
        PeerSetupState::Failed { .. } => 0,
    }
}

/// Configures a veth peer end from inside its destination namespace with
/// native netlink requests: assign the address, bring the peer up, then
/// resolve and raise the loopback interface.
pub struct VethPeerSetup {
    pub veth_idx: u32,
    pub addr: Ipv4,
    pub prefix: u8,
    pub state: PeerSetupState,
}

/// The classified outcome of a peer-interface setup, once it is finished.
pub open spec fn peer_setup_result_of(t: &VethPeerSetup) -> Option<Result<(), Errcode>> {
    match t.state {
        PeerSetupState::Done => Some(Ok(())),
        PeerSetupState::Failed { cause } => Some(Err(Errcode::NetworkError(cause))),
        _ => None,
    }
}

/// The name of the loopback interface.
pub open spec fn lo_name() -> Seq<char> {
    "lo"@
}

impl VethPeerSetup {
    /// Starts a peer-interface setup for link `veth_idx`.
    pub fn setup_veth_peer(veth_idx: u32, ns_ip: Ipv4, subnet: u8) -> (t: VethPeerSetup)
        ensures
            t.veth_idx == veth_idx,
            t.addr == ns_ip,
            t.prefix == subnet,
            t.state == PeerSetupState::Addressing,
    {
        VethPeerSetup { veth_idx, addr: ns_ip, prefix: subnet, state: PeerSetupState::Addressing }
    }

    /// The next request to issue, or `None` once the setup is finished.
    pub fn action(&self) -> (a: Option<NetAction>)
        ensures
            ({
                match self.state {
                    PeerSetupState::Addressing => a == Some(
                        NetAction::AddAddress {
                            index: self.veth_idx,
                            addr: self.addr,
                            prefix: self.prefix,
                        },
                    ),
                    PeerSetupState::Raising => a == Some(
                        NetAction::SetLinkUp { index: self.veth_idx },
                    ),
                    PeerSetupState::ResolvingLo => a matches Some(
                        NetAction::GetLinkIndex { name },
                    ) && name@ == lo_name(),
                    PeerSetupState::RaisingLo { lo } => a == Some(
                        NetAction::SetLinkUp { index: lo },
                    ),
                    PeerSetupState::Done => a is None,
                    PeerSetupState::Failed { .. } => a is None,
                }
            }),
    {
        match self.state {
            PeerSetupState::Addressing => Some(
                NetAction::AddAddress { index: self.veth_idx, addr: self.addr, prefix: self.prefix },
            ),
            PeerSetupState::Raising => Some(NetAction::SetLinkUp { index: self.veth_idx }),
            PeerSetupState::ResolvingLo => Some(
                NetAction::GetLinkIndex { name: String::from_str("lo") },
            ),
            PeerSetupState::RaisingLo { lo } => Some(NetAction::SetLinkUp { index: lo }),
            PeerSetupState::Done => None,
            PeerSetupState::Failed { .. } => None,
        }
    }

    /// Records the outcome of the issued request and advances.
    pub fn step(&mut self, ev: LinkEvent)
        ensures
            final(self).veth_idx == old(self).veth_idx,
            final(self).addr == old(self).addr,
            final(self).prefix == old(self).prefix,
            final(self).state == peer_setup_next(old(self).state, ev),
            peer_setup_steps(old(self).state) > 0 ==> peer_setup_steps(final(self).state)
                < peer_setup_steps(old(self).state),
    {
        let next = match self.state {
            PeerSetupState::Addressing => PeerSetupState::Raising,
            PeerSetupState::Raising => PeerSetupState::ResolvingLo,
            PeerSetupState::ResolvingLo => match ev {
                LinkEvent::Index(i) => PeerSetupState::RaisingLo { lo: i },
                LinkEvent::NotFound => PeerSetupState::Failed { cause: NetCause::NotFound },
                _ => PeerSetupState::Failed { cause: NetCause::RequestFailed },
            },
            PeerSetupState::RaisingLo { .. } => PeerSetupState::Done,
            PeerSetupState::Done => PeerSetupState::Done,
            PeerSetupState::Failed { cause } => PeerSetupState::Failed { cause },
        };
        self.state = next;
    }

    /// `Some` once the setup is finished.
    pub fn result(&self) -> (r: Option<Result<(), Errcode>>)
        ensures
            r == peer_setup_result_of(self),
    {
        match self.state {
            PeerSetupState::Done => Some(Ok(())),
            PeerSetupState::Failed { cause } => Some(Err(Errcode::NetworkError(cause))),
            _ => None,
        }
    }
}

/// Where a loopback-raising exchange stands.  Both steps are mandatory: the
/// loopback interface of the current namespace is resolved by name, then
/// brought up.
#[derive(Clone, Copy, Debug, PartialEq, Eq, Structural)]
pub enum LoUpState {
    /// The loopback index is being resolved.
    Resolving,
    /// The loopback link is being brought up.
    Raising { lo: u32 },
    /// The exchange finished.
    Done,
    /// The exchange failed.
    Failed { cause: NetCause },
}

/// The successor state of a loopback-raising exchange on `ev`.
pub open spec fn lo_up_next(s: LoUpState, ev: LinkEvent) -> LoUpState {
    match s {
        LoUpState::Resolving => match ev {
            LinkEvent::Index(i) => LoUpState::Raising { lo: i },
            LinkEvent::NotFound => LoUpState::Failed { cause: NetCause::NotFound },
            _ => LoUpState::Failed { cause: NetCause::RequestFailed },
        },
        LoUpState::Raising { .. } => match ev {
            LinkEvent::Done => LoUpState::Done,
            _ => LoUpState::Failed { cause: NetCause::RequestFailed },
        },
        LoUpState::Done => LoUpState::Done,
        LoUpState::Failed { cause } => LoUpState::Failed { cause },
    }
}

/// How many requests a loopback-raising exchange still issues from state `s`.
pub open spec fn lo_up_steps(s: LoUpState) -> nat {
    match s {
        LoUpState::Resolving => 2,
        LoUpState::Raising { .. } => 1,
        LoUpState::Done => 0,
        LoUpState::Failed { .. } => 0,
    }
}

/// Brings the loopback interface of the current namespace up: a single
/// lookup-then-raise netlink round trip.
pub struct LoUpTask {
    pub state: LoUpState,
}

/// The classified outcome of a loopback-raising exchange, once finished.
pub open spec fn lo_up_result_of(t: &LoUpTask) -> Option<Result<(), Errcode>> {
    match t.state {
        LoUpState::Done => Some(Ok(())),
        LoUpState::Failed { cause } => Some(Err(Errcode::NetworkError(cause))),
        _ => None,
    }
}

impl LoUpTask {
    /// Starts the exchange.
    pub fn set_lo_up() -> (t: LoUpTask)
        ensures
            t.state == LoUpState::Resolving,
    {
        LoUpTask { state: LoUpState::Resolving }
    }

    /// The next request to issue, or `None` once the exchange is finished.
    pub fn action(&self) -> (a: Option<NetAction>)
        ensures
            ({
                match self.state {
                    LoUpState::Resolving => a matches Some(NetAction::GetLinkIndex { name })
                        && name@ == lo_name(),
                    LoUpState::Raising { lo } => a == Some(NetAction::SetLinkUp { index: lo }),
                    LoUpState::Done => a is None,
                    LoUpState::Failed { .. } => a is None,
                }
            }),
    {
        match self.state {
            LoUpState::Resolving => Some(NetAction::GetLinkIndex { name: String::from_str("lo") }),
            LoUpState::Raising { lo } => Some(NetAction::SetLinkUp { index: lo }),
            LoUpState::Done => None,
            LoUpState::Failed { .. } => None,
        }
    }

    /// Records the outcome of the issued request and advances.
    pub fn step(&mut self, ev: LinkEvent)
        ensures
            final(self).state == lo_up_next(old(self).state, ev),
            lo_up_steps(old(self).state) > 0 ==> lo_up_steps(final(self).state) < lo_up_steps(
                old(self).state,
            ),
    {
        let next = match self.state {
            LoUpState::Resolving => match ev {
                LinkEvent::Index(i) => LoUpState::Raising { lo: i },
                LinkEvent::NotFound => LoUpState::Failed { cause: NetCause::NotFound },
                _ => LoUpState::Failed { cause: NetCause::RequestFailed },
            },
            LoUpState::Raising { .. } => match ev {
                LinkEvent::Done => LoUpState::Done,
                _ => LoUpState::Failed { cause: NetCause::RequestFailed },
            },
            LoUpState::Done => LoUpState::Done,
            LoUpState::Failed { cause } => LoUpState::Failed { cause },
        };
        self.state = next;
    }

    /// `Some` once the exchange is finished.
    pub fn result(&self) -> (r: Option<Result<(), Errcode>>)
        ensures
            r == lo_up_result_of(self),
    {
        match self.state {
            LoUpState::Done => Some(Ok(())),
            LoUpState::Failed { cause } => Some(Err(Errcode::NetworkError(cause))),
            _ => None,
        }
    }
}

/// Where a named-link-raising exchange stands: enumerate the links of the
/// current namespace, resolve one by name, bring it up.  All steps are
/// mandatory.
#[derive(Clone, Copy, Debug, PartialEq, Eq, Structural)]
pub enum VethUpState {
    /// The links of the current namespace are being enumerated.
    Listing,
    /// The target index is being resolved.
    Resolving,
    /// The target link is being brought up.
    Raising { index: u32 },
    /// The exchange finished.
    Done,
    /// The exchange failed.
    Failed { cause: NetCause },
}

/// The successor state of a named-link-raising exchange on `ev`.
pub open spec fn veth_up_next(s: VethUpState, ev: LinkEvent) -> VethUpState {
    match s {
        VethUpState::Listing => match ev {
            LinkEvent::Done => VethUpState::Resolving,
            _ => VethUpState::Failed { cause: NetCause::RequestFailed },
        },
        VethUpState::Resolving => match ev {
            LinkEvent::Index(i) => VethUpState::Raising { index: i },
            LinkEvent::NotFound => VethUpState::Failed { cause: NetCause::NotFound },
            _ => VethUpState::Failed { cause: NetCause::RequestFailed },
        },
        VethUpState::Raising { .. } => match ev {
            LinkEvent::Done => VethUpState::Done,
            _ => VethUpState::Failed { cause: NetCause::RequestFailed },
        },
        VethUpState::Done => VethUpState::Done,
        VethUpState::Failed { cause } => VethUpState::Failed { cause },
    }
}

/// How many requests a named-link-raising exchange still issues from `s`.
pub open spec fn veth_up_steps(s: VethUpState) -> nat {
    match s {
        VethUpState::Listing => 3,
        VethUpState::Resolving => 2,
        VethUpState::Raising { .. } => 1,
        VethUpState::Done => 0,
        VethUpState::Failed { .. } => 0,
    }
}

/// Raises one named link after enumerating the links that are visible in the
/// current namespace.
pub struct VethUpTask {
    pub name: String,
    pub state: VethUpState,
}

/// The request a named-link-raising exchange issues from its current state.
pub open spec fn veth_up_action_of(t: &VethUpTask) -> Option<NetAction> {
    match t.state {
        VethUpState::Listing => Some(NetAction::ListLinks),
        VethUpState::Resolving => Some(NetAction::GetLinkIndex { name: t.name }),
        VethUpState::Raising { index } => Some(NetAction::SetLinkUp { index }),
        VethUpState::Done => None,
        VethUpState::Failed { .. } => None,
    }
}

impl VethUpTask {
    /// Starts the exchange for the link called `name`.
    pub fn set_veth_up(name: &str) -> (t: VethUpTask)
        ensures
            t.name@ == name@,
            t.state == VethUpState::Listing,
    {
        VethUpTask { name: String::from_str(name), state: VethUpState::Listing }
    }

    /// The next request to issue, or `None` once the exchange is finished.
    pub fn action(&self) -> (a: Option<NetAction>)
        ensures
            a == veth_up_action_of(self),
    {
        match self.state {
            VethUpState::Listing => Some(NetAction::ListLinks),
            VethUpState::Resolving => Some(NetAction::GetLinkIndex { name: self.name.clone() }),
            VethUpState::Raising { index } => Some(NetAction::SetLinkUp { index }),
            VethUpState::Done => None,
            VethUpState::Failed { .. } => None,
        }
    }

    /// Records the outcome of the issued request and advances.
    pub fn step(&mut self, ev: LinkEvent)
        ensures
            final(self).name == old(self).name,
            final(self).state == veth_up_next(old(self).state, ev),
            veth_up_steps(old(self).state) > 0 ==> veth_up_steps(final(self).state) < veth_up_steps(
                old(self).state,
            ),
    {
        let next = match self.state {
            VethUpState::Listing => match ev {
                LinkEvent::Done => VethUpState::Resolving,
                _ => VethUpState::Failed { cause: NetCause::RequestFailed },
            },
            VethUpState::Resolving => match ev {
                LinkEvent::Index(i) => VethUpState::Raising { index: i },
                LinkEvent::NotFound => VethUpState::Failed { cause: NetCause::NotFound },
                _ => VethUpState::Failed { cause: NetCause::RequestFailed },
            },
            VethUpState::Raising { .. } => match ev {
                LinkEvent::Done => VethUpState::Done,
                _ => VethUpState::Failed { cause: NetCause::RequestFailed },
            },
            VethUpState::Done => VethUpState::Done,
            VethUpState::Failed { cause } => VethUpState::Failed { cause },
        };
        self.state = next;
    }

    /// `Some` once the exchange is finished.
    pub fn result(&self) -> (r: Option<Result<(), Errcode>>)
        ensures
            r == (match self.state {
                VethUpState::Done => Some(Ok::<(), Errcode>(())),
                VethUpState::Failed { cause } => Some(
                    Err::<(), Errcode>(Errcode::NetworkError(cause)),
                ),
                _ => None::<Result<(), Errcode>>,
            }),
    {
        match self.state {
            VethUpState::Done => Some(Ok(())),
            VethUpState::Failed { cause } => Some(Err(Errcode::NetworkError(cause))),
            _ => None,
        }
    }
}

/// The argument list of the user-mode networking helper for process `pid`.
pub open spec fn slirp_args(pid: nat) -> Seq<Seq<char>> {
    seq![
        "--configure"@,
        "--mtu=65520"@,
        "--disable-host-loopback"@,
        dec_rep(pid),
        "tap0"@,
    ]
}

/// Builds the invocation of the user-mode networking helper that attaches a
/// tap device to the namespace of process `pid`.
pub fn slirp(pid: u32) -> (c: Command)
    ensures
        c.program@ == "slirp4netns"@,
        c.args_view() == slirp_args(pid as nat),
{
    let mut args: Vec<String> = Vec::new();
    args.push(String::from_str("--configure"));
    args.push(String::from_str("--mtu=65520"));
    args.push(String::from_str("--disable-host-loopback"));
    args.push(crate::strutil::u32_to_string(pid));
    args.push(String::from_str("tap0"));
    let c = Command { program: String::from_str("slirp4netns"), args };
    proof {
        assert(c.args_view() =~= slirp_args(pid as nat));
    }
    c
}

} // verus!
