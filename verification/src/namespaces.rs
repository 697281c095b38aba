//! Namespace lifecycle and the fork/enter/configure/reap orchestration.
//!
//! A process can only usefully change its own namespaces, so the work is
//! split between a parent and a forked child.  The decisions of both sides
//! live here as verified state machines; the surrounding process performs
//! each requested syscall and reports the outcome back.  The child's sequence
//! is strict: the namespace file is opened, the network namespace entered,
//! the mount namespace unshared and made non-propagating, sysfs remounted,
//! and only then the delegated address/route commands run.  Every failure
//! after entry leaves the process namespace-switched; the child therefore
//! terminates instead of attempting rollback.

use vstd::prelude::*;
use crate::errors::{Errcode, NsCause};
use crate::ip::{ipv4_rep, format_ipv4, Ipv4};
use crate::net::Command;

verus! {

/// One namespace, mount, or process-file operation.
#[derive(Debug)]
pub enum NsAction {
    /// Create the named network namespace as a host-visible object.
    CreateNamespace { name: String },
    /// Open the namespace object at this path read-only.
    OpenNsFile { path: String },
    /// Switch the calling process's network namespace to the one behind `fd`.
    EnterNetNs { fd: i32 },
    /// Detach the calling process's mount namespace from its parent's.
    UnshareMounts,
    /// Remount the root recursively private so no mount propagates out.
    RemountRootPrivate,
    /// Ask whether a sysfs is mounted and whether it is read-only.
    StatSys,
    /// Remount a namespace-aware sysfs, read-only if the old mount was.
    RemountSys { source: String, readonly: bool },
    /// Run one delegated configuration command and wait for its exit status.
    RunCommand { cmd: Command },
    /// Create the directory at this path.
    CreateDirectory { path: String },
    /// Bind-mount the namespace directory onto the mount point.
    BindMountNamespace { mount_point: String, namespace_dir: String },
}

/// The outcome of one namespace, mount, or process-file operation.
#[derive(Clone, Copy, Debug, PartialEq, Eq, Structural)]
pub enum NsEvent {
    /// The operation completed.
    Done,
    /// An open returned this descriptor.
    Fd(i32),
    /// A sysfs is present; `readonly` is its mount state.
    SysFlags { readonly: bool },
    /// No sysfs is present.
    NoSys,
    /// The operation was refused for lack of capability.
    Denied,
    /// The operation failed for any other reason.
    Failed,
}

/// The namespace path for `name` under the namespace directory `dir`.
pub open spec fn ns_path_of(dir: Seq<char>, name: Seq<char>) -> Seq<char> {
    dir + name
}

/// The conventional namespace directory.
pub open spec fn default_netns_dir_spec() -> Seq<char> {
    "/run/netns/"@
}

/// The conventional namespace directory, as text.
pub fn default_netns_dir() -> (s: &'static str)
    ensures
        s@ == default_netns_dir_spec(),
{
    "/run/netns/"
}

/// Joins the namespace directory and the namespace name into a path.
pub fn netns_path(dir: &str, name: &str) -> (r: String)
    ensures
        r@ == ns_path_of(dir@, name@),
{
    String::from_str(dir).concat(name)
}

/// The peer-end name of the veth pair that serves namespace `ns`.
pub open spec fn peer_name_of(ns: Seq<char>) -> Seq<char> {
    ns + "_peer"@
}

/// Builds the peer-end name of the veth pair that serves namespace `ns`.
pub fn peer_name(ns: &str) -> (r: String)
    ensures
        r@ == peer_name_of(ns@),
{
    String::from_str(ns).concat("_peer")
}

/// The argument list of the `i`-th delegated configuration command, run
/// inside the namespace `ns`: bring the loopback up, bring the veth peer up,
/// assign `peer_ip/24` to the peer, and add a default route via `gw`.
pub open spec fn conf_cmd_args(i: int, ns: Seq<char>, gw: Ipv4, peer_ip: Ipv4) -> Seq<Seq<char>> {
    if i == 0 {
        seq!["link"@, "set"@, "lo"@, "up"@]
    } else if i == 1 {
        seq!["link"@, "set"@, peer_name_of(ns), "up"@]
    } else if i == 2 {
        seq!["addr"@, "add"@, ipv4_rep(peer_ip) + "/24"@, "dev"@, peer_name_of(ns)]
    } else {
        seq!["route"@, "add"@, "default"@, "dev"@, peer_name_of(ns), "via"@, ipv4_rep(gw)]
    }
}

/// The number of delegated configuration commands.
pub open spec fn conf_cmd_count() -> int {
    4
}

/// Builds the `i`-th delegated configuration command.
pub fn conf_command(i: u8, ns_name: &str, gw: Ipv4, peer_ip: Ipv4) -> (c: Command)
    requires
        i < 4,
    ensures
        c.program@ == "ip"@,
        c.args_view() == conf_cmd_args(i as int, ns_name@, gw, peer_ip),
{
    let mut args: Vec<String> = Vec::new();
    if i == 0 {
        args.push(String::from_str("link"));
        args.push(String::from_str("set"));
        args.push(String::from_str("lo"));
        args.push(String::from_str("up"));
    } else if i == 1 {
        args.push(String::from_str("link"));
        args.push(String::from_str("set"));
        args.push(peer_name(ns_name));
        args.push(String::from_str("up"));
    } else if i == 2 {
        args.push(String::from_str("addr"));
        args.push(String::from_str("add"));
        args.push(format_ipv4(peer_ip).concat("/24"));
        args.push(String::from_str("dev"));
        args.push(peer_name(ns_name));
    } else {
        args.push(String::from_str("route"));
        args.push(String::from_str("add"));
        args.push(String::from_str("default"));
        args.push(String::from_str("dev"));
        args.push(peer_name(ns_name));
        args.push(String::from_str("via"));
        args.push(format_ipv4(gw));
    }
    let c = Command { program: String::from_str("ip"), args };
    proof {
        assert(c.args_view() =~= conf_cmd_args(i as int, ns_name@, gw, peer_ip));
    }
    c
}

/// Builds all delegated configuration commands, in the order they run.
pub fn net_conf(ns_name: &str, veth_ip: Ipv4, veth_2_ip: Ipv4) -> (cmds: Vec<Command>)
    ensures
        cmds@.len() == conf_cmd_count(),
        forall|i: int|
            0 <= i < cmds@.len() ==> (#[trigger] cmds@[i]).program@ == "ip"@ && cmds@[i].args_view()
                == conf_cmd_args(i, ns_name@, veth_ip, veth_2_ip),
{
    let mut cmds: Vec<Command> = Vec::new();
    cmds.push(conf_command(0, ns_name, veth_ip, veth_2_ip));
    cmds.push(conf_command(1, ns_name, veth_ip, veth_2_ip));
    cmds.push(conf_command(2, ns_name, veth_ip, veth_2_ip));
    cmds.push(conf_command(3, ns_name, veth_ip, veth_2_ip));
    cmds
}

/// Where the configuration child stands.
#[derive(Clone, Copy, Debug, PartialEq, Eq, Structural)]
pub enum ChildState {
    /// The namespace object is being opened.
    Opening,
    /// The network namespace behind `fd` is being entered.
    Entering { fd: i32 },
    /// The mount namespace is being unshared.
    Unsharing,
    /// The root mount is being made recursively private (best-effort).
    RemountingRoot,
    /// The sysfs mount state is being queried.
    StattingSys,
    /// A namespace-aware sysfs is being remounted (best-effort).
    RemountingSys { readonly: bool },
    /// Delegated configuration command `cmd` is running.
    Configuring { cmd: u8 },
    /// Every step completed; the child should exit successfully.
    Finished,
    /// A mandatory step failed; the child should abort.
    Failed { cause: NsCause },
}

/// The successor state of the child sequence on `ev`.
///
/// Opening, entry, unsharing and the delegated commands are mandatory; the
/// root remount and the sysfs query/remount are logged and skipped on
/// failure, and a missing sysfs is not an error.
pub open spec fn child_next(s: ChildState, ev: NsEvent) -> ChildState {
    match s {
        ChildState::Opening => match ev {
            NsEvent::Fd(fd) => ChildState::Entering { fd },
            NsEvent::Denied => ChildState::Failed { cause: NsCause::PermissionDenied },
            _ => ChildState::Failed { cause: NsCause::NotFound },
        },
        ChildState::Entering { .. } => match ev {
            NsEvent::Done => ChildState::Unsharing,
            NsEvent::Denied => ChildState::Failed { cause: NsCause::PermissionDenied },
            _ => ChildState::Failed { cause: NsCause::InvalidHandle },
        },
        ChildState::Unsharing => match ev {
            NsEvent::Done => ChildState::RemountingRoot,
            _ => ChildState::Failed { cause: NsCause::UnshareFailed },
        },
        ChildState::RemountingRoot => ChildState::StattingSys,
        ChildState::StattingSys => match ev {
            NsEvent::SysFlags { readonly } => ChildState::RemountingSys { readonly },
            _ => ChildState::Configuring { cmd: 0 },
        },
        ChildState::RemountingSys { .. } => ChildState::Configuring { cmd: 0 },
        ChildState::Configuring { cmd } => match ev {
            NsEvent::Done => if cmd >= 3 {
                ChildState::Finished
            } else {
                ChildState::Configuring { cmd: (cmd + 1) as u8 }
            },
            _ => ChildState::Failed { cause: NsCause::CommandFailed },
        },
        ChildState::Finished => ChildState::Finished,
        ChildState::Failed { cause } => ChildState::Failed { cause },
    }
}

/// Well-formedness of a child state: a configuring index always names one
/// of the four delegated commands.
pub open spec fn child_wf(s: ChildState) -> bool {
    match s {
        ChildState::Configuring { cmd } => cmd < 4,
        _ => true,
    }
}

/// How many operations the child sequence still performs from state `s`.
pub open spec fn child_steps(s: ChildState) -> nat {
    match s {
        ChildState::Opening => 10,
        ChildState::Entering { .. } => 9,
        ChildState::Unsharing => 8,
        ChildState::RemountingRoot => 7,
        ChildState::StattingSys => 6,
        ChildState::RemountingSys { .. } => 5,
        ChildState::Configuring { cmd } => if cmd < 4 {
            (4 - cmd) as nat
        } else {
            1
        },
        ChildState::Finished => 0,
        ChildState::Failed { .. } => 0,
    }
}

/// The phase of a child state, for the ordering law: the namespace is
/// entered strictly before the mount namespace is touched, and every mount
/// operation happens strictly before the delegated commands run.
pub open spec fn child_phase(s: ChildState) -> nat {
    match s {
        ChildState::Opening => 0,
        ChildState::Entering { .. } => 1,
        ChildState::Unsharing => 2,
        ChildState::RemountingRoot => 3,
        ChildState::StattingSys => 4,
        ChildState::RemountingSys { .. } => 5,
        ChildState::Configuring { .. } => 6,
        ChildState::Finished => 7,
        ChildState::Failed { .. } => 7,
    }
}

/// The child's side of the orchestration: the namespace-entry and
/// configuration sequence of the forked process.
pub struct ChildTask {
    pub netns_dir: String,
    pub ns_name: String,
    pub veth_ip: Ipv4,
    pub peer_ip: Ipv4,
    pub state: ChildState,
}

/// The classified outcome of the child sequence, once it is finished.
pub open spec fn child_result_of(t: &ChildTask) -> Option<Result<(), Errcode>> {
    match t.state {
        ChildState::Finished => Some(Ok(())),
        ChildState::Failed { cause } => Some(Err(Errcode::NamespacesError(cause))),
        _ => None,
    }
}

impl ChildTask {
    /// Starts the child sequence for the namespace `ns_name` under `netns_dir`,
    /// with `veth_ip` as the gateway and `veth_2_ip` as the peer address.
    pub fn split_namespace(netns_dir: &str, ns_name: &str, veth_ip: Ipv4, veth_2_ip: Ipv4) -> (t:
        ChildTask)
        ensures
            t.netns_dir@ == netns_dir@,
            t.ns_name@ == ns_name@,
            t.veth_ip == veth_ip,
            t.peer_ip == veth_2_ip,
            t.state == ChildState::Opening,
    {
        ChildTask {
            netns_dir: String::from_str(netns_dir),
            ns_name: String::from_str(ns_name),
            veth_ip,
            peer_ip: veth_2_ip,
            state: ChildState::Opening,
        }
    }

    /// The next operation to perform, or `None` once the sequence is finished.
    pub fn action(&self) -> (a: Option<NsAction>)
        ensures
            ({
                match self.state {
                    ChildState::Opening => a matches Some(NsAction::OpenNsFile { path }) && path@
                        == ns_path_of(self.netns_dir@, self.ns_name@),
                    ChildState::Entering { fd } => a == Some(NsAction::EnterNetNs { fd }),
                    ChildState::Unsharing => a == Some(NsAction::UnshareMounts),
                    ChildState::RemountingRoot => a == Some(NsAction::RemountRootPrivate),
                    ChildState::StattingSys => a == Some(NsAction::StatSys),
                    ChildState::RemountingSys { readonly } => a matches Some(
                        NsAction::RemountSys { source, readonly: ro },
                    ) && source@ == self.ns_name@ && ro == readonly,
                    ChildState::Configuring { cmd } => cmd < 4 ==> (a matches Some(
                        NsAction::RunCommand { cmd: c },
                    ) && c.program@ == "ip"@ && c.args_view() == conf_cmd_args(
                        cmd as int,
                        self.ns_name@,
                        self.veth_ip,
                        self.peer_ip,
                    )),
                    ChildState::Finished => a is None,
                    ChildState::Failed { .. } => a is None,
                }
            }),
    {
        match self.state {
            ChildState::Opening => Some(
                NsAction::OpenNsFile {
                    path: netns_path(self.netns_dir.as_str(), self.ns_name.as_str()),
                },
            ),
            ChildState::Entering { fd } => Some(NsAction::EnterNetNs { fd }),
            ChildState::Unsharing => Some(NsAction::UnshareMounts),
            ChildState::RemountingRoot => Some(NsAction::RemountRootPrivate),
            ChildState::StattingSys => Some(NsAction::StatSys),
            ChildState::RemountingSys { readonly } => Some(
                NsAction::RemountSys { source: self.ns_name.clone(), readonly },
            ),
            ChildState::Configuring { cmd } => {
                // A command index outside the four is ruled out by `child_wf`;
                // the fallback only keeps this function total.
                let c = if cmd < 4 {
                    conf_command(cmd, self.ns_name.as_str(), self.veth_ip, self.peer_ip)
                } else {
                    conf_command(0, self.ns_name.as_str(), self.veth_ip, self.peer_ip)
                };
                Some(NsAction::RunCommand { cmd: c })
            },
            ChildState::Finished => None,
            ChildState::Failed { .. } => None,
        }
    }

    /// Records the outcome of the performed operation and advances.
    pub fn step(&mut self, ev: NsEvent)
        ensures
            final(self).netns_dir == old(self).netns_dir,
            final(self).ns_name == old(self).ns_name,
            final(self).veth_ip == old(self).veth_ip,
            final(self).peer_ip == old(self).peer_ip,
            final(self).state == child_next(old(self).state, ev),
            child_wf(old(self).state) ==> child_wf(final(self).state),
            child_steps(old(self).state) > 0 ==> child_steps(final(self).state) < child_steps(
                old(self).state,
            ),
            child_phase(final(self).state) >= child_phase(old(self).state),
    {
        let next = match self.state {
            ChildState::Opening => match ev {
                NsEvent::Fd(fd) => ChildState::Entering { fd },
                NsEvent::Denied => ChildState::Failed { cause: NsCause::PermissionDenied },
                _ => ChildState::Failed { cause: NsCause::NotFound },
            },
            ChildState::Entering { .. } => match ev {
                NsEvent::Done => ChildState::Unsharing,
                NsEvent::Denied => ChildState::Failed { cause: NsCause::PermissionDenied },
                _ => ChildState::Failed { cause: NsCause::InvalidHandle },
            },
            ChildState::Unsharing => match ev {
                NsEvent::Done => ChildState::RemountingRoot,
                _ => ChildState::Failed { cause: NsCause::UnshareFailed },
            },
            ChildState::RemountingRoot => ChildState::StattingSys,
            ChildState::StattingSys => match ev {
                NsEvent::SysFlags { readonly } => ChildState::RemountingSys { readonly },
                _ => ChildState::Configuring { cmd: 0 },
            },
            ChildState::RemountingSys { .. } => ChildState::Configuring { cmd: 0 },
            ChildState::Configuring { cmd } => match ev {
                NsEvent::Done => if cmd >= 3 {
                    ChildState::Finished
                } else {
                    ChildState::Configuring { cmd: cmd + 1 }
                },
                _ => ChildState::Failed { cause: NsCause::CommandFailed },
            },
            ChildState::Finished => ChildState::Finished,
            ChildState::Failed { cause } => ChildState::Failed { cause },
        };
        self.state = next;
    }

    /// `Some` once the sequence is finished.
    pub fn result(&self) -> (r: Option<Result<(), Errcode>>)
        ensures
            r == child_result_of(self),
    {
        match self.state {
            ChildState::Finished => Some(Ok(())),
            ChildState::Failed { cause } => Some(Err(Errcode::NamespacesError(cause))),
            _ => None,
        }
    }
}

/// What the forked child reported through `wait`.
#[derive(Clone, Copy, Debug, PartialEq, Eq, Structural)]
pub enum ChildStatus {
    /// The child exited normally with this code.
    Exited(i32),
    /// The child was killed by this signal; the flag records a core dump.
    Signaled(i32, bool),
    /// Any other wait status.
    Other,
}

/// The parent's classification of the child's termination: exit code zero is
/// success; a nonzero code, a signal, or any other status is a namespace
/// error carrying the observed cause.
pub open spec fn classify_wait(st: ChildStatus) -> Result<(), Errcode> {
    match st {
        ChildStatus::Exited(code) => if code == 0 {
            Ok(())
        } else {
            Err(Errcode::NamespacesError(NsCause::ChildExit(code)))
        },
        ChildStatus::Signaled(sig, _) => Err(Errcode::NamespacesError(NsCause::ChildSignal(sig))),
        ChildStatus::Other => Err(Errcode::NamespacesError(NsCause::ChildUnknown)),
    }
}

/// Classifies the child's termination status.
pub fn classify_child_status(st: ChildStatus) -> (r: Result<(), Errcode>)
    ensures
        r == classify_wait(st),
{
    match st {
        ChildStatus::Exited(code) => if code == 0 {
            Ok(())
        } else {
            Err(Errcode::NamespacesError(NsCause::ChildExit(code)))
        },
        ChildStatus::Signaled(sig, _) => Err(Errcode::NamespacesError(NsCause::ChildSignal(sig))),
        ChildStatus::Other => Err(Errcode::NamespacesError(NsCause::ChildUnknown)),
    }
}

/// The parent's whole reaping decision: a failed `wait` is itself a
/// namespace error, otherwise the status is classified.
pub fn run_parent(wait_status: Option<ChildStatus>) -> (r: Result<(), Errcode>)
    ensures
        r == (match wait_status {
            Some(st) => classify_wait(st),
            None => Err::<(), Errcode>(Errcode::NamespacesError(NsCause::WaitFailed)),
        }),
{
    match wait_status {
        Some(st) => classify_child_status(st),
        None => Err(Errcode::NamespacesError(NsCause::WaitFailed)),
    }
}

/// How the child must leave the process.
#[derive(Clone, Copy, Debug, PartialEq, Eq, Structural)]
pub enum ChildAction {
    /// Exit with status zero.
    ExitSuccess,
    /// Abort: the process already performed irreversible namespace and mount
    /// transitions, so resuming normal execution would be unsafe.
    Abort,
}

/// The child's final decision: exit successfully when its sequence
/// completed, abort on any failure.  The child never returns control to the
/// orchestrator's caller.
pub fn run_child(outcome: Result<(), Errcode>) -> (a: ChildAction)
    ensures
        a == (if outcome is Ok {
            ChildAction::ExitSuccess
        } else {
            ChildAction::Abort
        }),
{
    match outcome {
        Ok(()) => ChildAction::ExitSuccess,
        Err(_) => ChildAction::Abort,
    }
}

/// Pre-fork preparation.  Nothing is required before the fork today; the
/// hook exists so the orchestration keeps a single entry point for it.
pub fn prep_for_fork() -> (r: Result<(), Errcode>)
    ensures
        r == Ok::<(), Errcode>(()),
{
    Ok(())
}

/// How the fork call ended, as seen by the code that made it.
#[derive(Clone, Copy, Debug, PartialEq, Eq, Structural)]
pub enum ForkEvent {
    /// This process is the parent; the child has this process id.
    Parent { child: i32 },
    /// This process is the forked child.
    Child,
    /// The fork failed.
    Failed,
}

/// Where the orchestration stands.
#[derive(Clone, Copy, Debug)]
pub enum OrchState {
    /// The fork has not happened yet.
    Forking,
    /// This process is the forked child; it runs the child sequence and
    /// never returns here.
    InChild,
    /// The parent is waiting for child `child` to terminate.
    Waiting { child: i32 },
    /// The parent reaped the child and classified the outcome.
    Reaped { result: Result<(), Errcode> },
}

/// The whole fork/enter/configure/reap orchestration for one namespace.
pub struct Orchestrator {
    pub netns_dir: String,
    pub ns_name: String,
    pub veth_ip: Ipv4,
    pub peer_ip: Ipv4,
    pub state: OrchState,
}

impl Orchestrator {
    /// Starts an orchestration under the conventional namespace directory.
    pub fn run_in_namespace(ns_name: &str, veth_ip: Ipv4, veth_2_ip: Ipv4) -> (o: Orchestrator)
        ensures
            o.netns_dir@ == default_netns_dir_spec(),
            o.ns_name@ == ns_name@,
            o.veth_ip == veth_ip,
            o.peer_ip == veth_2_ip,
            o.state is Forking,
    {
        Orchestrator::in_netns_dir(default_netns_dir(), ns_name, veth_ip, veth_2_ip)
    }

    /// Starts an orchestration under an explicit namespace directory, so a
    /// synthetic directory can stand in for the conventional one.
    pub fn in_netns_dir(netns_dir: &str, ns_name: &str, veth_ip: Ipv4, veth_2_ip: Ipv4) -> (o:
        Orchestrator)
        ensures
            o.netns_dir@ == netns_dir@,
            o.ns_name@ == ns_name@,
            o.veth_ip == veth_ip,
            o.peer_ip == veth_2_ip,
            o.state is Forking,
    {
        Orchestrator {
            netns_dir: String::from_str(netns_dir),
            ns_name: String::from_str(ns_name),
            veth_ip,
            peer_ip: veth_2_ip,
            state: OrchState::Forking,
        }
    }

    /// Records how the fork ended.  In the parent the orchestration moves to
    /// waiting; in the child it moves to the child role; a failed fork is
    /// classified at once.
    pub fn on_fork(&mut self, ev: ForkEvent)
        requires
            old(self).state is Forking,
        ensures
            final(self).netns_dir == old(self).netns_dir,
            final(self).ns_name == old(self).ns_name,
            final(self).veth_ip == old(self).veth_ip,
            final(self).peer_ip == old(self).peer_ip,
            ({
                match ev {
                    ForkEvent::Parent { child } => final(self).state matches OrchState::Waiting {
                        child: c,
                    } && c == child,
                    ForkEvent::Child => final(self).state is InChild,
                    ForkEvent::Failed => final(self).state matches OrchState::Reaped { result }
                        && result == Err::<(), Errcode>(
                        Errcode::NamespacesError(NsCause::ForkFailed),
                    ),
                }
            }),
    {
        let next = match ev {
            ForkEvent::Parent { child } => OrchState::Waiting { child },
            ForkEvent::Child => OrchState::InChild,
            ForkEvent::Failed => OrchState::Reaped {
                result: Err(Errcode::NamespacesError(NsCause::ForkFailed)),
            },
        };
        self.state = next;
    }

    /// The child sequence of this orchestration, started from its beginning.
    pub fn child_task(&self) -> (t: ChildTask)
        ensures
            t.netns_dir@ == self.netns_dir@,
            t.ns_name@ == self.ns_name@,
            t.veth_ip == self.veth_ip,
            t.peer_ip == self.peer_ip,
            t.state == ChildState::Opening,
    {
        ChildTask::split_namespace(
            self.netns_dir.as_str(),
            self.ns_name.as_str(),
            self.veth_ip,
            self.peer_ip,
        )
    }

    /// Records the outcome of the blocking wait on the child.
    pub fn on_wait(&mut self, wait_status: Option<ChildStatus>)
        requires
            old(self).state is Waiting,
        ensures
            final(self).netns_dir == old(self).netns_dir,
            final(self).ns_name == old(self).ns_name,
            final(self).veth_ip == old(self).veth_ip,
            final(self).peer_ip == old(self).peer_ip,
            final(self).state matches OrchState::Reaped { result } && result == (match wait_status {
                Some(st) => classify_wait(st),
                None => Err::<(), Errcode>(Errcode::NamespacesError(NsCause::WaitFailed)),
            }),
    {
        let r = run_parent(wait_status);
        self.state = OrchState::Reaped { result: r };
    }

    /// `Some` once the parent reaped the child: the classified outcome.
    pub fn result(&self) -> (r: Option<Result<(), Errcode>>)
        ensures
            r == (match self.state {
                OrchState::Reaped { result } => Some(result),
                _ => None::<Result<(), Errcode>>,
            }),
    {
        match self.state {
            OrchState::Reaped { result } => Some(result),
            _ => None,
        }
    }
}

/// Where a namespace creation-and-open stands.
#[derive(Clone, Copy, Debug, PartialEq, Eq, Structural)]
pub enum OpenNsState {
    /// The namespace object is being created.
    CreatingNs,
    /// The namespace object is being opened.
    OpeningFd,
    /// The namespace is open under this descriptor; the caller owns it and
    /// must release it after use.
    Done { fd: i32 },
    /// Creation or open failed.
    Failed { cause: NsCause },
}

/// The successor state of a namespace creation-and-open on `ev`.
///
/// Creating an already-present name fails; opening fails when no namespace
/// object exists or the caller lacks the capability.
pub open spec fn open_ns_next(s: OpenNsState, ev: NsEvent) -> OpenNsState {
    match s {
        OpenNsState::CreatingNs => match ev {
            NsEvent::Done => OpenNsState::OpeningFd,
            _ => OpenNsState::Failed { cause: NsCause::AlreadyExists },
        },
        OpenNsState::OpeningFd => match ev {
            NsEvent::Fd(fd) => OpenNsState::Done { fd },
            NsEvent::Denied => OpenNsState::Failed { cause: NsCause::PermissionDenied },
            _ => OpenNsState::Failed { cause: NsCause::NotFound },
        },
        OpenNsState::Done { fd } => OpenNsState::Done { fd },
        OpenNsState::Failed { cause } => OpenNsState::Failed { cause },
    }
}

/// Creates a named network namespace and opens it as an owned descriptor.
pub struct OpenNamespaceTask {
    pub netns_dir: String,
    pub ns_name: String,
    pub state: OpenNsState,
}

impl OpenNamespaceTask {
    /// Starts a creation-and-open under the conventional namespace directory.
    pub fn open_namespace(ns_name: &str) -> (t: OpenNamespaceTask)
        ensures
            t.netns_dir@ == default_netns_dir_spec(),
            t.ns_name@ == ns_name@,
            t.state == OpenNsState::CreatingNs,
    {
        OpenNamespaceTask {
            netns_dir: String::from_str(default_netns_dir()),
            ns_name: String::from_str(ns_name),
            state: OpenNsState::CreatingNs,
        }
    }

    /// The next operation to perform, or `None` once finished.
    pub fn action(&self) -> (a: Option<NsAction>)
        ensures
            ({
                match self.state {
                    OpenNsState::CreatingNs => a matches Some(NsAction::CreateNamespace { name })
                        && name@ == self.ns_name@,
                    OpenNsState::OpeningFd => a matches Some(NsAction::OpenNsFile { path }) && path@
                        == ns_path_of(self.netns_dir@, self.ns_name@),
                    OpenNsState::Done { .. } => a is None,
                    OpenNsState::Failed { .. } => a is None,
                }
            }),
    {
        match self.state {
            OpenNsState::CreatingNs => Some(
                NsAction::CreateNamespace { name: self.ns_name.clone() },
            ),
            OpenNsState::OpeningFd => Some(
                NsAction::OpenNsFile {
                    path: netns_path(self.netns_dir.as_str(), self.ns_name.as_str()),
                },
            ),
            OpenNsState::Done { .. } => None,
            OpenNsState::Failed { .. } => None,
        }
    }

    /// Records the outcome of the performed operation and advances.
    pub fn step(&mut self, ev: NsEvent)
        ensures
            final(self).netns_dir == old(self).netns_dir,
            final(self).ns_name == old(self).ns_name,
            final(self).state == open_ns_next(old(self).state, ev),
    {
        let next = match self.state {
            OpenNsState::CreatingNs => match ev {
                NsEvent::Done => OpenNsState::OpeningFd,
                _ => OpenNsState::Failed { cause: NsCause::AlreadyExists },
            },
            OpenNsState::OpeningFd => match ev {
                NsEvent::Fd(fd) => OpenNsState::Done { fd },
                NsEvent::Denied => OpenNsState::Failed { cause: NsCause::PermissionDenied },
                _ => OpenNsState::Failed { cause: NsCause::NotFound },
            },
            OpenNsState::Done { fd } => OpenNsState::Done { fd },
            OpenNsState::Failed { cause } => OpenNsState::Failed { cause },
        };
        self.state = next;
    }

    /// `Some` once finished: the owned descriptor, or the error.
    pub fn result(&self) -> (r: Option<Result<i32, Errcode>>)
        ensures
            r == (match self.state {
                OpenNsState::Done { fd } => Some(Ok::<i32, Errcode>(fd)),
                OpenNsState::Failed { cause } => Some(
                    Err::<i32, Errcode>(Errcode::NamespacesError(cause)),
                ),
                _ => None::<Result<i32, Errcode>>,
            }),
    {
        match self.state {
            OpenNsState::Done { fd } => Some(Ok(fd)),
            OpenNsState::Failed { cause } => Some(Err(Errcode::NamespacesError(cause))),
            _ => None,
        }
    }
}

/// Where a namespace-directory remount stands.
#[derive(Clone, Copy, Debug, PartialEq, Eq, Structural)]
pub enum MountNetnsState {
    /// The per-container mount point is being created.
    CreatingDir,
    /// The namespace directory is being bind-mounted onto it.
    Binding,
    /// Both steps completed.
    Done,
    /// A step failed.
    Failed { cause: NsCause },
}

/// The successor state of a namespace-directory remount on `ev`.
pub open spec fn mount_netns_next(s: MountNetnsState, ev: NsEvent) -> MountNetnsState {
    match s {
        MountNetnsState::CreatingDir => match ev {
            NsEvent::Done => MountNetnsState::Binding,
            _ => MountNetnsState::Failed { cause: NsCause::DirectoryFailed },
        },
        MountNetnsState::Binding => match ev {
            NsEvent::Done => MountNetnsState::Done,
            _ => MountNetnsState::Failed { cause: NsCause::BindMountFailed },
        },
        MountNetnsState::Done => MountNetnsState::Done,
        MountNetnsState::Failed { cause } => MountNetnsState::Failed { cause },
    }
}

/// Makes the namespace directory visible inside a container: create a mount
/// point named after the host, then bind-mount the namespace directory there.
pub struct MountNetnsTask {
    pub hostname: String,
    pub state: MountNetnsState,
}

/// The per-container mount point for `hostname`.
pub open spec fn netns_mount_point(hostname: Seq<char>) -> Seq<char> {
    "/tmp/"@ + hostname
}

impl MountNetnsTask {
    /// Starts a namespace-directory remount for `hostname`.
    pub fn mount_netns(hostname: &str) -> (t: MountNetnsTask)
        ensures
            t.hostname@ == hostname@,
            t.state == MountNetnsState::CreatingDir,
    {
        MountNetnsTask { hostname: String::from_str(hostname), state: MountNetnsState::CreatingDir }
    }

    /// The next operation to perform, or `None` once finished.
    pub fn action(&self) -> (a: Option<NsAction>)
        ensures
            ({
                match self.state {
                    MountNetnsState::CreatingDir => a matches Some(
                        NsAction::CreateDirectory { path },
                    ) && path@ == netns_mount_point(self.hostname@),
                    MountNetnsState::Binding => a matches Some(
                        NsAction::BindMountNamespace { mount_point, namespace_dir },
                    ) && mount_point@ == netns_mount_point(self.hostname@) && namespace_dir@
                        == default_netns_dir_spec(),
                    MountNetnsState::Done => a is None,
                    MountNetnsState::Failed { .. } => a is None,
                }
            }),
    {
        match self.state {
            MountNetnsState::CreatingDir => Some(
                NsAction::CreateDirectory {
                    path: String::from_str("/tmp/").concat(self.hostname.as_str()),
                },
            ),
            MountNetnsState::Binding => Some(
                NsAction::BindMountNamespace {
                    mount_point: String::from_str("/tmp/").concat(self.hostname.as_str()),
                    namespace_dir: String::from_str(default_netns_dir()),
                },
            ),
            MountNetnsState::Done => None,
            MountNetnsState::Failed { .. } => None,
        }
    }

    /// Records the outcome of the performed operation and advances.
    pub fn step(&mut self, ev: NsEvent)
        ensures
            final(self).hostname == old(self).hostname,
            final(self).state == mount_netns_next(old(self).state, ev),
    {
        let next = match self.state {
            MountNetnsState::CreatingDir => match ev {
                NsEvent::Done => MountNetnsState::Binding,
                _ => MountNetnsState::Failed { cause: NsCause::DirectoryFailed },
            },
            MountNetnsState::Binding => match ev {
                NsEvent::Done => MountNetnsState::Done,
                _ => MountNetnsState::Failed { cause: NsCause::BindMountFailed },
            },
            MountNetnsState::Done => MountNetnsState::Done,
            MountNetnsState::Failed { cause } => MountNetnsState::Failed { cause },
        };
        self.state = next;
    }

    /// `Some` once finished.
    pub fn result(&self) -> (r: Option<Result<(), Errcode>>)
        ensures
            r == (match self.state {
                MountNetnsState::Done => Some(Ok::<(), Errcode>(())),
                MountNetnsState::Failed { cause } => Some(
                    Err::<(), Errcode>(Errcode::NamespacesError(cause)),
                ),
                _ => None::<Result<(), Errcode>>,
            }),
    {
        match self.state {
            MountNetnsState::Done => Some(Ok(())),
            MountNetnsState::Failed { cause } => Some(Err(Errcode::NamespacesError(cause))),
            _ => None,
        }
    }
}

/// Convenience entry point mirroring the original public item: starts the
/// namespace-directory remount for `hostname`.
pub fn mount_netns(hostname: &str) -> (t: MountNetnsTask)
    ensures
        t.hostname@ == hostname@,
        t.state == MountNetnsState::CreatingDir,
{
    MountNetnsTask::mount_netns(hostname)
}

/// Convenience entry point mirroring the original public item: starts the
/// creation-and-open of the named namespace.
pub fn open_namespace(ns_name: &str) -> (t: OpenNamespaceTask)
    ensures
        t.netns_dir@ == default_netns_dir_spec(),
        t.ns_name@ == ns_name@,
        t.state == OpenNsState::CreatingNs,
{
    OpenNamespaceTask::open_namespace(ns_name)
}

/// Convenience entry point mirroring the original public item: starts the
/// orchestration for `ns_name` with the two veth addresses.
pub fn run_in_namespace(ns_name: &str, veth_ip: Ipv4, veth_2_ip: Ipv4) -> (o: Orchestrator)
    ensures
        o.netns_dir@ == default_netns_dir_spec(),
        o.ns_name@ == ns_name@,
        o.veth_ip == veth_ip,
        o.peer_ip == veth_2_ip,
        o.state is Forking,
{
    Orchestrator::run_in_namespace(ns_name, veth_ip, veth_2_ip)
}

} // verus!
