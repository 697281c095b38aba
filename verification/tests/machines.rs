use netns_setup::errors::{Errcode, NetCause, NsCause};
use netns_setup::ip::Ipv4;
use netns_setup::namespaces::{
    classify_child_status, mount_netns, open_namespace, prep_for_fork, run_child, run_in_namespace,
    run_parent, ChildAction, ChildStatus, ChildTask, ForkEvent, NsAction, NsEvent,
};
use netns_setup::net::{
    classify_index_lookup, classify_link_outcome, get_bridge_idx, join_veth_to_ns_fd,
    join_veth_to_ns_pid, BridgeBuilder, LinkEvent, LoUpTask, NetAction, VethPairBuilder,
    VethPeerSetup, VethUpTask,
};

#[test]
fn child_status_classification() {
    assert_eq!(classify_child_status(ChildStatus::Exited(0)), Ok(()));
    assert_eq!(
        classify_child_status(ChildStatus::Exited(17)),
        Err(Errcode::NamespacesError(NsCause::ChildExit(17)))
    );
    assert_eq!(
        classify_child_status(ChildStatus::Signaled(9, false)),
        Err(Errcode::NamespacesError(NsCause::ChildSignal(9)))
    );
    assert_eq!(
        classify_child_status(ChildStatus::Signaled(15, true)),
        Err(Errcode::NamespacesError(NsCause::ChildSignal(15)))
    );
    assert_eq!(
        classify_child_status(ChildStatus::Other),
        Err(Errcode::NamespacesError(NsCause::ChildUnknown))
    );
}

#[test]
fn parent_reaping() {
    assert_eq!(run_parent(Some(ChildStatus::Exited(0))), Ok(()));
    assert_eq!(
        run_parent(None),
        Err(Errcode::NamespacesError(NsCause::WaitFailed))
    );
    assert_eq!(
        run_parent(Some(ChildStatus::Exited(1))),
        Err(Errcode::NamespacesError(NsCause::ChildExit(1)))
    );
}

#[test]
fn child_exit_decision() {
    assert_eq!(run_child(Ok(())), ChildAction::ExitSuccess);
    assert_eq!(
        run_child(Err(Errcode::NamespacesError(NsCause::UnshareFailed))),
        ChildAction::Abort
    );
    assert_eq!(prep_for_fork(), Ok(()));
}

fn expect_run_command_args(a: Option<NsAction>) -> Vec<String> {
    match a {
        Some(NsAction::RunCommand { cmd }) => {
            assert_eq!(cmd.program, "ip");
            cmd.args
        }
        other => panic!("expected a delegated command, got {:?}", other),
    }
}

#[test]
fn child_sequence_happy_path() {
    let mut t = ChildTask::split_namespace("/run/netns/", "ns1", Ipv4::new(10, 0, 0, 1), Ipv4::new(10, 0, 0, 2));
    match t.action() {
        Some(NsAction::OpenNsFile { path }) => assert_eq!(path, "/run/netns/ns1"),
        other => panic!("expected an open, got {:?}", other),
    }
    t.step(NsEvent::Fd(7));
    match t.action() {
        Some(NsAction::EnterNetNs { fd }) => assert_eq!(fd, 7),
        other => panic!("expected namespace entry, got {:?}", other),
    }
    t.step(NsEvent::Done);
    assert!(matches!(t.action(), Some(NsAction::UnshareMounts)));
    t.step(NsEvent::Done);
    assert!(matches!(t.action(), Some(NsAction::RemountRootPrivate)));
    t.step(NsEvent::Done);
    assert!(matches!(t.action(), Some(NsAction::StatSys)));
    t.step(NsEvent::SysFlags { readonly: true });
    match t.action() {
        Some(NsAction::RemountSys { source, readonly }) => {
            assert_eq!(source, "ns1");
            assert!(readonly);
        }
        other => panic!("expected the sysfs remount, got {:?}", other),
    }
    t.step(NsEvent::Done);
    assert_eq!(expect_run_command_args(t.action()), ["link", "set", "lo", "up"]);
    t.step(NsEvent::Done);
    assert_eq!(expect_run_command_args(t.action()), ["link", "set", "ns1_peer", "up"]);
    t.step(NsEvent::Done);
    assert_eq!(
        expect_run_command_args(t.action()),
        ["addr", "add", "10.0.0.2/24", "dev", "ns1_peer"]
    );
    t.step(NsEvent::Done);
    assert_eq!(
        expect_run_command_args(t.action()),
        ["route", "add", "default", "dev", "ns1_peer", "via", "10.0.0.1"]
    );
    t.step(NsEvent::Done);
    assert!(t.action().is_none());
    assert_eq!(t.result(), Some(Ok(())));
}

#[test]
fn child_sequence_missing_sysfs_is_tolerated() {
    let mut t = ChildTask::split_namespace("/run/netns/", "ns1", Ipv4::new(10, 0, 0, 1), Ipv4::new(10, 0, 0, 2));
    t.step(NsEvent::Fd(3));
    t.step(NsEvent::Done);
    t.step(NsEvent::Done);
    // The best-effort root remount fails; the sequence continues.
    t.step(NsEvent::Failed);
    assert!(matches!(t.action(), Some(NsAction::StatSys)));
    // No sysfs is present; the remount is skipped, not an error.
    t.step(NsEvent::NoSys);
    assert_eq!(expect_run_command_args(t.action()), ["link", "set", "lo", "up"]);
}

#[test]
fn child_sequence_hard_failures() {
    let mut t = ChildTask::split_namespace("/run/netns/", "ns1", Ipv4::new(10, 0, 0, 1), Ipv4::new(10, 0, 0, 2));
    t.step(NsEvent::Failed);
    assert_eq!(
        t.result(),
        Some(Err(Errcode::NamespacesError(NsCause::NotFound)))
    );

    let mut t = ChildTask::split_namespace("/run/netns/", "ns1", Ipv4::new(10, 0, 0, 1), Ipv4::new(10, 0, 0, 2));
    t.step(NsEvent::Fd(3));
    t.step(NsEvent::Denied);
    assert_eq!(
        t.result(),
        Some(Err(Errcode::NamespacesError(NsCause::PermissionDenied)))
    );

    let mut t = ChildTask::split_namespace("/run/netns/", "ns1", Ipv4::new(10, 0, 0, 1), Ipv4::new(10, 0, 0, 2));
    t.step(NsEvent::Fd(3));
    t.step(NsEvent::Failed);
    assert_eq!(
        t.result(),
        Some(Err(Errcode::NamespacesError(NsCause::InvalidHandle)))
    );

    let mut t = ChildTask::split_namespace("/run/netns/", "ns1", Ipv4::new(10, 0, 0, 1), Ipv4::new(10, 0, 0, 2));
    t.step(NsEvent::Fd(3));
    t.step(NsEvent::Done);
    t.step(NsEvent::Failed);
    assert_eq!(
        t.result(),
        Some(Err(Errcode::NamespacesError(NsCause::UnshareFailed)))
    );

    // A delegated command whose exit status reports failure is propagated.
    let mut t = ChildTask::split_namespace("/run/netns/", "ns1", Ipv4::new(10, 0, 0, 1), Ipv4::new(10, 0, 0, 2));
    t.step(NsEvent::Fd(3));
    t.step(NsEvent::Done);
    t.step(NsEvent::Done);
    t.step(NsEvent::Done);
    t.step(NsEvent::NoSys);
    t.step(NsEvent::Failed);
    assert_eq!(
        t.result(),
        Some(Err(Errcode::NamespacesError(NsCause::CommandFailed)))
    );
}

#[test]
fn orchestrator_parent_flow() {
    let mut o = run_in_namespace("ns1", Ipv4::new(10, 0, 0, 1), Ipv4::new(10, 0, 0, 2));
    assert!(o.result().is_none());
    o.on_fork(ForkEvent::Parent { child: 42 });
    assert!(o.result().is_none());
    o.on_wait(Some(ChildStatus::Exited(0)));
    assert_eq!(o.result(), Some(Ok(())));

    let mut o = run_in_namespace("ns1", Ipv4::new(10, 0, 0, 1), Ipv4::new(10, 0, 0, 2));
    o.on_fork(ForkEvent::Parent { child: 42 });
    o.on_wait(Some(ChildStatus::Exited(17)));
    assert_eq!(
        o.result(),
        Some(Err(Errcode::NamespacesError(NsCause::ChildExit(17))))
    );

    let mut o = run_in_namespace("ns1", Ipv4::new(10, 0, 0, 1), Ipv4::new(10, 0, 0, 2));
    o.on_fork(ForkEvent::Failed);
    assert_eq!(
        o.result(),
        Some(Err(Errcode::NamespacesError(NsCause::ForkFailed)))
    );
}

#[test]
fn orchestrator_child_flow() {
    let mut o = run_in_namespace("ns1", Ipv4::new(10, 0, 0, 1), Ipv4::new(10, 0, 0, 2));
    o.on_fork(ForkEvent::Child);
    let t = o.child_task();
    assert_eq!(t.ns_name, "ns1");
    assert_eq!(t.netns_dir, "/run/netns/");
    match t.action() {
        Some(NsAction::OpenNsFile { path }) => assert_eq!(path, "/run/netns/ns1"),
        other => panic!("expected an open, got {:?}", other),
    }
}

#[test]
fn namespace_create_and_open() {
    let mut t = open_namespace("ns1");
    match t.action() {
        Some(NsAction::CreateNamespace { name }) => assert_eq!(name, "ns1"),
        other => panic!("expected the creation, got {:?}", other),
    }
    t.step(NsEvent::Done);
    match t.action() {
        Some(NsAction::OpenNsFile { path }) => assert_eq!(path, "/run/netns/ns1"),
        other => panic!("expected the open, got {:?}", other),
    }
    t.step(NsEvent::Fd(9));
    assert_eq!(t.result(), Some(Ok(9)));

    // Creating a name that already exists fails the second time.
    let mut t = open_namespace("ns1");
    t.step(NsEvent::Failed);
    assert_eq!(
        t.result(),
        Some(Err(Errcode::NamespacesError(NsCause::AlreadyExists)))
    );
}

#[test]
fn namespace_directory_remount() {
    let mut t = mount_netns("host1");
    match t.action() {
        Some(NsAction::CreateDirectory { path }) => assert_eq!(path, "/tmp/host1"),
        other => panic!("expected the directory creation, got {:?}", other),
    }
    t.step(NsEvent::Done);
    match t.action() {
        Some(NsAction::BindMountNamespace { mount_point, namespace_dir }) => {
            assert_eq!(mount_point, "/tmp/host1");
            assert_eq!(namespace_dir, "/run/netns/");
        }
        other => panic!("expected the bind mount, got {:?}", other),
    }
    t.step(NsEvent::Done);
    assert_eq!(t.result(), Some(Ok(())));

    let mut t = mount_netns("host1");
    t.step(NsEvent::Failed);
    assert_eq!(
        t.result(),
        Some(Err(Errcode::NamespacesError(NsCause::DirectoryFailed)))
    );

    let mut t = mount_netns("host1");
    t.step(NsEvent::Done);
    t.step(NsEvent::Failed);
    assert_eq!(
        t.result(),
        Some(Err(Errcode::NamespacesError(NsCause::BindMountFailed)))
    );
}

#[test]
fn bridge_build() {
    let mut b = BridgeBuilder::create_bridge("br0", Ipv4::new(172, 16, 0, 1), 24);
    match b.action() {
        Some(NetAction::AddBridge { name }) => assert_eq!(name, "br0"),
        other => panic!("expected the bridge creation, got {:?}", other),
    }
    b.step(LinkEvent::Done);
    match b.action() {
        Some(NetAction::GetLinkIndex { name }) => assert_eq!(name, "br0"),
        other => panic!("expected the index lookup, got {:?}", other),
    }
    b.step(LinkEvent::Index(5));
    match b.action() {
        Some(NetAction::AddAddress { index, addr, prefix }) => {
            assert_eq!(index, 5);
            assert_eq!(addr, Ipv4::new(172, 16, 0, 1));
            assert_eq!(prefix, 24);
        }
        other => panic!("expected the address assignment, got {:?}", other),
    }
    // The address assignment fails; the build continues best-effort.
    b.step(LinkEvent::Failed);
    assert!(matches!(b.action(), Some(NetAction::SetLinkUp { index: 5 })));
    b.step(LinkEvent::Done);
    assert_eq!(b.result(), Some(Ok(5)));

    // An unresolvable bridge name is a hard error.
    let mut b = BridgeBuilder::create_bridge("br0", Ipv4::new(172, 16, 0, 1), 24);
    b.step(LinkEvent::Done);
    b.step(LinkEvent::NotFound);
    assert_eq!(
        b.result(),
        Some(Err(Errcode::NetworkError(NetCause::NotFound)))
    );
}

#[test]
fn veth_pair_build() {
    let mut b = VethPairBuilder::create_veth_pair(
        "ns1",
        Ipv4::new(10, 0, 0, 1),
        Ipv4::new(10, 0, 0, 2),
        24,
    );
    match b.action() {
        Some(NetAction::AddVeth { name, peer }) => {
            assert_eq!(name, "ns1");
            assert_eq!(peer, "ns1_peer");
        }
        other => panic!("expected the pair creation, got {:?}", other),
    }
    b.step(LinkEvent::Done);
    match b.action() {
        Some(NetAction::GetLinkIndex { name }) => assert_eq!(name, "ns1"),
        other => panic!("expected the host lookup, got {:?}", other),
    }
    b.step(LinkEvent::Index(3));
    match b.action() {
        Some(NetAction::GetLinkIndex { name }) => assert_eq!(name, "ns1_peer"),
        other => panic!("expected the peer lookup, got {:?}", other),
    }
    b.step(LinkEvent::Index(4));
    assert!(matches!(b.action(), Some(NetAction::SetLinkUp { index: 3 })));
    b.step(LinkEvent::Done);
    match b.action() {
        Some(NetAction::AddAddress { index, addr, .. }) => {
            assert_eq!(index, 3);
            assert_eq!(addr, Ipv4::new(10, 0, 0, 1));
        }
        other => panic!("expected the host address, got {:?}", other),
    }
    // Best-effort: both address assignments and the peer raise may fail.
    b.step(LinkEvent::Failed);
    match b.action() {
        Some(NetAction::AddAddress { index, addr, .. }) => {
            assert_eq!(index, 4);
            assert_eq!(addr, Ipv4::new(10, 0, 0, 2));
        }
        other => panic!("expected the peer address, got {:?}", other),
    }
    b.step(LinkEvent::Failed);
    assert!(matches!(b.action(), Some(NetAction::SetLinkUp { index: 4 })));
    b.step(LinkEvent::Failed);
    // The two indices resolved by name are handed out, distinct.
    assert_eq!(b.result(), Some(Ok((3, 4))));

    // A failed pair creation is a hard error.
    let mut b = VethPairBuilder::create_veth_pair(
        "ns1",
        Ipv4::new(10, 0, 0, 1),
        Ipv4::new(10, 0, 0, 2),
        24,
    );
    b.step(LinkEvent::Failed);
    assert_eq!(
        b.result(),
        Some(Err(Errcode::NetworkError(NetCause::RequestFailed)))
    );
}

#[test]
fn veth_peer_setup() {
    let mut t = VethPeerSetup::setup_veth_peer(4, Ipv4::new(10, 0, 0, 2), 24);
    match t.action() {
        Some(NetAction::AddAddress { index, addr, prefix }) => {
            assert_eq!(index, 4);
            assert_eq!(addr, Ipv4::new(10, 0, 0, 2));
            assert_eq!(prefix, 24);
        }
        other => panic!("expected the address assignment, got {:?}", other),
    }
    t.step(LinkEvent::Done);
    assert!(matches!(t.action(), Some(NetAction::SetLinkUp { index: 4 })));
    t.step(LinkEvent::Done);
    match t.action() {
        Some(NetAction::GetLinkIndex { name }) => assert_eq!(name, "lo"),
        other => panic!("expected the loopback lookup, got {:?}", other),
    }
    t.step(LinkEvent::Index(1));
    assert!(matches!(t.action(), Some(NetAction::SetLinkUp { index: 1 })));
    t.step(LinkEvent::Done);
    assert_eq!(t.result(), Some(Ok(())));

    // A missing loopback is a hard error.
    let mut t = VethPeerSetup::setup_veth_peer(4, Ipv4::new(10, 0, 0, 2), 24);
    t.step(LinkEvent::Done);
    t.step(LinkEvent::Done);
    t.step(LinkEvent::NotFound);
    assert_eq!(
        t.result(),
        Some(Err(Errcode::NetworkError(NetCause::NotFound)))
    );
}

#[test]
fn loopback_raise() {
    let mut t = LoUpTask::set_lo_up();
    match t.action() {
        Some(NetAction::GetLinkIndex { name }) => assert_eq!(name, "lo"),
        other => panic!("expected the loopback lookup, got {:?}", other),
    }
    t.step(LinkEvent::Index(1));
    assert!(matches!(t.action(), Some(NetAction::SetLinkUp { index: 1 })));
    t.step(LinkEvent::Done);
    assert_eq!(t.result(), Some(Ok(())));
}

#[test]
fn named_link_raise() {
    let mut t = VethUpTask::set_veth_up("test_veth");
    assert!(matches!(t.action(), Some(NetAction::ListLinks)));
    t.step(LinkEvent::Done);
    match t.action() {
        Some(NetAction::GetLinkIndex { name }) => assert_eq!(name, "test_veth"),
        other => panic!("expected the lookup, got {:?}", other),
    }
    t.step(LinkEvent::Index(8));
    t.step(LinkEvent::Done);
    assert_eq!(t.result(), Some(Ok(())));
}

#[test]
fn namespace_joins() {
    match join_veth_to_ns_pid(4, 4242) {
        NetAction::SetLinkNsByPid { index, pid } => {
            assert_eq!(index, 4);
            assert_eq!(pid, 4242);
        }
        other => panic!("expected the move by pid, got {:?}", other),
    }
    match join_veth_to_ns_fd(4, 9) {
        NetAction::SetLinkNsByFd { index, fd } => {
            assert_eq!(index, 4);
            assert_eq!(fd, 9);
        }
        other => panic!("expected the move by fd, got {:?}", other),
    }
    assert_eq!(classify_link_outcome(LinkEvent::Done), Ok(()));
    assert_eq!(
        classify_link_outcome(LinkEvent::Failed),
        Err(Errcode::NetworkError(NetCause::RequestFailed))
    );
}

#[test]
fn index_lookup_classification() {
    match get_bridge_idx("br0") {
        NetAction::GetLinkIndex { name } => assert_eq!(name, "br0"),
        other => panic!("expected the lookup, got {:?}", other),
    }
    assert_eq!(classify_index_lookup(LinkEvent::Index(5)), Ok(5));
    assert_eq!(
        classify_index_lookup(LinkEvent::NotFound),
        Err(Errcode::NetworkError(NetCause::NotFound))
    );
    assert_eq!(
        classify_index_lookup(LinkEvent::Failed),
        Err(Errcode::NetworkError(NetCause::RequestFailed))
    );
}
