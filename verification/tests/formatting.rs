use netns_setup::identity::{classify_identity_writes, resolve_inside_id, userns};
use netns_setup::errors::{Errcode, NsCause};
use netns_setup::ip::{format_ipv4, parse_ipv4, Ipv4};
use netns_setup::namespaces::{net_conf, netns_path, peer_name};
use netns_setup::net::slirp;
use netns_setup::strutil::u32_to_string;

#[test]
fn decimal_rendering() {
    assert_eq!(u32_to_string(0), "0");
    assert_eq!(u32_to_string(7), "7");
    assert_eq!(u32_to_string(10), "10");
    assert_eq!(u32_to_string(1000), "1000");
    assert_eq!(u32_to_string(65520), "65520");
    assert_eq!(u32_to_string(u32::MAX), "4294967295");
}

#[test]
fn ipv4_rendering() {
    assert_eq!(format_ipv4(Ipv4::new(10, 0, 0, 1)), "10.0.0.1");
    assert_eq!(format_ipv4(Ipv4::new(0, 0, 0, 0)), "0.0.0.0");
    assert_eq!(format_ipv4(Ipv4::new(255, 255, 255, 255)), "255.255.255.255");
    assert_eq!(format_ipv4(Ipv4::new(192, 168, 1, 30)), "192.168.1.30");
}

#[test]
fn ipv4_parsing() {
    assert_eq!(parse_ipv4("10.0.0.1"), Some(Ipv4::new(10, 0, 0, 1)));
    assert_eq!(parse_ipv4("0.0.0.0"), Some(Ipv4::new(0, 0, 0, 0)));
    assert_eq!(parse_ipv4("255.255.255.255"), Some(Ipv4::new(255, 255, 255, 255)));
    assert_eq!(parse_ipv4("192.168.1.30"), Some(Ipv4::new(192, 168, 1, 30)));

    assert_eq!(parse_ipv4(""), None);
    assert_eq!(parse_ipv4("10.0.0"), None);
    assert_eq!(parse_ipv4("10.0.0.1.2"), None);
    assert_eq!(parse_ipv4("10.0.0."), None);
    assert_eq!(parse_ipv4(".0.0.1"), None);
    assert_eq!(parse_ipv4("10..0.1"), None);
    assert_eq!(parse_ipv4("256.0.0.1"), None);
    assert_eq!(parse_ipv4("10.0.0.999"), None);
    assert_eq!(parse_ipv4("1000.0.0.1"), None);
    assert_eq!(parse_ipv4("01.0.0.1"), None);
    assert_eq!(parse_ipv4("10.0.0.1 "), None);
    assert_eq!(parse_ipv4("a.b.c.d"), None);
}

#[test]
fn ipv4_round_trip() {
    let samples = [
        Ipv4::new(10, 0, 0, 1),
        Ipv4::new(0, 0, 0, 0),
        Ipv4::new(255, 255, 255, 255),
        Ipv4::new(172, 16, 254, 9),
    ];
    for ip in samples {
        assert_eq!(parse_ipv4(&format_ipv4(ip)), Some(ip));
    }
}

#[test]
fn namespace_paths() {
    assert_eq!(netns_path("/run/netns/", "ns1"), "/run/netns/ns1");
    assert_eq!(netns_path("/var/run/netns/", "blue"), "/var/run/netns/blue");
    assert_eq!(peer_name("ns1"), "ns1_peer");
}

#[test]
fn identity_plan_lines() {
    let p = userns(1000, 1000, 0);
    assert_eq!(p.uid_map_line, "0 1000 1");
    assert_eq!(p.gid_map_line, "0 1000 1");
    assert_eq!(p.setgroups_line, "deny");

    let q = userns(1000, 984, 7);
    assert_eq!(q.uid_map_line, "7 1000 1");
    assert_eq!(q.gid_map_line, "7 984 1");
}

#[test]
fn identity_write_classification() {
    assert_eq!(classify_identity_writes(true, true, true), Ok(()));
    assert_eq!(
        classify_identity_writes(false, true, true),
        Err(Errcode::NamespacesError(NsCause::UidMapFailed))
    );
    assert_eq!(
        classify_identity_writes(true, true, false),
        Err(Errcode::NamespacesError(NsCause::GidMapFailed))
    );
    // A failed setgroups write is tolerated.
    assert_eq!(classify_identity_writes(true, false, true), Ok(()));
    // The UID map is reported first when both maps fail.
    assert_eq!(
        classify_identity_writes(false, true, false),
        Err(Errcode::NamespacesError(NsCause::UidMapFailed))
    );
}

#[test]
fn identity_resolution() {
    // A process observing id 0 inside the namespace is 1000 on the host.
    assert_eq!(resolve_inside_id(0, 1000, 0), Some(1000));
    // Ids outside the single mapped range stay unmapped.
    assert_eq!(resolve_inside_id(0, 1000, 1), None);
    assert_eq!(resolve_inside_id(0, 1000, 1000), None);
    assert_eq!(resolve_inside_id(7, 984, 7), Some(984));
}

#[test]
fn delegated_configuration_commands() {
    let cmds = net_conf("ns1", Ipv4::new(10, 0, 0, 1), Ipv4::new(10, 0, 0, 2));
    assert_eq!(cmds.len(), 4);
    for c in &cmds {
        assert_eq!(c.program, "ip");
    }
    assert_eq!(cmds[0].args, ["link", "set", "lo", "up"]);
    assert_eq!(cmds[1].args, ["link", "set", "ns1_peer", "up"]);
    assert_eq!(cmds[2].args, ["addr", "add", "10.0.0.2/24", "dev", "ns1_peer"]);
    assert_eq!(
        cmds[3].args,
        ["route", "add", "default", "dev", "ns1_peer", "via", "10.0.0.1"]
    );
}

#[test]
fn slirp_invocation() {
    let c = slirp(4242);
    assert_eq!(c.program, "slirp4netns");
    assert_eq!(
        c.args,
        ["--configure", "--mtu=65520", "--disable-host-loopback", "4242", "tap0"]
    );
}
