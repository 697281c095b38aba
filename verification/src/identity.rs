//! User-namespace identity mapping.
//!
//! After a process unshares its user namespace, three writes establish its
//! identity: one line into its UID map, one into its GID map, and `deny`
//! into its setgroups control.  Each map line is a single range of count
//! one: `<target> <real> 1`.  The decision logic and the exact bytes are
//! verified here; the surrounding process performs the writes.

use vstd::prelude::*;
use crate::errors::{Errcode, NsCause};
use crate::strutil::{dec_rep, u32_to_string};

verus! {

/// The single-range identity map line `<target> <real> 1`.
pub open spec fn map_line(target: nat, host_id: nat) -> Seq<char> {
    dec_rep(target) + seq![' '] + dec_rep(host_id) + seq![' ', '1']
}

/// The bytes written for one process's identity: its UID map line, its GID
/// map line, and the setgroups control line.
pub struct IdentityPlan {
    pub uid_map_line: String,
    pub gid_map_line: String,
    pub setgroups_line: String,
}

/// Builds the three lines that map the calling process's identity: inside
/// the namespace it becomes `target_uid` (for both the user and the group),
/// backed by the host ids `real_uid` and `real_gid`, each as a range of one.
pub fn userns(real_uid: u32, real_gid: u32, target_uid: u32) -> (p: IdentityPlan)
    ensures
        p.uid_map_line@ == map_line(target_uid as nat, real_uid as nat),
        p.gid_map_line@ == map_line(target_uid as nat, real_gid as nat),
        p.setgroups_line@ == "deny"@,
{
    proof {
        reveal_strlit(" ");
        reveal_strlit(" 1");
    }
    let mut uid_line = u32_to_string(target_uid);
    uid_line.append(" ");
    let uid_real = u32_to_string(real_uid);
    uid_line.append(uid_real.as_str());
    uid_line.append(" 1");
    let mut gid_line = u32_to_string(target_uid);
    gid_line.append(" ");
    let gid_real = u32_to_string(real_gid);
    gid_line.append(gid_real.as_str());
    gid_line.append(" 1");
    proof {
        assert(uid_line@ =~= map_line(target_uid as nat, real_uid as nat));
        assert(gid_line@ =~= map_line(target_uid as nat, real_gid as nat));
    }
    IdentityPlan {
        uid_map_line: uid_line,
        gid_map_line: gid_line,
        setgroups_line: String::from_str("deny"),
    }
}

/// Classifies the three identity writes.  A failed UID-map or GID-map write
/// is fatal, the UID map first; a failed setgroups write is tolerated, since
/// some kernels lack that control — it is logged, never an error.
pub fn classify_identity_writes(uid_written: bool, setgroups_written: bool, gid_written: bool) -> (r:
    Result<(), Errcode>)
    ensures
        r == (if !uid_written {
            Err::<(), Errcode>(Errcode::NamespacesError(NsCause::UidMapFailed))
        } else if !gid_written {
            Err::<(), Errcode>(Errcode::NamespacesError(NsCause::GidMapFailed))
        } else {
            Ok::<(), Errcode>(())
        }),
{
    if !uid_written {
        Err(Errcode::NamespacesError(NsCause::UidMapFailed))
    } else if !gid_written {
        Err(Errcode::NamespacesError(NsCause::GidMapFailed))
    } else {
        let _ = setgroups_written;
        Ok(())
    }
}

/// The host id that a single-range map `<target> <real> 1` assigns to the
/// namespace-internal id `inside`: only `target` itself is mapped.
pub open spec fn mapped_host_id(target: nat, host_id: nat, inside: nat) -> Option<nat> {
    if inside == target {
        Some(host_id)
    } else {
        None
    }
}

/// Resolves a namespace-internal id through a single-range map.
pub fn resolve_inside_id(target: u32, real_id: u32, inside: u32) -> (r: Option<u32>)
    ensures
        r matches Some(h) ==> mapped_host_id(target as nat, real_id as nat, inside as nat) == Some(
            h as nat,
        ),
        r is None ==> mapped_host_id(target as nat, real_id as nat, inside as nat) is None,
{
    if inside == target {
        Some(real_id)
    } else {
        None
    }
}

/// The identity law of the single-range map: a process that observes id
/// `target` inside its user namespace is id `real` on the host, and every
/// other inside id is unmapped — the host-side ids themselves are untouched
/// by the mapping.
pub proof fn lemma_identity_mapping(target: nat, host_id: nat)
    ensures
        mapped_host_id(target, host_id, target) == Some(host_id),
        forall|inside: nat| inside != target ==> mapped_host_id(target, host_id, inside) is None,
{
}

} // verus!
