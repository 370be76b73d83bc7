//! The access-control policy: which filesystem subtrees, network
//! endpoints and IPC scopes a sandboxed process may use.
//!
//! The policy is assembled once, from a fixed allow-list, before
//! enforcement; it is plain data and never changes afterwards.

use vstd::prelude::*;

verus! {

/// What a process may do inside a filesystem subtree.
#[derive(Clone, Copy, Debug, PartialEq, Eq, Structural)]
pub enum AccessLevel {
    /// Read, list, execute and stat only.
    ReadOnly,
    /// Additionally create, modify, delete and rename.
    ReadWrite,
}

/// A filesystem subtree paired with its capability level.
#[derive(Clone, Debug)]
pub struct AccessScope {
    pub path: String,
    pub level: AccessLevel,
}

/// An allowance for outbound TCP connections to one destination port.
/// Every port without a rule, and every other network operation, is
/// denied.
#[derive(Clone, Copy, Debug, PartialEq, Eq, Structural)]
pub struct NetworkRule {
    pub port: u16,
}

/// The IPC and signal scopes cut off at the enforcement boundary, on
/// kernels that support scoping; omitted elsewhere without being an
/// error.
#[derive(Clone, Copy, Debug, PartialEq, Eq, Structural)]
pub struct ScopeRestriction {
    /// Deny connecting to abstract unix-domain sockets outside the
    /// sandboxed process tree.
    pub abstract_unix_socket: bool,
    /// Deny sending signals outside the sandboxed process tree.
    pub signal: bool,
}

/// The whole policy for one process lifetime: filesystem scopes,
/// network rules, and the IPC scope restriction.
#[derive(Clone, Debug)]
pub struct PolicySpec {
    pub scopes: Vec<AccessScope>,
    pub net: Vec<NetworkRule>,
    pub ipc: ScopeRestriction,
}

/// A policy is well formed when no path appears under two different
/// capability levels: overlapping scopes with conflicting levels would
/// leave the effective access undefined.
pub open spec fn policy_wf(p: PolicySpec) -> bool {
    forall|i: int, j: int|
        0 <= i < p.scopes@.len() && 0 <= j < p.scopes@.len() && p.scopes@[i].path@
            == p.scopes@[j].path@ ==> p.scopes@[i].level == p.scopes@[j].level
}

/// The fixed allow-list, as (path, level) pairs: read-only access to
/// the core system directories any program needs, and full access to
/// the installation prefix, scratch space, and terminal/randomness
/// pseudo-devices.
pub open spec fn expected_scopes() -> Seq<(Seq<char>, AccessLevel)> {
    seq![
        ("/etc"@, AccessLevel::ReadOnly),
        ("/proc/cpuinfo"@, AccessLevel::ReadOnly),
        ("/usr"@, AccessLevel::ReadOnly),
        ("/dev/null"@, AccessLevel::ReadWrite),
        ("/dev/ptmx"@, AccessLevel::ReadWrite),
        ("/dev/pts"@, AccessLevel::ReadWrite),
        ("/dev/random"@, AccessLevel::ReadWrite),
        ("/dev/urandom"@, AccessLevel::ReadWrite),
        ("/dev/zero"@, AccessLevel::ReadWrite),
        ("/home/linuxbrew"@, AccessLevel::ReadWrite),
        ("/var/tmp/homebrew"@, AccessLevel::ReadWrite),
    ]
}

/// The one destination port reachable from the sandbox: HTTPS.
pub const PORT_HTTPS: u16 = 443;

/// Builds the policy: the fixed filesystem allow-list, a single
/// outbound-connect allowance to the HTTPS port, and both IPC scope
/// restrictions.  The result is well formed: no path is declared twice
/// with different levels.
pub fn build_policy() -> (p: PolicySpec)
    ensures
        p.scopes@.map_values(|s: AccessScope| (s.path@, s.level)) == expected_scopes(),
        p.net@ == seq![NetworkRule { port: PORT_HTTPS }],
        p.ipc == (ScopeRestriction { abstract_unix_socket: true, signal: true }),
        policy_wf(p),
{
    let mut scopes: Vec<AccessScope> = Vec::new();
    scopes.push(AccessScope { path: "/etc".to_owned(), level: AccessLevel::ReadOnly });
    scopes.push(AccessScope { path: "/proc/cpuinfo".to_owned(), level: AccessLevel::ReadOnly });
    scopes.push(AccessScope { path: "/usr".to_owned(), level: AccessLevel::ReadOnly });
    scopes.push(AccessScope { path: "/dev/null".to_owned(), level: AccessLevel::ReadWrite });
    scopes.push(AccessScope { path: "/dev/ptmx".to_owned(), level: AccessLevel::ReadWrite });
    scopes.push(AccessScope { path: "/dev/pts".to_owned(), level: AccessLevel::ReadWrite });
    scopes.push(AccessScope { path: "/dev/random".to_owned(), level: AccessLevel::ReadWrite });
    scopes.push(AccessScope { path: "/dev/urandom".to_owned(), level: AccessLevel::ReadWrite });
    scopes.push(AccessScope { path: "/dev/zero".to_owned(), level: AccessLevel::ReadWrite });
    scopes.push(AccessScope { path: "/home/linuxbrew".to_owned(), level: AccessLevel::ReadWrite });
    scopes.push(
        AccessScope { path: "/var/tmp/homebrew".to_owned(), level: AccessLevel::ReadWrite },
    );
    let mut net: Vec<NetworkRule> = Vec::new();
    net.push(NetworkRule { port: PORT_HTTPS });
    let p = PolicySpec {
        scopes,
        net,
        ipc: ScopeRestriction { abstract_unix_socket: true, signal: true },
    };
    proof {
        assert(p.scopes@.map_values(|s: AccessScope| (s.path@, s.level)) =~= expected_scopes());
        assert(p.net@ =~= seq![NetworkRule { port: PORT_HTTPS }]);
        lemma_expected_scopes_wf();
        assert forall|i: int, j: int|
            0 <= i < p.scopes@.len() && 0 <= j < p.scopes@.len() && p.scopes@[i].path@
                == p.scopes@[j].path@ implies p.scopes@[i].level == p.scopes@[j].level by {
            assert(expected_scopes()[i] == (p.scopes@[i].path@, p.scopes@[i].level));
            assert(expected_scopes()[j] == (p.scopes@[j].path@, p.scopes@[j].level));
        }
    }
    p
}

/// The allow-list itself never pairs one path with two levels: the
/// read-only paths and the read-write paths all have pairwise different
/// lengths across the two groups.
proof fn lemma_expected_scopes_wf()
    ensures
        forall|i: int, j: int|
            0 <= i < expected_scopes().len() && 0 <= j < expected_scopes().len()
                && expected_scopes()[i].0 == expected_scopes()[j].0 ==> expected_scopes()[i].1
                == expected_scopes()[j].1,
{
    reveal_strlit("/etc");
    reveal_strlit("/proc/cpuinfo");
    reveal_strlit("/usr");
    reveal_strlit("/dev/null");
    reveal_strlit("/dev/ptmx");
    reveal_strlit("/dev/pts");
    reveal_strlit("/dev/random");
    reveal_strlit("/dev/urandom");
    reveal_strlit("/dev/zero");
    reveal_strlit("/home/linuxbrew");
    reveal_strlit("/var/tmp/homebrew");
    assert forall|i: int, j: int|
        0 <= i < expected_scopes().len() && 0 <= j < expected_scopes().len()
            && expected_scopes()[i].0 == expected_scopes()[j].0 implies expected_scopes()[i].1
        == expected_scopes()[j].1 by {
        assert(expected_scopes()[i].0.len() == expected_scopes()[j].0.len());
        if expected_scopes()[i].1 != expected_scopes()[j].1 {
            assert(i < 3 <==> expected_scopes()[i].1 == AccessLevel::ReadOnly);
            assert(j < 3 <==> expected_scopes()[j].1 == AccessLevel::ReadOnly);
        }
    }
}

} // verus!
