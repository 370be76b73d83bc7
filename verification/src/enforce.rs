//! Applying the policy to the running process through the kernel's
//! Landlock facility.
//!
//! Enforcement is apply-once and irrevocable: it restricts the current
//! process and all its descendants for the rest of their lifetimes.
//! The single-use [`UnrestrictedProcess`] token makes the one-way
//! transition explicit.  The facility's own calls stand behind trusted
//! wrappers whose handles carry a ghost record of every grant handed
//! to the kernel; everything around them — assembling the path lists
//! from the policy, ordering the stages, classifying errors, and
//! deciding what a given outcome means for the process — is verified,
//! and [`enforce`] promises that what was submitted is exactly the
//! policy's own grants.

use vstd::prelude::*;

use crate::policy::{AccessLevel, AccessScope, NetworkRule, PolicySpec};
use landlock::{Access, RulesetAttr, RulesetCreatedAttr};

verus! {

#[verifier::external_type_specification]
#[verifier::external_body]
pub struct ExRuleset(landlock::Ruleset);

#[verifier::external_type_specification]
#[verifier::external_body]
pub struct ExRulesetCreated(landlock::RulesetCreated);

#[verifier::external_type_specification]
#[verifier::external_body]
pub struct ExRulesetError(landlock::RulesetError);

/// How completely the policy took effect.  Produced once per process;
/// it drives only logging, never control flow.
#[derive(Clone, Copy, Debug, PartialEq, Eq, Structural)]
pub enum EnforcementResult {
    /// Every requested restriction is active.
    FullyEnforced,
    /// The running kernel supports only part of what was requested.
    PartiallyEnforced,
    /// The facility is unavailable; nothing is restricted.
    NotEnforced,
}

/// What enforcement reported: the ruleset's status and whether the
/// "no new privileges" flag was set.
#[derive(Clone, Copy, Debug, PartialEq, Eq, Structural)]
pub struct EnforcementOutcome {
    pub result: EnforcementResult,
    pub no_new_privs: bool,
}

/// Why enforcement failed.  Partial enforcement is not an error: a
/// degraded [`EnforcementOutcome`] always comes back as success.  The
/// variant is the stage tag: declaring the handled capability
/// categories surfaces here as `PolicyConstruction`, every later step
/// as `EnforcementSetup`.
pub enum EnforceError {
    /// The facility rejected a requested capability category outright
    /// while the ruleset was being declared.
    PolicyConstruction(landlock::RulesetError),
    /// The facility could not create, populate or apply the ruleset
    /// for a reason other than partial support.
    EnforcementSetup(landlock::RulesetError),
}

impl EnforceError {
    /// Which setup stage failed, for diagnostics.
    pub fn stage(&self) -> (s: &'static str)
        ensures
            self is PolicyConstruction ==> s@ == "policy construction"@,
            self is EnforcementSetup ==> s@ == "enforcement setup"@,
    {
        match self {
            EnforceError::PolicyConstruction(_) => "policy construction",
            EnforceError::EnforcementSetup(_) => "enforcement setup",
        }
    }
}

/// A single-use witness that the current process has not yet been
/// restricted.  Enforcing consumes it, so policy cannot be applied
/// twice; there is no way back to the unrestricted state.
pub struct UnrestrictedProcess {
    /// Private, so that the only way to obtain the witness is
    /// [`UnrestrictedProcess::claim`].
    #[allow(dead_code)]
    sealed: bool,
}

impl UnrestrictedProcess {
    /// Claims the witness.  Call once, at process start, before any
    /// enforcement attempt.
    pub fn claim() -> UnrestrictedProcess {
        UnrestrictedProcess { sealed: true }
    }
}

/// A ruleset being declared: the facility's builder handle, together
/// with a ghost record of whether IPC scoping has been requested.
pub struct DeclaredRuleset {
    inner: landlock::Ruleset,
    /// Whether the abstract-socket and signal scopes were declared.
    pub scoped: Ghost<bool>,
}

/// A created ruleset being populated: the facility's handle, together
/// with a ghost record of every grant submitted so far — the paths
/// granted read-only, the paths granted read-write, and the TCP ports
/// opened for outbound connects.
pub struct PreparedRuleset {
    inner: landlock::RulesetCreated,
    /// Whether the abstract-socket and signal scopes were declared.
    pub scoped: Ghost<bool>,
    /// Paths submitted with the read-only access set, in order.
    pub read_only: Ghost<Seq<Seq<char>>>,
    /// Paths submitted with the full access set, in order.
    pub read_write: Ghost<Seq<Seq<char>>>,
    /// Ports submitted for outbound TCP connects, in order.
    pub tcp_ports: Ghost<Seq<u16>>,
}

/// What enforcement did: the outcome the facility reported, together
/// with the ghost record of exactly what had been submitted when the
/// restriction took effect.
pub struct Enforcement {
    pub outcome: EnforcementOutcome,
    /// Whether the abstract-socket and signal scopes were declared.
    pub scoped: Ghost<bool>,
    /// Paths granted read-only access, in submission order.
    pub read_only: Ghost<Seq<Seq<char>>>,
    /// Paths granted full access, in submission order.
    pub read_write: Ghost<Seq<Seq<char>>>,
    /// Ports opened for outbound TCP connects, in submission order.
    pub tcp_ports: Ghost<Seq<u16>>,
}

/// An unconstrained ghost value.  The trusted bodies below fill their
/// handles' ghost fields with it; what those fields really hold is
/// what each wrapper's `ensures` states.
fn ghost_record<A>() -> (g: Ghost<A>) {
    Ghost(arbitrary())
}

/// Relies on `landlock::Ruleset::default` and
/// `RulesetAttr::handle_access` with `AccessFs::from_all(ABI::V6)` and
/// `AccessNet::from_all(ABI::V6)`: opens a ruleset declaration that
/// handles every filesystem and network access right of ABI v6, so
/// that whatever a later rule does not grant is denied.  The access
/// bits are derived from the ABI version, never hardcoded.  No scope
/// has been declared yet, which the ghost record states.
#[verifier::external_body]
fn ruleset_handling_all_access() -> (r: Result<DeclaredRuleset, landlock::RulesetError>)
    ensures
        r matches Ok(d) ==> d.scoped@ == false,
{
    let abi = landlock::ABI::V6;
    let inner = landlock::Ruleset::default()
        .handle_access(landlock::AccessFs::from_all(abi))?
        .handle_access(landlock::AccessNet::from_all(abi))?;
    Ok(DeclaredRuleset { inner, scoped: ghost_record() })
}

/// Relies on `RulesetAttr::scope` with `Scope::from_all(ABI::V6)`,
/// that is both the abstract unix-socket and the signal scope:
/// connecting and signalling outside the sandboxed process tree will
/// be denied where the kernel supports scoping.  The ghost record now
/// says the scopes were declared.
#[verifier::external_body]
fn ruleset_scoping_ipc(rs: DeclaredRuleset) -> (r: Result<
    DeclaredRuleset,
    landlock::RulesetError,
>)
    ensures
        r matches Ok(d) ==> d.scoped@ == true,
{
    let inner = rs.inner.scope(landlock::Scope::from_all(landlock::ABI::V6))?;
    Ok(DeclaredRuleset { inner, scoped: ghost_record() })
}

/// Relies on `landlock::Ruleset::create`: asks the kernel for a
/// ruleset handling the declared access categories, degrading to what
/// the running kernel supports (best effort).  Nothing has been
/// granted yet: the ghost grant records start empty, and the scope
/// declaration carries over.
#[verifier::external_body]
fn create_ruleset(rs: DeclaredRuleset) -> (r: Result<PreparedRuleset, landlock::RulesetError>)
    ensures
        r matches Ok(p) ==> p.scoped@ == rs.scoped@ && p.read_only@ == Seq::<Seq<char>>::empty()
            && p.read_write@ == Seq::<Seq<char>>::empty() && p.tcp_ports@ == Seq::<u16>::empty(),
{
    let DeclaredRuleset { inner, scoped } = rs;
    let inner = inner.create()?;
    Ok(
        PreparedRuleset {
            inner,
            scoped,
            read_only: ghost_record(),
            read_write: ghost_record(),
            tcp_ports: ghost_record(),
        },
    )
}

/// Relies on `landlock::path_beneath_rules` with
/// `AccessFs::from_read(ABI::V6)` and
/// `RulesetCreatedAttr::add_rules`: grants read, list, execute and
/// stat beneath each of the given paths, and nothing else.  Paths that
/// cannot be opened are skipped (best effort, as the facility
/// documents).  The ghost record appends exactly these paths, at the
/// read-only level only.
#[verifier::external_body]
fn grant_read_only(rs: PreparedRuleset, paths: &Vec<String>) -> (r: Result<
    PreparedRuleset,
    landlock::RulesetError,
>)
    ensures
        r matches Ok(p) ==> p.scoped@ == rs.scoped@ && p.read_only@ == rs.read_only@
            + paths@.map_values(|s: String| s@) && p.read_write@ == rs.read_write@ && p.tcp_ports@
            == rs.tcp_ports@,
{
    let PreparedRuleset { inner, scoped, read_only: _, read_write, tcp_ports } = rs;
    let inner = inner.add_rules(
        landlock::path_beneath_rules(paths, landlock::AccessFs::from_read(landlock::ABI::V6)),
    )?;
    Ok(PreparedRuleset { inner, scoped, read_only: ghost_record(), read_write, tcp_ports })
}

/// Relies on `landlock::path_beneath_rules` with
/// `AccessFs::from_all(ABI::V6)` and `RulesetCreatedAttr::add_rules`:
/// grants every handled filesystem right beneath each of the given
/// paths.  Paths that cannot be opened are skipped (best effort).  The
/// ghost record appends exactly these paths, at the read-write level
/// only.
#[verifier::external_body]
fn grant_read_write(rs: PreparedRuleset, paths: &Vec<String>) -> (r: Result<
    PreparedRuleset,
    landlock::RulesetError,
>)
    ensures
        r matches Ok(p) ==> p.scoped@ == rs.scoped@ && p.read_only@ == rs.read_only@
            && p.read_write@ == rs.read_write@ + paths@.map_values(|s: String| s@) && p.tcp_ports@
            == rs.tcp_ports@,
{
    let PreparedRuleset { inner, scoped, read_only, read_write: _, tcp_ports } = rs;
    let inner = inner.add_rules(
        landlock::path_beneath_rules(paths, landlock::AccessFs::from_all(landlock::ABI::V6)),
    )?;
    Ok(PreparedRuleset { inner, scoped, read_only, read_write: ghost_record(), tcp_ports })
}

/// Relies on `landlock::NetPort::new` with `AccessNet::ConnectTcp` and
/// `RulesetCreatedAttr::add_rule`: allows outbound TCP connections to
/// the one given port, and no other network operation.  The ghost
/// record appends exactly this port.
#[verifier::external_body]
fn grant_tcp_connect(rs: PreparedRuleset, port: u16) -> (r: Result<
    PreparedRuleset,
    landlock::RulesetError,
>)
    ensures
        r matches Ok(p) ==> p.scoped@ == rs.scoped@ && p.read_only@ == rs.read_only@
            && p.read_write@ == rs.read_write@ && p.tcp_ports@ == rs.tcp_ports@.push(port),
{
    let PreparedRuleset { inner, scoped, read_only, read_write, tcp_ports: _ } = rs;
    let inner = inner.add_rule(landlock::NetPort::new(port, landlock::AccessNet::ConnectTcp))?;
    Ok(PreparedRuleset { inner, scoped, read_only, read_write, tcp_ports: ghost_record() })
}

/// Relies on `landlock::RulesetCreated::restrict_self`: irrevocably
/// restricts the calling thread with the ruleset and sets the "no new
/// privileges" flag; the returned status says how completely the
/// ruleset was enforced and whether the flag was set.  Every status
/// the call reports — full, partial or none — comes back as success;
/// only the syscall failing is an error.  The outcome depends on the
/// running kernel, so nothing is promised of it beyond its shape; the
/// ghost grant record is carried over unchanged: what was enforced is
/// exactly what had been submitted.
#[verifier::external_body]
fn restrict_current_process(rs: PreparedRuleset) -> (r: Result<
    Enforcement,
    landlock::RulesetError,
>)
    ensures
        r matches Ok(e) ==> e.scoped@ == rs.scoped@ && e.read_only@ == rs.read_only@
            && e.read_write@ == rs.read_write@ && e.tcp_ports@ == rs.tcp_ports@,
{
    let PreparedRuleset { inner, scoped, read_only, read_write, tcp_ports } = rs;
    let status = inner.restrict_self()?;
    let outcome = EnforcementOutcome {
        result: match status.ruleset {
            landlock::RulesetStatus::FullyEnforced => EnforcementResult::FullyEnforced,
            landlock::RulesetStatus::PartiallyEnforced => EnforcementResult::PartiallyEnforced,
            landlock::RulesetStatus::NotEnforced => EnforcementResult::NotEnforced,
        },
        no_new_privs: status.no_new_privs,
    };
    Ok(Enforcement { outcome, scoped, read_only, read_write, tcp_ports })
}

/// The paths of the scopes that carry the given level, in declaration
/// order.
pub open spec fn spec_paths_with_level(scopes: Seq<AccessScope>, level: AccessLevel) -> Seq<
    Seq<char>,
>
    decreases scopes.len(),
{
    if scopes.len() == 0 {
        Seq::empty()
    } else {
        let rest = spec_paths_with_level(scopes.drop_last(), level);
        if scopes.last().level == level {
            rest.push(scopes.last().path@)
        } else {
            rest
        }
    }
}

/// Collects the paths of one capability level out of the policy.
pub fn paths_with_level(p: &PolicySpec, level: AccessLevel) -> (r: Vec<String>)
    ensures
        r@.map_values(|s: String| s@) == spec_paths_with_level(p.scopes@, level),
{
    let mut r: Vec<String> = Vec::new();
    let mut i: usize = 0;
    proof {
        assert(r@.map_values(|s: String| s@) =~= spec_paths_with_level(p.scopes@.take(0), level));
    }
    while i < p.scopes.len()
        invariant
            i <= p.scopes@.len(),
            r@.map_values(|s: String| s@) == spec_paths_with_level(p.scopes@.take(i as int), level),
        decreases p.scopes@.len() - i,
    {
        let ghost prev = p.scopes@.take(i as int);
        let scope = &p.scopes[i];
        if scope.level == level {
            r.push(scope.path.clone());
        }
        proof {
            let a = p.scopes@.take(i + 1);
            assert(a.drop_last() =~= prev);
            assert(a.last() == p.scopes@[i as int]);
            assert(r@.map_values(|s: String| s@) =~= spec_paths_with_level(a, level));
        }
        i = i + 1;
    }
    proof {
        assert(p.scopes@.take(p.scopes@.len() as int) =~= p.scopes@);
    }
    r
}

/// Submits the policy to the facility and restricts the current
/// process, consuming the single-use token.  On success, what was
/// submitted to the kernel is exactly the policy's own grants: the
/// read-only paths at the read level, the read-write paths at the full
/// level, the policy's ports for outbound TCP, and IPC scoping exactly
/// when the policy requests it.  A capability category the facility
/// rejects outright surfaces as `PolicyConstruction`; any later
/// failure to create, populate or apply the ruleset surfaces as
/// `EnforcementSetup`.  Whatever outcome the facility reports —
/// including partial or absent enforcement — is returned as success
/// for the caller to report; it never aborts the launch by itself.
pub fn enforce(policy: &PolicySpec, token: UnrestrictedProcess) -> (r: Result<
    Enforcement,
    EnforceError,
>)
    ensures
        r matches Ok(e) ==> e.read_only@ == spec_paths_with_level(
            policy.scopes@,
            AccessLevel::ReadOnly,
        ) && e.read_write@ == spec_paths_with_level(policy.scopes@, AccessLevel::ReadWrite)
            && e.tcp_ports@ == policy.net@.map_values(|n: NetworkRule| n.port) && e.scoped@ == (
        policy.ipc.abstract_unix_socket || policy.ipc.signal),
{
    let rs = match ruleset_handling_all_access() {
        Ok(rs) => rs,
        Err(e) => {
            return Err(EnforceError::PolicyConstruction(e));
        },
    };
    let rs = if policy.ipc.abstract_unix_socket || policy.ipc.signal {
        match ruleset_scoping_ipc(rs) {
            Ok(rs) => rs,
            Err(e) => {
                return Err(EnforceError::PolicyConstruction(e));
            },
        }
    } else {
        rs
    };
    let created = match create_ruleset(rs) {
        Ok(c) => c,
        Err(e) => {
            return Err(EnforceError::EnforcementSetup(e));
        },
    };
    let read_only = paths_with_level(policy, AccessLevel::ReadOnly);
    let read_write = paths_with_level(policy, AccessLevel::ReadWrite);
    let created = match grant_read_only(created, &read_only) {
        Ok(c) => c,
        Err(e) => {
            return Err(EnforceError::EnforcementSetup(e));
        },
    };
    let mut created = match grant_read_write(created, &read_write) {
        Ok(c) => c,
        Err(e) => {
            return Err(EnforceError::EnforcementSetup(e));
        },
    };
    proof {
        assert(Seq::<Seq<char>>::empty() + read_only@.map_values(|s: String| s@)
            =~= read_only@.map_values(|s: String| s@));
        assert(Seq::<Seq<char>>::empty() + read_write@.map_values(|s: String| s@)
            =~= read_write@.map_values(|s: String| s@));
        assert(policy.net@.take(0).map_values(|n: NetworkRule| n.port) =~= Seq::<u16>::empty());
    }
    let mut i: usize = 0;
    while i < policy.net.len()
        invariant
            i <= policy.net@.len(),
            created.read_only@ == spec_paths_with_level(policy.scopes@, AccessLevel::ReadOnly),
            created.read_write@ == spec_paths_with_level(policy.scopes@, AccessLevel::ReadWrite),
            created.scoped@ == (policy.ipc.abstract_unix_socket || policy.ipc.signal),
            created.tcp_ports@ == policy.net@.take(i as int).map_values(|n: NetworkRule| n.port),
        decreases policy.net@.len() - i,
    {
        let ghost prev_ports = created.tcp_ports@;
        created = match grant_tcp_connect(created, policy.net[i].port) {
            Ok(c) => c,
            Err(e) => {
                return Err(EnforceError::EnforcementSetup(e));
            },
        };
        proof {
            assert(policy.net@.take(i + 1).map_values(|n: NetworkRule| n.port) =~= prev_ports.push(
                policy.net@[i as int].port,
            ));
        }
        i = i + 1;
    }
    proof {
        assert(policy.net@.take(policy.net@.len() as int) =~= policy.net@);
    }
    match restrict_current_process(created) {
        Ok(enforcement) => Ok(enforcement),
        Err(e) => Err(EnforceError::EnforcementSetup(e)),
    }
}

/// How loudly an enforcement outcome is reported.
#[derive(Clone, Copy, Debug, PartialEq, Eq, Structural)]
pub enum LogSeverity {
    /// Routine detail.
    Debug,
    /// Something is degraded but the process goes on.
    Warning,
}

/// What to do about an enforcement outcome: say this, at this
/// severity, and — always — proceed.  Degrading gracefully on kernels
/// without full support is a deliberate availability-over-strictness
/// tradeoff, so `proceed` is true in every advisory.
#[derive(Clone, Copy, Debug)]
pub struct Advisory {
    pub severity: LogSeverity,
    pub message: &'static str,
    pub proceed: bool,
}

/// The advisory for the ruleset's enforcement status: full enforcement
/// is routine, anything less is a warning, and none of them stops the
/// launch.
pub fn status_advice(result: EnforcementResult) -> (r: Advisory)
    ensures
        r.proceed == true,
        result is FullyEnforced ==> r.severity is Debug && r.message@
            == "Landlock sandboxing fully enforced."@,
        result is PartiallyEnforced ==> r.severity is Warning && r.message@
            == "Landlock sandboxing only partially enforced."@,
        result is NotEnforced ==> r.severity is Warning && r.message@
            == "Landlock sandboxing not enforced."@,
{
    match result {
        EnforcementResult::FullyEnforced => Advisory {
            severity: LogSeverity::Debug,
            message: "Landlock sandboxing fully enforced.",
            proceed: true,
        },
        EnforcementResult::PartiallyEnforced => Advisory {
            severity: LogSeverity::Warning,
            message: "Landlock sandboxing only partially enforced.",
            proceed: true,
        },
        EnforcementResult::NotEnforced => Advisory {
            severity: LogSeverity::Warning,
            message: "Landlock sandboxing not enforced.",
            proceed: true,
        },
    }
}

/// The advisory for the "no new privileges" flag: silence when it was
/// set, a warning — and still no abort — when it was not.
pub fn privilege_advice(no_new_privs: bool) -> (r: Option<Advisory>)
    ensures
        no_new_privs ==> r is None,
        !no_new_privs ==> (r matches Some(a) && a.severity is Warning && a.proceed == true
            && a.message@ == "Failed to restrict privileges (PR_SET_NO_NEW_PRIVS not set)."@),
{
    if no_new_privs {
        None
    } else {
        Some(
            Advisory {
                severity: LogSeverity::Warning,
                message: "Failed to restrict privileges (PR_SET_NO_NEW_PRIVS not set).",
                proceed: true,
            },
        )
    }
}

} // verus!
