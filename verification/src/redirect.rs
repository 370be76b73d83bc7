//! The on-disk redirection from the launcher's public name to the real
//! executable.
//!
//! The launcher occupies the real tool's path, so a stable symbolic
//! link under the installation prefix points back at the real binary.
//! The link is created lazily and idempotently — a link that already
//! exists is success, never an error — so that many simultaneous
//! launches can share it.  The filesystem itself is driven from
//! outside this crate; here stand the paths, the decisions, and the
//! model of the link's lifecycle.

use vstd::prelude::*;

use crate::text::{last_char_spec, rfind_char};

verus! {

/// The public path the launcher redirects from: where the real
/// executable can still be reached once the launcher has taken its
/// name.
pub fn redirection_link_path() -> (p: &'static str)
    ensures
        p@ == "/home/linuxbrew/.linuxbrew/.sandbox/brew-unsandboxed"@,
{
    "/home/linuxbrew/.linuxbrew/.sandbox/brew-unsandboxed"
}

/// Where the link points: the real executable's location, relative to
/// the link's own directory, inside the same installation prefix.
pub fn redirection_target() -> (t: &'static str)
    ensures
        t@ == "../Homebrew/bin/brew"@,
{
    "../Homebrew/bin/brew"
}

/// A path split at its last slash: the directory part and the name
/// inside it.
pub struct SplitPath {
    pub dir: String,
    pub name: String,
}

/// Splits a path at its last `/`.  `None` exactly when the path holds
/// no slash at all.
pub fn split_at_last_slash(path: &str) -> (r: Option<SplitPath>)
    ensures
        r matches Some(s) ==> {
            let i = last_char_spec(path@, '/');
            &&& 0 <= i < path@.len()
            &&& s.dir@ == path@.subrange(0, i)
            &&& s.name@ == path@.subrange(i + 1, path@.len() as int)
            &&& path@ == s.dir@ + seq!['/'] + s.name@
            &&& forall|k: int| 0 <= k < s.name@.len() ==> s.name@[k] != '/'
        },
        r is None ==> forall|k: int| 0 <= k < path@.len() ==> path@[k] != '/',
{
    let n = path.unicode_len();
    match rfind_char(path, '/') {
        None => {
            proof {
                crate::text::lemma_last_char(path@, '/');
            }
            None
        },
        Some(i) => {
            let dir = path.substring_char(0, i).to_owned();
            let name = path.substring_char(i + 1, n).to_owned();
            proof {
                crate::text::lemma_last_char(path@, '/');
                assert(path@ =~= dir@ + seq!['/'] + name@);
            }
            Some(SplitPath { dir, name })
        },
    }
}

/// The directory that must exist before the redirection link can be
/// created: the link path's parent.
pub fn redirection_link_dir() -> (d: String)
    ensures
        d@ == "/home/linuxbrew/.linuxbrew/.sandbox"@,
{
    let link = redirection_link_path();
    match split_at_last_slash(link) {
        Some(s) => {
            proof {
                reveal_strlit("/home/linuxbrew/.linuxbrew/.sandbox/brew-unsandboxed");
                reveal_strlit("/home/linuxbrew/.linuxbrew/.sandbox");
                crate::text::lemma_last_char(link@, '/');
                assert(link@[35] == '/');
                assert(last_char_spec(link@, '/') == 35) by {
                    if last_char_spec(link@, '/') != 35 {
                        assert(link@[last_char_spec(link@, '/')] == '/');
                    }
                }
                assert(s.dir@ =~= "/home/linuxbrew/.linuxbrew/.sandbox"@);
            }
            s.dir
        },
        None => {
            proof {
                reveal_strlit("/home/linuxbrew/.linuxbrew/.sandbox/brew-unsandboxed");
                assert(link@[0] == '/');
                assert(false);
            }
            String::new()
        },
    }
}

/// Why the redirection could not be ensured.
#[derive(Clone, Copy, Debug, PartialEq, Eq, Structural)]
pub enum RedirectError {
    /// The real executable is absent under the installation prefix.
    TargetMissing,
    /// Some other filesystem failure while creating the link.
    Io,
}

/// A redirection that is known to exist: the link's path, what it
/// points to, and whether this invocation created it.
#[derive(Clone, Debug)]
pub struct Redirection {
    pub link_path: String,
    pub target: String,
    pub created: bool,
}

/// What one invocation sees of the filesystem around the link: whether
/// the real executable resolves to a file, and whether the link is
/// already in place.
#[derive(Clone, Copy, Debug, PartialEq, Eq, Structural)]
pub struct LinkState {
    pub target_is_file: bool,
    pub link_present: bool,
}

/// The link's lifecycle in one step: with the target missing nothing
/// changes and the call fails; otherwise the link exists afterwards
/// and the call succeeds, whether or not it existed before.
pub open spec fn ensure_spec(s: LinkState) -> (LinkState, bool) {
    if !s.target_is_file {
        (s, false)
    } else {
        (LinkState { target_is_file: true, link_present: true }, true)
    }
}

/// Ensures the redirection in the model: what the filesystem must look
/// like afterwards, and what the caller is told.  A missing target is
/// `TargetMissing` and leaves the state untouched — in particular, no
/// link is created.
pub fn ensure_redirection(s: LinkState) -> (r: (LinkState, Result<Redirection, RedirectError>))
    ensures
        r.0 == ensure_spec(s).0,
        (r.1 is Ok) == ensure_spec(s).1,
        !s.target_is_file ==> r.1 == Result::<Redirection, RedirectError>::Err(
            RedirectError::TargetMissing,
        ) && r.0 == s,
        s.target_is_file ==> (r.1 matches Ok(red) && red.link_path@
            == "/home/linuxbrew/.linuxbrew/.sandbox/brew-unsandboxed"@ && red.target@
            == "../Homebrew/bin/brew"@ && red.created == !s.link_present),
{
    if !s.target_is_file {
        (s, Err(RedirectError::TargetMissing))
    } else {
        let red = Redirection {
            link_path: redirection_link_path().to_owned(),
            target: redirection_target().to_owned(),
            created: !s.link_present,
        };
        (LinkState { target_is_file: true, link_present: true }, Ok(red))
    }
}

/// Ensuring the redirection is idempotent: once a call has succeeded,
/// a second call (from this or any other invocation seeing the same
/// state) succeeds as well and changes nothing, so exactly one link
/// with the original target remains.
pub proof fn lemma_ensure_redirection_idempotent(s: LinkState)
    ensures
        ensure_spec(s).1 ==> ensure_spec(ensure_spec(s).0) == (ensure_spec(s).0, true),
{
}

/// How one attempt to create the link ended, as the filesystem
/// reported it.
#[derive(Clone, Copy, Debug, PartialEq, Eq, Structural)]
pub enum LinkAttempt {
    /// The link was created by this attempt.
    Created,
    /// A link was already in place: another invocation, now or
    /// earlier, created it.
    AlreadyExists,
    /// Any other filesystem failure.
    Failed,
}

/// Reads an attempt's outcome: an existing link is success — that is
/// what makes concurrent and repeated invocations safe — and only a
/// genuine filesystem failure is an error.  `Ok(true)` means this
/// attempt created the link.
pub fn interpret_link_attempt(a: LinkAttempt) -> (r: Result<bool, RedirectError>)
    ensures
        a is Created ==> r == Result::<bool, RedirectError>::Ok(true),
        a is AlreadyExists ==> r == Result::<bool, RedirectError>::Ok(false),
        a is Failed ==> r == Result::<bool, RedirectError>::Err(RedirectError::Io),
{
    match a {
        LinkAttempt::Created => Ok(true),
        LinkAttempt::AlreadyExists => Ok(false),
        LinkAttempt::Failed => Err(RedirectError::Io),
    }
}

/// Whether the launch may proceed to look for the real executable:
/// only when it resolves to a file under the prefix.
pub fn check_target(target_is_file: bool) -> (r: Result<(), RedirectError>)
    ensures
        target_is_file ==> r == Result::<(), RedirectError>::Ok(()),
        !target_is_file ==> r == Result::<(), RedirectError>::Err(RedirectError::TargetMissing),
{
    if target_is_file {
        Ok(())
    } else {
        Err(RedirectError::TargetMissing)
    }
}

} // verus!
