use brew_sandbox::config::{config_file_path, resolve, sandbox_variable, value_enables_sandbox};
use brew_sandbox::enforce::{
    paths_with_level, privilege_advice, status_advice, EnforcementResult, LogSeverity,
};
use brew_sandbox::handoff::{handoff_environment, handoff_plan};
use brew_sandbox::policy::{build_policy, AccessLevel, PORT_HTTPS};
use brew_sandbox::redirect::{
    check_target, ensure_redirection, interpret_link_attempt, redirection_link_dir,
    redirection_link_path, redirection_target, split_at_last_slash, LinkAttempt, LinkState,
    RedirectError,
};
use brew_sandbox::text::{find_char, rfind_char, str_eq_chars, trim_chars};

fn lines(raw: &[&str]) -> Vec<String> {
    raw.iter().map(|l| l.to_string()).collect()
}

#[test]
fn truthiness_disabling_forms() {
    assert!(!value_enables_sandbox(""));
    assert!(!value_enables_sandbox("0"));
    assert!(!value_enables_sandbox("false"));
    assert!(!value_enables_sandbox("FALSE"));
    assert!(!value_enables_sandbox("False"));
    assert!(!value_enables_sandbox("fAlSe"));
}

#[test]
fn truthiness_enabling_forms() {
    assert!(value_enables_sandbox("1"));
    assert!(value_enables_sandbox("true"));
    assert!(value_enables_sandbox("yes"));
    assert!(value_enables_sandbox(" "));
    assert!(value_enables_sandbox("00"));
    assert!(value_enables_sandbox("falsey"));
    assert!(value_enables_sandbox("no"));
}

#[test]
fn override_set_ignores_contradicting_file() {
    let contradicting = lines(&["_HOMEBREW_SANDBOX=1"]);
    let off = "0".to_string();
    assert!(!resolve(Some(&off), &contradicting));
    let contradicting = lines(&["_HOMEBREW_SANDBOX=0"]);
    let on = "1".to_string();
    assert!(resolve(Some(&on), &contradicting));
}

#[test]
fn override_empty_string_disables() {
    let empty = String::new();
    assert!(!resolve(Some(&empty), &lines(&["_HOMEBREW_SANDBOX=1"])));
}

#[test]
fn case_insensitive_false_disables() {
    let v = "False".to_string();
    assert!(!resolve(Some(&v), &Vec::new()));
}

#[test]
fn file_line_with_other_keys_before_match() {
    let file = lines(&["OTHER_KEY=1", "_HOMEBREW_SANDBOX=0"]);
    assert!(!resolve(None, &file));
}

#[test]
fn no_source_defaults_to_enabled() {
    assert!(resolve(None, &Vec::new()));
    assert!(resolve(None, &lines(&["OTHER_KEY=0", "no equals sign here"])));
}

#[test]
fn malformed_lines_are_skipped() {
    let file = lines(&["garbage", "_HOMEBREW_SANDBOXX=0", "_HOMEBREW_SANDBOX=0"]);
    assert!(!resolve(None, &file));
}

#[test]
fn file_keys_and_values_are_trimmed() {
    let file = lines(&["  _HOMEBREW_SANDBOX  =  0  "]);
    assert!(!resolve(None, &file));
    let file = lines(&["\t_HOMEBREW_SANDBOX = FALSE "]);
    assert!(!resolve(None, &file));
}

#[test]
fn first_matching_line_wins() {
    let file = lines(&["_HOMEBREW_SANDBOX=0", "_HOMEBREW_SANDBOX=1"]);
    assert!(!resolve(None, &file));
    let file = lines(&["_HOMEBREW_SANDBOX=1", "_HOMEBREW_SANDBOX=0"]);
    assert!(resolve(None, &file));
}

#[test]
fn well_known_names() {
    assert_eq!(sandbox_variable(), "_HOMEBREW_SANDBOX");
    assert_eq!(config_file_path(), "/etc/homebrew/brew-sandbox.env");
}

#[test]
fn policy_lists_expected_scopes() {
    let p = build_policy();
    assert_eq!(p.scopes.len(), 11);
    assert_eq!(p.scopes[0].path, "/etc");
    assert_eq!(p.scopes[0].level, AccessLevel::ReadOnly);
    assert_eq!(p.scopes[1].path, "/proc/cpuinfo");
    assert_eq!(p.scopes[2].path, "/usr");
    assert_eq!(p.scopes[2].level, AccessLevel::ReadOnly);
    assert_eq!(p.scopes[3].path, "/dev/null");
    assert_eq!(p.scopes[3].level, AccessLevel::ReadWrite);
    assert_eq!(p.scopes[9].path, "/home/linuxbrew");
    assert_eq!(p.scopes[10].path, "/var/tmp/homebrew");
    assert_eq!(p.scopes[10].level, AccessLevel::ReadWrite);
}

#[test]
fn policy_allows_only_https() {
    let p = build_policy();
    assert_eq!(p.net.len(), 1);
    assert_eq!(p.net[0].port, 443);
    assert_eq!(PORT_HTTPS, 443);
}

#[test]
fn policy_restricts_both_ipc_scopes() {
    let p = build_policy();
    assert!(p.ipc.abstract_unix_socket);
    assert!(p.ipc.signal);
}

#[test]
fn policy_has_no_conflicting_scopes() {
    let p = build_policy();
    for a in &p.scopes {
        for b in &p.scopes {
            if a.path == b.path {
                assert_eq!(a.level, b.level);
            }
        }
    }
}

#[test]
fn paths_split_by_level() {
    let p = build_policy();
    let ro = paths_with_level(&p, AccessLevel::ReadOnly);
    let rw = paths_with_level(&p, AccessLevel::ReadWrite);
    assert_eq!(ro, vec!["/etc", "/proc/cpuinfo", "/usr"]);
    assert_eq!(rw.len(), 8);
    assert_eq!(rw[0], "/dev/null");
    assert_eq!(rw[7], "/var/tmp/homebrew");
}

#[test]
fn full_enforcement_is_routine() {
    let a = status_advice(EnforcementResult::FullyEnforced);
    assert_eq!(a.severity, LogSeverity::Debug);
    assert!(a.proceed);
    assert_eq!(a.message, "Landlock sandboxing fully enforced.");
}

#[test]
fn partial_enforcement_warns_but_proceeds() {
    let a = status_advice(EnforcementResult::PartiallyEnforced);
    assert_eq!(a.severity, LogSeverity::Warning);
    assert!(a.proceed);
    assert_eq!(a.message, "Landlock sandboxing only partially enforced.");
}

#[test]
fn no_enforcement_warns_but_proceeds() {
    let a = status_advice(EnforcementResult::NotEnforced);
    assert_eq!(a.severity, LogSeverity::Warning);
    assert!(a.proceed);
}

#[test]
fn missing_no_new_privs_warns_but_proceeds() {
    assert!(privilege_advice(true).is_none());
    let a = privilege_advice(false).unwrap();
    assert_eq!(a.severity, LogSeverity::Warning);
    assert!(a.proceed);
}

#[test]
fn missing_target_fails_without_creating_link() {
    let before = LinkState { target_is_file: false, link_present: false };
    let (after, result) = ensure_redirection(before);
    assert_eq!(result.unwrap_err(), RedirectError::TargetMissing);
    assert_eq!(after, before);
    assert!(!after.link_present);
}

#[test]
fn redirection_is_created_once_then_reused() {
    let start = LinkState { target_is_file: true, link_present: false };
    let (mid, first) = ensure_redirection(start);
    let first = first.unwrap();
    assert!(first.created);
    assert!(mid.link_present);
    let (end, second) = ensure_redirection(mid);
    let second = second.unwrap();
    assert!(!second.created);
    assert_eq!(end, mid);
    assert_eq!(second.link_path, first.link_path);
    assert_eq!(second.target, first.target);
}

#[test]
fn existing_link_counts_as_success() {
    assert_eq!(interpret_link_attempt(LinkAttempt::Created), Ok(true));
    assert_eq!(interpret_link_attempt(LinkAttempt::AlreadyExists), Ok(false));
    assert_eq!(
        interpret_link_attempt(LinkAttempt::Failed),
        Err(RedirectError::Io)
    );
}

#[test]
fn target_check_matches_presence() {
    assert_eq!(check_target(true), Ok(()));
    assert_eq!(check_target(false), Err(RedirectError::TargetMissing));
}

#[test]
fn redirection_paths_fit_together() {
    assert_eq!(
        redirection_link_path(),
        "/home/linuxbrew/.linuxbrew/.sandbox/brew-unsandboxed"
    );
    assert_eq!(redirection_target(), "../Homebrew/bin/brew");
    assert_eq!(redirection_link_dir(), "/home/linuxbrew/.linuxbrew/.sandbox");
}

#[test]
fn split_at_last_slash_splits_paths() {
    let s = split_at_last_slash("/a/b/c").unwrap();
    assert_eq!(s.dir, "/a/b");
    assert_eq!(s.name, "c");
    let s = split_at_last_slash("/top").unwrap();
    assert_eq!(s.dir, "");
    assert_eq!(s.name, "top");
    assert!(split_at_last_slash("noslash").is_none());
}

#[test]
fn handoff_environment_normalizes_home_and_cache() {
    let env = handoff_environment();
    assert_eq!(env.len(), 2);
    assert_eq!(env[0], ("HOME".to_string(), "/home/linuxbrew".to_string()));
    assert_eq!(
        env[1],
        ("XDG_CACHE_HOME".to_string(), "/home/linuxbrew/.cache".to_string())
    );
}

#[test]
fn handoff_plan_preserves_name_and_arguments() {
    let plan = handoff_plan(
        "brew".to_string(),
        vec!["install".to_string(), "jq".to_string()],
    );
    assert_eq!(plan.executable, "/home/linuxbrew/.linuxbrew/.sandbox/brew-unsandboxed");
    assert_eq!(plan.argv0, "brew");
    assert_eq!(plan.args, vec!["install", "jq"]);
}

#[test]
fn trim_removes_surrounding_whitespace() {
    assert_eq!(trim_chars("  a b \t"), "a b");
    assert_eq!(trim_chars(""), "");
    assert_eq!(trim_chars(" \t\r\n"), "");
    assert_eq!(trim_chars("x"), "x");
}

#[test]
fn char_search_finds_first_and_last() {
    assert_eq!(find_char("a=b=c", '='), Some(1));
    assert_eq!(find_char("abc", '='), None);
    assert_eq!(rfind_char("a=b=c", '='), Some(3));
    assert_eq!(rfind_char("abc", '='), None);
}

#[test]
fn string_equality_by_characters() {
    assert!(str_eq_chars("same", "same"));
    assert!(!str_eq_chars("same", "same "));
    assert!(!str_eq_chars("a", "b"));
}
