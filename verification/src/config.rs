//! Deciding, once per invocation, whether sandboxing is applied.
//!
//! An environment override is consulted first; a line-oriented
//! configuration file second; with neither, sandboxing defaults to on.

use vstd::prelude::*;

use crate::text::{
    find_char, find_char_spec, lemma_find_char, str_eq_chars, trim_chars, trim_spec,
};

verus! {

/// The characters of the override variable's name.  A configuration-file
/// line whose key equals this name also carries the decision.
pub open spec fn sandbox_key() -> Seq<char> {
    "_HOMEBREW_SANDBOX"@
}

/// A five-letter `false`, in any mix of upper and lower case.
pub open spec fn spec_is_false_word(s: Seq<char>) -> bool {
    &&& s.len() == 5
    &&& (s[0] == 'f' || s[0] == 'F')
    &&& (s[1] == 'a' || s[1] == 'A')
    &&& (s[2] == 'l' || s[2] == 'L')
    &&& (s[3] == 's' || s[3] == 'S')
    &&& (s[4] == 'e' || s[4] == 'E')
}

/// The truthiness rule's negative side: a value switches sandboxing off
/// exactly when it is empty, `0`, or `false` in any case.
pub open spec fn spec_disabled_value(s: Seq<char>) -> bool {
    ||| s.len() == 0
    ||| (s.len() == 1 && s[0] == '0')
    ||| spec_is_false_word(s)
}

/// The truthiness rule: every value other than the disabling forms
/// (unrecognised non-empty strings included) switches sandboxing on.
pub open spec fn spec_enabled_value(s: Seq<char>) -> bool {
    !spec_disabled_value(s)
}

/// Classifies one override or configuration value by the truthiness rule.
pub fn value_enables_sandbox(v: &str) -> (enabled: bool)
    ensures
        enabled == spec_enabled_value(v@),
{
    let n = v.unicode_len();
    if n == 0 {
        return false;
    }
    if n == 1 && v.get_char(0) == '0' {
        return false;
    }
    if n == 5 {
        let f = v.get_char(0);
        let a = v.get_char(1);
        let l = v.get_char(2);
        let s = v.get_char(3);
        let e = v.get_char(4);
        if (f == 'f' || f == 'F') && (a == 'a' || a == 'A') && (l == 'l' || l == 'L')
            && (s == 's' || s == 'S') && (e == 'e' || e == 'E') {
            return false;
        }
    }
    true
}

/// The override variable's name, for looking it up in the environment.
pub fn sandbox_variable() -> (name: &'static str)
    ensures
        name@ == sandbox_key(),
{
    "_HOMEBREW_SANDBOX"
}

/// Where the fallback configuration file lives.
pub fn config_file_path() -> (path: &'static str)
    ensures
        path@ == "/etc/homebrew/brew-sandbox.env"@,
{
    "/etc/homebrew/brew-sandbox.env"
}

/// Whether a configuration line is of the form `key=value` with a key
/// that, once trimmed, is the override variable's name.
pub open spec fn line_sets_decision(line: Seq<char>) -> bool {
    &&& find_char_spec(line, '=') != -1
    &&& trim_spec(line.take(find_char_spec(line, '='))) == sandbox_key()
}

/// The trimmed text after the first `=` of a configuration line.
pub open spec fn line_value(line: Seq<char>) -> Seq<char> {
    trim_spec(line.skip(find_char_spec(line, '=') + 1))
}

/// The decision carried by a sequence of configuration lines: the first
/// line whose key matches decides by the truthiness rule; malformed
/// lines and other keys are skipped; with no match, sandboxing is on.
pub open spec fn decision_from_lines(lines: Seq<Seq<char>>) -> bool
    decreases lines.len(),
{
    if lines.len() == 0 {
        true
    } else if line_sets_decision(lines[0]) {
        spec_enabled_value(line_value(lines[0]))
    } else {
        decision_from_lines(lines.drop_first())
    }
}

/// The whole resolution: an override value present in the environment
/// decides alone; otherwise the configuration lines decide; with
/// neither, sandboxing is on.
pub open spec fn spec_decision(override_value: Option<Seq<char>>, lines: Seq<Seq<char>>) -> bool {
    match override_value {
        Some(v) => spec_enabled_value(v),
        None => decision_from_lines(lines),
    }
}

/// Reads the decision out of one configuration line, if it carries one.
pub fn line_decides(line: &str) -> (r: Option<bool>)
    ensures
        r matches Some(enabled) ==> line_sets_decision(line@) && enabled == spec_enabled_value(
            line_value(line@),
        ),
        r is None ==> !line_sets_decision(line@),
{
    match find_char(line, '=') {
        None => None,
        Some(i) => {
            let n = line.unicode_len();
            let key = trim_chars(line.substring_char(0, i));
            proof {
                assert(line@.subrange(0, i as int) =~= line@.take(i as int));
            }
            if str_eq_chars(key, sandbox_variable()) {
                let value = trim_chars(line.substring_char(i + 1, n));
                proof {
                    assert(line@.subrange(i + 1, n as int) =~= line@.skip(i + 1));
                }
                Some(value_enables_sandbox(value))
            } else {
                None
            }
        },
    }
}

/// Resolves the decision from the configuration lines alone.
pub fn decide_from_lines(lines: &Vec<String>) -> (enabled: bool)
    ensures
        enabled == decision_from_lines(lines@.map_values(|l: String| l@)),
{
    let ghost ls = lines@.map_values(|l: String| l@);
    proof {
        assert(ls.skip(0) =~= ls);
    }
    let mut i: usize = 0;
    while i < lines.len()
        invariant
            i <= lines.len(),
            ls == lines@.map_values(|l: String| l@),
            decision_from_lines(ls) == decision_from_lines(ls.skip(i as int)),
            forall|k: int| 0 <= k < i ==> !line_sets_decision(ls[k]),
        decreases lines.len() - i,
    {
        match line_decides(&lines[i]) {
            Some(enabled) => {
                proof {
                    assert(ls.skip(i as int)[0] == ls[i as int]);
                }
                return enabled;
            },
            None => {
                proof {
                    assert(ls.skip(i as int)[0] == ls[i as int]);
                    assert(ls.skip(i as int).drop_first() =~= ls.skip(i + 1));
                }
                i = i + 1;
            },
        }
    }
    proof {
        assert(ls.skip(i as int).len() == 0);
    }
    true
}

/// Resolves the sandbox decision, override first, configuration lines
/// second, enabled by default.  When the file is absent its lines are
/// the empty vector.
pub fn resolve(override_value: Option<&String>, lines: &Vec<String>) -> (enabled: bool)
    ensures
        override_value matches Some(v) ==> enabled == spec_enabled_value(v@),
        override_value is None ==> enabled == decision_from_lines(
            lines@.map_values(|l: String| l@),
        ),
        enabled == spec_decision(
            match override_value {
                Some(v) => Some(v@),
                None => None,
            },
            lines@.map_values(|l: String| l@),
        ),
{
    match override_value {
        Some(v) => value_enables_sandbox(v.as_str()),
        None => decide_from_lines(lines),
    }
}

/// With the override variable set, the configuration file is never
/// consulted: the decision is the same whatever the file holds.
pub proof fn lemma_override_shadows_file(
    v: Seq<char>,
    lines1: Seq<Seq<char>>,
    lines2: Seq<Seq<char>>,
)
    ensures
        spec_decision(Some(v), lines1) == spec_decision(Some(v), lines2),
{
}

/// With no override value and no configuration line carrying the key,
/// the decision falls back to enabled.
pub proof fn lemma_default_is_enabled(lines: Seq<Seq<char>>)
    requires
        forall|i: int| 0 <= i < lines.len() ==> !line_sets_decision(lines[i]),
    ensures
        spec_decision(None, lines) == true,
    decreases lines.len(),
{
    if lines.len() > 0 {
        assert forall|i: int| 0 <= i < lines.drop_first().len() implies !line_sets_decision(
            lines.drop_first()[i],
        ) by {
            assert(lines.drop_first()[i] == lines[i + 1]);
        }
        lemma_default_is_enabled(lines.drop_first());
    }
}

} // verus!
