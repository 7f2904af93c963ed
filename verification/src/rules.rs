//! Window-rule matching: the first rule of the configuration that matches
//! a window's title or class wins. `Equals` and `Contains` compare the
//! case-folded texts; `Regex` matching runs through the `regex` crate
//! behind trusted wrappers. A rule whose pattern does not compile as a
//! regular expression matches nothing (the service keeps running on a bad
//! configuration instead of failing).

use vstd::prelude::*;

use crate::config::{same_rule, Config, MatchKind, MatchStrategy, WindowRule};
use crate::text::{bytes_contains, bytes_eq, contains_sub};

verus! {

/// What `str::to_lowercase` returns for a string, as UTF-8 bytes.
pub uninterp spec fn lower_bytes_of(s: Seq<char>) -> Seq<u8>;

/// Relies on str::to_lowercase: the case-folded text depends on the
/// characters alone.
#[verifier::external_body]
fn lowercase_bytes(s: &str) -> (r: Vec<u8>)
    ensures
        r@ == lower_bytes_of(s@),
{
    s.to_lowercase().into_bytes()
}

/// Whether a pattern compiles as a regular expression (within the regex
/// crate's default size limit).
pub uninterp spec fn regex_compiles(p: Seq<char>) -> bool;

/// Whether a compiled pattern matches anywhere in a text.
pub uninterp spec fn regex_matches(p: Seq<char>, t: Seq<char>) -> bool;

/// Relies on regex::Regex::new and regex::Regex::captures: whether the
/// pattern compiles, and whether it then matches anywhere in the text,
/// depend on the two strings alone. `None` reports a pattern that does not
/// compile.
#[verifier::external_body]
fn regex_captures_some(pattern: &str, text: &str) -> (r: Option<bool>)
    ensures
        r == (if !regex_compiles(pattern@) {
            Option::<bool>::None
        } else if regex_matches(pattern@, text@) {
            Some(true)
        } else {
            Some(false)
        }),
{
    match regex::Regex::new(pattern) {
        Ok(re) => Some(re.captures(text).is_some()),
        Err(_) => None,
    }
}

/// True when a rule matches a window with this title and class. A rule
/// without a kind or without a pattern matches nothing; a missing strategy
/// compares for equality.
pub open spec fn spec_rule_matches(rule: WindowRule, title: Seq<char>, class: Seq<char>) -> bool {
    match (rule.kind, rule.pattern) {
        (Some(kind), Some(pattern)) => {
            let name = if kind == MatchKind::Title {
                title
            } else {
                class
            };
            match rule.strategy {
                Some(MatchStrategy::Contains) => contains_sub(
                    lower_bytes_of(name),
                    lower_bytes_of(pattern@),
                ),
                Some(MatchStrategy::Regex) => regex_compiles(pattern@) && regex_matches(
                    pattern@,
                    name,
                ),
                _ => lower_bytes_of(name) == lower_bytes_of(pattern@),
            }
        },
        _ => false,
    }
}

/// Decides whether one rule matches the window.
fn rule_matches(rule: &WindowRule, title: &str, class: &str) -> (r: bool)
    ensures
        r == spec_rule_matches(*rule, title@, class@),
{
    let kind = match rule.kind {
        Some(k) => k,
        None => {
            return false;
        },
    };
    let pattern = match &rule.pattern {
        Some(p) => p,
        None => {
            return false;
        },
    };
    let name: &str = match kind {
        MatchKind::Title => title,
        MatchKind::Class => class,
    };
    match rule.strategy {
        Some(MatchStrategy::Contains) => {
            let hay = lowercase_bytes(name);
            let pat = lowercase_bytes(pattern.as_str());
            bytes_contains(hay.as_slice(), pat.as_slice())
        },
        Some(MatchStrategy::Regex) => {
            match regex_captures_some(pattern.as_str(), name) {
                Some(hit) => hit,
                None => false,
            }
        },
        _ => {
            let a = lowercase_bytes(name);
            let b = lowercase_bytes(pattern.as_str());
            bytes_eq(a.as_slice(), b.as_slice())
        },
    }
}

/// Picks the rule that governs a window: the first rule of the
/// configuration that matches its title or class, or the empty rule when
/// none matches.
pub fn get_window_rule(title: &str, class: &str, config: &Config) -> (r: WindowRule)
    ensures
        (forall|j: int|
            0 <= j < config.window_rules@.len() ==> !spec_rule_matches(
                #[trigger] config.window_rules@[j],
                title@,
                class@,
            )) ==> {
            &&& r.kind is None
            &&& r.pattern is None
            &&& r.strategy is None
            &&& r.enabled is None
            &&& r.border_width is None
            &&& r.border_offset is None
            &&& r.border_radius is None
            &&& r.active_color is None
            &&& r.inactive_color is None
            &&& r.animations is None
            &&& r.initialize_delay is None
            &&& r.unminimize_delay is None
        },
        (exists|j: int|
            0 <= j < config.window_rules@.len() && spec_rule_matches(
                #[trigger] config.window_rules@[j],
                title@,
                class@,
            )) ==> (exists|i: int|
            {
                &&& 0 <= i < config.window_rules@.len()
                &&& spec_rule_matches(#[trigger] config.window_rules@[i], title@, class@)
                &&& same_rule(r, config.window_rules@[i])
                &&& forall|j: int|
                    0 <= j < i ==> !spec_rule_matches(
                        #[trigger] config.window_rules@[j],
                        title@,
                        class@,
                    )
            }),
{
    let n = config.window_rules.len();
    let mut i: usize = 0;
    while i < n
        invariant
            i <= n,
            n == config.window_rules@.len(),
            forall|j: int|
                0 <= j < i ==> !spec_rule_matches(
                    #[trigger] config.window_rules@[j],
                    title@,
                    class@,
                ),
        decreases n - i,
    {
        let rule = &config.window_rules[i];
        if rule_matches(rule, title, class) {
            return rule.clone();
        }
        i = i + 1;
    }
    WindowRule::default()
}

} // verus!
