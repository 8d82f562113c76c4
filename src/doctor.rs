//! Diagnosing a setup: showing the secret key masked, deriving its public
//! key, and finding that key among the creation rules.

use vstd::prelude::*;

use crate::config::{CreationRule, KeyGroup, SopsConfig};
use crate::text::opt_view;

verus! {

/// The secret key as it may be shown: its first 15 and last 7 characters
/// kept and every other one replaced by `*`; a key of 22 characters or
/// fewer, which that window would show in full, is masked whole.
pub open spec fn masked(s: Seq<char>) -> Seq<char> {
    if s.len() > 22 {
        s.subrange(0, 15) + Seq::new((s.len() - 22) as nat, |i: int| '*') + s.subrange(
            s.len() - 7,
            s.len() as int,
        )
    } else {
        Seq::new(s.len(), |i: int| '*')
    }
}

fn stars(n: usize) -> (r: String)
    ensures
        r@ == Seq::new(n as nat, |i: int| '*'),
{
    proof {
        reveal_strlit("*");
    }
    let mut r = String::new();
    let mut i: usize = 0;
    while i < n
        invariant
            i <= n,
            r@ == Seq::new(i as nat, |j: int| '*'),
        decreases n - i,
    {
        let ghost before = r@;
        r.append("*");
        proof {
            reveal_strlit("*");
            assert("*"@ =~= seq!['*']);
        }
        assert(r@ =~= Seq::new((i + 1) as nat, |j: int| '*'));
        i = i + 1;
    }
    r
}

pub fn mask_secret(key: &str) -> (r: String)
    ensures
        r@ == masked(key@),
{
    let n = key.unicode_len();
    if n > 22 {
        let mut r = key.substring_char(0, 15).to_owned();
        r.append(stars(n - 22).as_str());
        r.append(key.substring_char(n - 7, n));
        assert(r@ =~= masked(key@));
        r
    } else {
        stars(n)
    }
}

/// The public key of an age secret key, where the text parses as one.
pub uninterp spec fn age_public_key_of(secret: Seq<char>) -> Option<Seq<char>>;

/// Relies on age's `x25519::Identity::from_str`, `Identity::to_public` and the
/// `Display` of `x25519::Recipient`: the Bech32 public key of a secret key,
/// or the parser's reason where the text is no X25519 identity.
#[verifier::external_body]
fn derive_public_key(secret: &str) -> (r: Result<String, String>)
    ensures
        r is Ok <==> age_public_key_of(secret@) is Some,
        r matches Ok(p) ==> age_public_key_of(secret@) == Some(p@),
{
    match <age::x25519::Identity as std::str::FromStr>::from_str(secret) {
        Ok(identity) => Ok(identity.to_public().to_string()),
        Err(e) => Err(e.to_string()),
    }
}

pub open spec fn group_holds(g: KeyGroup, key: Seq<char>) -> bool {
    exists|k: int| 0 <= k < g.age@.len() && #[trigger] g.age@[k]@ == key
}

/// The rule names at least one age key, directly or in a group.
pub open spec fn rule_has_keys(r: CreationRule) -> bool {
    r.age is Some || exists|j: int| 0 <= j < r.key_groups@.len() && #[trigger] r.key_groups@[j].age@.len() > 0
}

pub open spec fn rule_holds(r: CreationRule, key: Seq<char>) -> bool {
    opt_view(r.age) == Some(key) || exists|j: int|
        0 <= j < r.key_groups@.len() && group_holds(#[trigger] r.key_groups@[j], key)
}

/// The indices, in order, of the rules before `n` that name no age key.
pub open spec fn keyless_before(rules: Seq<CreationRule>, n: int) -> Seq<usize>
    decreases n,
{
    if n <= 0 {
        Seq::empty()
    } else if rule_has_keys(rules[n - 1]) {
        keyless_before(rules, n - 1)
    } else {
        keyless_before(rules, n - 1).push((n - 1) as usize)
    }
}

/// Where the public key was found: directly on a rule, or in one of its groups.
#[derive(Clone, Copy, Debug, PartialEq, Eq, Structural)]
pub enum KeyMatch {
    Direct { rule: usize },
    InGroup { rule: usize, group: usize },
}

/// What the search of the rules found: the first place that names the public
/// key, if any, and the rules searched before it that name no key at all.
#[derive(Clone, Debug)]
pub struct KeyReport {
    pub matched: Option<KeyMatch>,
    pub keyless_rules: Vec<usize>,
}

/// The report that the search of `rules` for `key` must give: the first
/// rule that holds the key, directly before its groups and the first group
/// that holds it; and the keyless rules before that one, or all of them.
pub open spec fn is_report(rules: Seq<CreationRule>, key: Seq<char>, r: KeyReport) -> bool {
    match r.matched {
        None => (forall|i: int| 0 <= i < rules.len() ==> !rule_holds(#[trigger] rules[i], key))
            && r.keyless_rules@ == keyless_before(rules, rules.len() as int),
        Some(m) => {
            let i = match m {
                KeyMatch::Direct { rule } => rule as int,
                KeyMatch::InGroup { rule, .. } => rule as int,
            };
            &&& 0 <= i < rules.len()
            &&& forall|k: int| 0 <= k < i ==> !rule_holds(#[trigger] rules[k], key)
            &&& r.keyless_rules@ == keyless_before(rules, i)
            &&& match m {
                KeyMatch::Direct { .. } => opt_view(rules[i].age) == Some(key),
                KeyMatch::InGroup { group, .. } => {
                    &&& opt_view(rules[i].age) != Some(key)
                    &&& group < rules[i].key_groups@.len()
                    &&& group_holds(rules[i].key_groups@[group as int], key)
                    &&& forall|h: int|
                        0 <= h < group ==> !group_holds(#[trigger] rules[i].key_groups@[h], key)
                },
            }
        },
    }
}

fn group_has_key(g: &KeyGroup, key: &String) -> (r: bool)
    ensures
        r == group_holds(*g, key@),
{
    let mut k: usize = 0;
    while k < g.age.len()
        invariant
            k <= g.age@.len(),
            forall|j: int| 0 <= j < k ==> g.age@[j]@ != key@,
        decreases g.age@.len() - k,
    {
        if g.age[k] == *key {
            return true;
        }
        k = k + 1;
    }
    false
}

/// The first group of the rule that holds the key, and whether any group names a key.
fn search_groups(rule: &CreationRule, key: &String) -> (r: (Option<usize>, bool))
    ensures
        match r.0 {
            Some(g) => g < rule.key_groups@.len() && group_holds(rule.key_groups@[g as int], key@)
                && forall|h: int|
                0 <= h < g ==> !group_holds(#[trigger] rule.key_groups@[h], key@),
            None => forall|h: int|
                0 <= h < rule.key_groups@.len() ==> !group_holds(#[trigger] rule.key_groups@[h], key@),
        },
        r.0 is None ==> (r.1 == exists|j: int|
            0 <= j < rule.key_groups@.len() && #[trigger] rule.key_groups@[j].age@.len() > 0),
        r.0 is Some ==> r.1,
{
    let groups = &rule.key_groups;
    let mut any: bool = false;
    let mut g: usize = 0;
    while g < groups.len()
        invariant
            groups@ == rule.key_groups@,
            g <= groups@.len(),
            forall|h: int| 0 <= h < g ==> !group_holds(#[trigger] groups@[h], key@),
            any == exists|j: int| 0 <= j < g && #[trigger] groups@[j].age@.len() > 0,
        decreases groups@.len() - g,
    {
        if groups[g].age.len() > 0 {
            any = true;
        }
        if group_has_key(&groups[g], key) {
            assert(group_holds(rule.key_groups@[g as int], key@));
            return (Some(g), true);
        }
        g = g + 1;
    }
    (None, any)
}

/// Searches the rules, in order, for the public key.
pub fn find_public_key(config: &SopsConfig, public_key: &String) -> (r: KeyReport)
    ensures
        is_report(config.creation_rules@, public_key@, r),
{
    let rules = &config.creation_rules;
    let mut keyless: Vec<usize> = Vec::new();
    let mut i: usize = 0;
    while i < rules.len()
        invariant
            rules@ == config.creation_rules@,
            i <= rules@.len(),
            forall|k: int| 0 <= k < i ==> !rule_holds(#[trigger] rules@[k], public_key@),
            keyless@ == keyless_before(rules@, i as int),
        decreases rules@.len() - i,
    {
        let rule = &rules[i];
        let direct = match &rule.age {
            Some(k) => *k == *public_key,
            None => false,
        };
        if direct {
            assert(opt_view(rules@[i as int].age) == Some(public_key@));
            assert(is_report(rules@, public_key@, KeyReport { matched: Some(KeyMatch::Direct { rule: i }), keyless_rules: keyless }));
            return KeyReport { matched: Some(KeyMatch::Direct { rule: i }), keyless_rules: keyless };
        }
        let (found, any) = search_groups(rule, public_key);
        match found {
            Some(g) => {
                assert(opt_view(rules@[i as int].age) != Some(public_key@));
                return KeyReport {
                    matched: Some(KeyMatch::InGroup { rule: i, group: g }),
                    keyless_rules: keyless,
                };
            },
            None => {},
        }
        if !(rule.age.is_some() || any) {
            keyless.push(i);
        }
        i = i + 1;
    }
    KeyReport { matched: None, keyless_rules: keyless }
}

/// The result of checking a secret key against the configuration.
#[derive(Clone, Debug)]
pub enum KeyCheck {
    /// The key is no age identity; the parser's reason.
    InvalidKey(String),
    /// The key's public key and where the rules name it.
    Checked { public_key: String, report: KeyReport },
}

/// Derives the public key of the secret key and searches the rules for it.
pub fn check_secret_key(config: &SopsConfig, secret_key: &str) -> (r: KeyCheck)
    ensures
        match age_public_key_of(secret_key@) {
            None => r is InvalidKey,
            Some(p) => r matches KeyCheck::Checked { public_key, report } && public_key@ == p
                && is_report(config.creation_rules@, p, report),
        },
{
    match derive_public_key(secret_key) {
        Ok(p) => {
            let report = find_public_key(config, &p);
            KeyCheck::Checked { public_key: p, report }
        },
        Err(e) => KeyCheck::InvalidKey(e),
    }
}

} // verus!
