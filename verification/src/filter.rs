//! The entity filter: a set of rules that an event's identifier is held
//! against, and the default policy that turns a match into admit or drop.

use vstd::prelude::*;
use vstd::string::*;
use compact_str::CompactString;
use regex::Regex;
use crate::event::Event;
use crate::text::{same_text, split_entity_id, split_id};

verus! {

/// Trusted: the type `regex::Regex`, a compiled pattern. Nothing of its
/// inside is visible here.
#[verifier::external_type_specification]
#[verifier::external_body]
pub struct ExRegex(Regex);

/// Trusted: the type `regex::Error`, the reason why a pattern did not compile.
#[verifier::external_type_specification]
#[verifier::external_body]
pub struct ExRegexError(regex::Error);

/// Trusted: the type `compact_str::CompactString`, a string that keeps short
/// texts inline.
#[verifier::external_type_specification]
#[verifier::external_body]
pub struct ExCompactString(CompactString);

/// The characters that a `CompactString` holds.
pub uninterp spec fn compact_text(stored: CompactString) -> Seq<char>;

/// Trusted: `CompactString::new`. The new string holds the characters of the
/// text given.
#[verifier::external_body]
fn compact_from(text: &str) -> (r: CompactString)
    ensures
        compact_text(r) == text@,
{
    CompactString::new(text)
}

/// Trusted: `CompactString::as_str`. The slice holds all the characters of
/// the string.
#[verifier::external_body]
fn compact_as_str(stored: &CompactString) -> (r: &str)
    ensures
        r@ == compact_text(*stored),
{
    stored.as_str()
}

/// Trusted: `CompactString::clone`. The copy holds the same characters.
pub assume_specification[ <CompactString as Clone>::clone ](stored: &CompactString) -> (r:
    CompactString)
    ensures
        compact_text(r) == compact_text(*stored),
;

/// The pattern text that a compiled `Regex` was made from (`Regex::as_str`).
pub uninterp spec fn regex_source(re: Regex) -> Seq<char>;

/// Whether a compiled `Regex` has the matching options of `Regex::new`, as
/// opposed to options set through a builder.
pub uninterp spec fn regex_is_default(re: Regex) -> bool;

/// Whether `Regex::new` accepts the pattern.
pub uninterp spec fn regex_compiles(pattern: Seq<char>) -> bool;

/// Whether the pattern, compiled by `Regex::new`, matches somewhere in the
/// haystack (`Regex::is_match`).
pub uninterp spec fn regex_is_match(pattern: Seq<char>, haystack: Seq<char>) -> bool;

/// Trusted: `Regex::new`. Whether it succeeds depends on the pattern alone;
/// the compiled pattern remembers the text it was made from and has the
/// default matching options.
#[verifier::external_body]
fn compile_pattern(pattern: &str) -> (r: Result<Regex, regex::Error>)
    ensures
        r is Ok == regex_compiles(pattern@),
        r matches Ok(re) ==> regex_source(re) == pattern@ && regex_is_default(re),
{
    Regex::new(pattern)
}

/// Trusted: `Regex::is_match`. For a pattern compiled with the default
/// options, the answer depends only on the pattern text and on the haystack.
#[verifier::external_body]
fn pattern_matches(re: &Regex, haystack: &str) -> (r: bool)
    requires
        regex_is_default(*re),
    ensures
        r == regex_is_match(regex_source(*re), haystack@),
{
    re.is_match(haystack)
}

/// Trusted: `Regex::as_str`, the pattern text that was compiled.
#[verifier::external_body]
fn pattern_text(re: &Regex) -> (r: &str)
    ensures
        r@ == regex_source(*re),
{
    re.as_str()
}

/// Trusted: `Regex::clone`. The copy is the same compiled pattern, with the
/// same options.
pub assume_specification[ <Regex as Clone>::clone ](re: &Regex) -> (r: Regex)
    ensures
        regex_source(r) == regex_source(*re),
        regex_is_default(r) == regex_is_default(*re),
;

/// What to do with events by default; the rule set names the exceptions.
#[derive(Debug, Clone, Copy, PartialEq, Eq)]
pub enum DefaultFilter {
    /// Drop by default: only events that match a rule are admitted.
    Deny,
    /// Admit by default: events that match a rule are dropped.
    Allow,
}

/// A default policy that is neither `deny` nor `allow`; it holds the text
/// that was given.
#[derive(Debug, Clone)]
pub struct InvalidDefaultFilter(pub String);

/// The two policy tokens are different texts.
pub proof fn lemma_tokens_differ()
    ensures
        "deny"@ != "allow"@,
{
    reveal_strlit("deny");
    reveal_strlit("allow");
    assert("deny"@.len() == 4);
    assert("allow"@.len() == 5);
}

/// The policy that a configuration token names.
pub open spec fn policy_of(token: Seq<char>) -> Option<DefaultFilter> {
    if token == "deny"@ {
        Some(DefaultFilter::Deny)
    } else if token == "allow"@ {
        Some(DefaultFilter::Allow)
    } else {
        None
    }
}

/// Whether an event is admitted under a policy, given whether it matched.
pub open spec fn admitted(policy: DefaultFilter, matched: bool) -> bool {
    match policy {
        DefaultFilter::Deny => matched,
        DefaultFilter::Allow => !matched,
    }
}

impl DefaultFilter {
    /// Reads a policy from its configuration token, `deny` or `allow`. Any
    /// other text is an error that holds the text.
    pub fn from_str(input: &str) -> (r: Result<DefaultFilter, InvalidDefaultFilter>)
        ensures
            match r {
                Ok(policy) => policy_of(input@) == Some(policy),
                Err(e) => policy_of(input@) is None && e.0@ == input@,
            },
    {
        if same_text(input, "deny") {
            Ok(DefaultFilter::Deny)
        } else if same_text(input, "allow") {
            Ok(DefaultFilter::Allow)
        } else {
            Err(InvalidDefaultFilter(input.to_owned()))
        }
    }

    /// The configuration token of the policy.
    pub fn as_str(&self) -> (r: &'static str)
        ensures
            policy_of(r@) == Some(*self),
            r@ == match *self {
                DefaultFilter::Deny => "deny"@,
                DefaultFilter::Allow => "allow"@,
            },
    {
        proof {
            lemma_tokens_differ();
        }
        match self {
            DefaultFilter::Deny => "deny",
            DefaultFilter::Allow => "allow",
        }
    }

    /// Decides whether an event is admitted, given whether the rule set
    /// matched it: under `Deny` only matches pass, under `Allow` only
    /// non-matches.
    pub fn admits(&self, matched: bool) -> (r: bool)
        ensures
            r == admitted(*self, matched),
    {
        match self {
            DefaultFilter::Deny => matched,
            DefaultFilter::Allow => !matched,
        }
    }
}

impl InvalidDefaultFilter {
    /// The text shown for this error.
    pub fn message(&self) -> (r: String)
        ensures
            r@ == "Invalid default filter '"@ + self.0@ + "'; must be 'deny' or 'allow'"@,
    {
        let mut text = String::from_str("Invalid default filter '");
        text.append(self.0.as_str());
        text.append("'; must be 'deny' or 'allow'");
        text
    }
}

/// A name pattern that does not compile; it holds the pattern text.
#[derive(Debug, Clone)]
pub struct InvalidPattern(pub String);

/// One rule: a kind, and optionally a pattern for the name.
#[derive(Debug)]
pub struct IndividualEntityFilter {
    kind: CompactString,
    name: Option<Regex>,
}

/// A rule as plain data: its kind and the text of its name pattern.
pub struct RuleView {
    pub kind: Seq<char>,
    pub name: Option<Seq<char>>,
}

/// Whether a rule matches an identifier: the identifier splits into kind and
/// name, the kind equals the rule's, and the rule's pattern, if it has one,
/// matches the name.
pub open spec fn rule_matches(rule: RuleView, id: Seq<char>) -> bool {
    match split_id(id) {
        None => false,
        Some((kind, name)) => kind == rule.kind && match rule.name {
            None => true,
            Some(pattern) => regex_is_match(pattern, name),
        },
    }
}

/// Whether some rule of the set matches the identifier.
pub open spec fn any_rule_matches(rules: Seq<RuleView>, id: Seq<char>) -> bool {
    exists|i: int| 0 <= i < rules.len() && rule_matches(#[trigger] rules[i], id)
}

impl View for IndividualEntityFilter {
    type V = RuleView;

    closed spec fn view(&self) -> RuleView {
        RuleView {
            kind: compact_text(self.kind),
            name: match self.name {
                Some(re) => Some(regex_source(re)),
                None => None,
            },
        }
    }
}

impl IndividualEntityFilter {
    /// A rule's pattern is always one that `new` compiled.
    #[verifier::type_invariant]
    closed spec fn well_formed(self) -> bool {
        self.name matches Some(re) ==> regex_is_default(re)
    }

    /// Makes a rule from a kind and an optional name pattern, which is
    /// compiled here, once. Fails exactly when the pattern does not compile.
    pub fn new(kind: &str, name: Option<&str>) -> (r: Result<IndividualEntityFilter, InvalidPattern>)
        ensures
            match r {
                Ok(rule) => {
                    &&& rule@.kind == kind@
                    &&& match name {
                        Some(pattern) => regex_compiles(pattern@) && rule@.name == Some(pattern@),
                        None => rule@.name is None,
                    }
                },
                Err(e) => name matches Some(pattern) && !regex_compiles(pattern@) && e.0@
                    == pattern@,
            },
    {
        match name {
            None => Ok(IndividualEntityFilter { kind: compact_from(kind), name: None }),
            Some(pattern) => match compile_pattern(pattern) {
                Ok(re) => Ok(IndividualEntityFilter { kind: compact_from(kind), name: Some(re) }),
                Err(_) => Err(InvalidPattern(pattern.to_owned())),
            },
        }
    }

    /// The kind that the rule asks for.
    pub fn kind(&self) -> (r: &str)
        ensures
            r@ == self@.kind,
    {
        compact_as_str(&self.kind)
    }

    /// The text of the rule's name pattern, if it has one.
    pub fn name_pattern(&self) -> (r: Option<&str>)
        ensures
            match r {
                Some(text) => self@.name == Some(text@),
                None => self@.name is None,
            },
    {
        match &self.name {
            Some(re) => Some(pattern_text(re)),
            None => None,
        }
    }

    /// Whether the rule matches an identifier.
    pub fn matches_id(&self, entity_id: &str) -> (r: bool)
        ensures
            r == rule_matches(self@, entity_id@),
    {
        proof {
            use_type_invariant(self);
        }
        match split_entity_id(entity_id) {
            None => false,
            Some((kind, name)) => {
                if !same_text(kind, compact_as_str(&self.kind)) {
                    false
                } else {
                    match &self.name {
                        Some(re) => pattern_matches(re, name),
                        None => true,
                    }
                }
            },
        }
    }

    /// Whether the rule matches the event's entity identifier.
    pub fn matches_event(&self, ev: &Event) -> (r: bool)
        ensures
            r == rule_matches(self@, ev.entity_id@),
    {
        self.matches_id(ev.entity_id.as_str())
    }
}

/// A rule as it is configured: a kind, and optionally the text of a pattern
/// for the name.
#[derive(Debug, Clone)]
pub struct RuleConfig {
    pub kind: String,
    pub name: Option<String>,
}

impl View for RuleConfig {
    type V = RuleView;

    open spec fn view(&self) -> RuleView {
        RuleView {
            kind: self.kind@,
            name: match self.name {
                Some(pattern) => Some(pattern@),
                None => None,
            },
        }
    }
}

/// Whether a configured rule can be compiled: it has no pattern, or its
/// pattern compiles.
pub open spec fn rule_compiles(rule: RuleView) -> bool {
    match rule.name {
        Some(pattern) => regex_compiles(pattern),
        None => true,
    }
}

/// `i` is the position of the first configured rule that does not compile.
pub open spec fn is_first_invalid(rules: Seq<RuleConfig>, i: int) -> bool {
    &&& 0 <= i < rules.len()
    &&& !rule_compiles(rules[i]@)
    &&& forall|j: int| 0 <= j < i ==> rule_compiles((#[trigger] rules[j])@)
}

/// An ordered set of rules; it matches where any of its rules does.
#[derive(Debug)]
pub struct EntityFilter(Vec<IndividualEntityFilter>);

impl Clone for IndividualEntityFilter {
    /// A copy of the rule: the same kind and the same pattern.
    fn clone(&self) -> (r: Self)
        ensures
            r@ == self@,
    {
        proof {
            use_type_invariant(self);
        }
        let name = match &self.name {
            Some(re) => Some(re.clone()),
            None => None,
        };
        IndividualEntityFilter { kind: self.kind.clone(), name }
    }
}

impl Clone for EntityFilter {
    /// A copy of the rule set: the same rules in the same order.
    fn clone(&self) -> (r: Self)
        ensures
            r@ == self@,
    {
        let mut rules: Vec<IndividualEntityFilter> = Vec::new();
        let mut i: usize = 0;
        while i < self.0.len()
            invariant
                i <= self.0.len(),
                rules@.len() == i,
                forall|j: int| 0 <= j < i ==> (#[trigger] rules@[j])@ == self.0@[j]@,
            decreases self.0.len() - i,
        {
            rules.push(self.0[i].clone());
            i += 1;
        }
        let copy = EntityFilter(rules);
        assert(copy@ =~= self@);
        copy
    }
}

impl View for EntityFilter {
    type V = Seq<RuleView>;

    closed spec fn view(&self) -> Seq<RuleView> {
        self.0@.map_values(|rule: IndividualEntityFilter| rule@)
    }
}

impl EntityFilter {
    /// Makes a rule set of the rules given, in their order.
    pub fn new(rules: Vec<IndividualEntityFilter>) -> (r: EntityFilter)
        ensures
            r@ == rules@.map_values(|rule: IndividualEntityFilter| rule@),
    {
        EntityFilter(rules)
    }

    /// Compiles a configured rule set, keeping the order. Fails on the first
    /// rule whose pattern does not compile, with that pattern.
    pub fn from_rules(rules: &Vec<RuleConfig>) -> (r: Result<EntityFilter, InvalidPattern>)
        ensures
            match r {
                Ok(filter) => {
                    &&& filter@ == rules@.map_values(|rule: RuleConfig| rule@)
                    &&& forall|i: int| 0 <= i < rules.len() ==> rule_compiles((#[trigger] rules[i])@)
                },
                Err(e) => exists|i: int|
                    is_first_invalid(rules@, i) && Some(e.0@) == (#[trigger] rules[i])@.name,
            },
    {
        let mut compiled: Vec<IndividualEntityFilter> = Vec::new();
        let mut i: usize = 0;
        while i < rules.len()
            invariant
                i <= rules.len(),
                compiled@.len() == i,
                forall|j: int| 0 <= j < i ==> (#[trigger] compiled@[j])@ == rules[j]@,
                forall|j: int| 0 <= j < i ==> rule_compiles((#[trigger] rules[j])@),
            decreases rules.len() - i,
        {
            let name = match &rules[i].name {
                Some(pattern) => Some(pattern.as_str()),
                None => None,
            };
            match IndividualEntityFilter::new(rules[i].kind.as_str(), name) {
                Ok(rule) => {
                    assert(rule@ == rules[i as int]@);
                    compiled.push(rule);
                },
                Err(e) => {
                    assert(is_first_invalid(rules@, i as int));
                    return Err(e);
                },
            }
            i += 1;
        }
        let filter = EntityFilter(compiled);
        assert(filter@ =~= rules@.map_values(|rule: RuleConfig| rule@));
        Ok(filter)
    }

    /// The number of rules.
    pub fn len(&self) -> (r: usize)
        ensures
            r == self@.len(),
    {
        self.0.len()
    }

    /// Whether some rule matches the event's entity identifier. An identifier
    /// without a `.` matches no rule.
    pub fn matches_event(&self, ev: &Event) -> (r: bool)
        ensures
            r == any_rule_matches(self@, ev.entity_id@),
            split_id(ev.entity_id@) is None ==> !r,
    {
        let mut i: usize = 0;
        while i < self.0.len()
            invariant
                i <= self.0.len(),
                forall|j: int| 0 <= j < i ==> !rule_matches(#[trigger] self@[j], ev.entity_id@),
            decreases self.0.len() - i,
        {
            if self.0[i].matches_event(ev) {
                assert(rule_matches(self@[i as int], ev.entity_id@));
                return true;
            }
            i += 1;
        }
        false
    }
}

/// An identifier without a `.` matches no rule set.
pub proof fn lemma_undotted_never_matches(rules: Seq<RuleView>, id: Seq<char>)
    requires
        !id.contains('.'),
    ensures
        !any_rule_matches(rules, id),
{
    assert forall|i: int| !crate::text::is_first_dot(id, i) by {
        if 0 <= i < id.len() {
            assert(id.contains(id[i]));
        }
    }
}

/// An empty rule set matches nothing.
pub proof fn lemma_empty_set_matches_nothing(id: Seq<char>)
    ensures
        !any_rule_matches(Seq::<RuleView>::empty(), id),
{
}

/// Rule sets join by disjunction: two sets put together match exactly what
/// one of them matches.
pub proof fn lemma_rule_sets_join(first: Seq<RuleView>, second: Seq<RuleView>, id: Seq<char>)
    ensures
        any_rule_matches(first + second, id) == (any_rule_matches(first, id) || any_rule_matches(
            second,
            id,
        )),
{
    let both = first + second;
    if any_rule_matches(first, id) {
        let i = choose|i: int| 0 <= i < first.len() && rule_matches(#[trigger] first[i], id);
        assert(both[i] == first[i]);
    }
    if any_rule_matches(second, id) {
        let i = choose|i: int| 0 <= i < second.len() && rule_matches(#[trigger] second[i], id);
        assert(both[first.len() + i] == second[i]);
    }
    if any_rule_matches(both, id) {
        let i = choose|i: int| 0 <= i < both.len() && rule_matches(#[trigger] both[i], id);
        if i < first.len() {
            assert(both[i] == first[i]);
        } else {
            assert(both[i] == second[i - first.len()]);
        }
    }
}

/// The policy decides against the match in exactly one way: `Deny` admits
/// matches only, `Allow` admits non-matches only.
pub proof fn lemma_policy_table(policy: DefaultFilter, matched: bool)
    ensures
        admitted(policy, matched) == ((policy == DefaultFilter::Deny) == matched),
        admitted(DefaultFilter::Deny, true),
        !admitted(DefaultFilter::Deny, false),
        !admitted(DefaultFilter::Allow, true),
        admitted(DefaultFilter::Allow, false),
{
}

/// A policy read back from its own token is the same policy.
pub proof fn lemma_token_round_trip(policy: DefaultFilter)
    ensures
        policy_of(
            match policy {
                DefaultFilter::Deny => "deny"@,
                DefaultFilter::Allow => "allow"@,
            },
        ) == Some(policy),
{
    lemma_tokens_differ();
}

} // verus!
