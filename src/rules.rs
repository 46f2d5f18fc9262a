//! Rule-based assignment of identities to file paths.
//!
//! Each rule holds a pattern that must match a whole path and templates for
//! the corpus, root and path of the identity it produces. Templates refer to
//! capture groups as `@N@`.

use vstd::prelude::*;
use crate::vname::{VName, VNameModel};

verus! {

#[verifier::external_type_specification]
#[verifier::external_body]
pub struct ExRegex(regex::Regex);

#[verifier::external_type_specification]
#[verifier::external_body]
pub struct ExRegexError(regex::Error);

/// Whether `pattern` compiles as a regular expression.
pub uninterp spec fn regex_valid(pattern: Seq<char>) -> bool;

/// Whether the expression compiled from `pattern` matches somewhere in `text`.
pub uninterp spec fn regex_is_match(pattern: Seq<char>, text: Seq<char>) -> bool;

/// `text` with the first match of `pattern` replaced by the expansion of
/// `template`.
pub uninterp spec fn regex_replace(pattern: Seq<char>, text: Seq<char>, template: Seq<char>) -> Seq<char>;

/// `text` with every non-overlapping match of `pattern` replaced by the
/// expansion of `template`.
pub uninterp spec fn regex_replace_all(pattern: Seq<char>, text: Seq<char>, template: Seq<char>) -> Seq<char>;

/// Relies on `regex::Regex::new`: it fails exactly on patterns that do not compile.
#[verifier::external_body]
fn compile_regex(pattern: &str) -> (r: Result<regex::Regex, regex::Error>)
    ensures
        r is Ok <==> regex_valid(pattern@),
{
    regex::Regex::new(pattern)
}

/// A compiled pattern together with the text it was compiled from.
pub struct RulePattern {
    re: regex::Regex,
    source: Ghost<Seq<char>>,
}

/// Why a rule could not be prepared.
#[derive(Debug, Clone, PartialEq, Eq)]
pub enum RuleError {
    /// The pattern (as compiled) is not a valid regular expression.
    InvalidPattern(String),
}

impl RulePattern {
    /// The text the expression was compiled from.
    pub closed spec fn source(&self) -> Seq<char> {
        self.source@
    }

    /// Compiles `pattern`.
    pub fn new(pattern: &str) -> (r: Result<RulePattern, RuleError>)
        ensures
            r is Ok <==> regex_valid(pattern@),
            r matches Ok(p) ==> p.source() == pattern@,
            r matches Err(RuleError::InvalidPattern(t)) ==> t@ == pattern@,
    {
        match compile_regex(pattern) {
            Ok(re) => Ok(RulePattern { re, source: Ghost(pattern@) }),
            Err(_) => Err(RuleError::InvalidPattern(String::from_str(pattern))),
        }
    }

    /// Relies on `regex::Regex::is_match` for the expression compiled from
    /// `self.source()`.
    #[verifier::external_body]
    pub(crate) fn is_match(&self, text: &str) -> (r: bool)
        ensures
            r == regex_is_match(self.source(), text@),
    {
        self.re.is_match(text)
    }

    /// Relies on `regex::Regex::replace` for the expression compiled from
    /// `self.source()`, which leaves a text without a match unchanged.
    #[verifier::external_body]
    pub(crate) fn replace(&self, text: &str, template: &str) -> (r: String)
        ensures
            r@ == regex_replace(self.source(), text@, template@),
            !regex_is_match(self.source(), text@) ==> r@ == text@,
    {
        self.re.replace(text, template).into_owned()
    }

    /// Relies on `regex::Regex::replace_all` for the expression compiled
    /// from `self.source()`, which leaves a text without a match unchanged.
    #[verifier::external_body]
    pub(crate) fn replace_all(&self, text: &str, template: &str) -> (r: String)
        ensures
            r@ == regex_replace_all(self.source(), text@, template@),
            !regex_is_match(self.source(), text@) ==> r@ == text@,
    {
        self.re.replace_all(text, template).into_owned()
    }
}

/// The text of an optional string.
pub open spec fn opt_view(o: Option<String>) -> Option<Seq<char>> {
    match o {
        Some(s) => Some(s@),
        None => None,
    }
}

/// The expression that finds a group reference `@N@` in a template.
pub open spec fn group_ref() -> Seq<char> {
    "@(?P<index>\\d+)@"@
}

/// How a group reference is rewritten: `${N}`.
pub open spec fn group_template() -> Seq<char> {
    "$${$index}"@
}

/// A template with each `@N@` rewritten as `${N}`.
pub open spec fn convert_template(s: Seq<char>) -> Seq<char> {
    regex_replace_all(group_ref(), s, group_template())
}

pub open spec fn convert_opt(o: Option<String>) -> Option<Seq<char>> {
    match o {
        Some(s) => Some(convert_template(s@)),
        None => None,
    }
}

/// A pattern enclosed so that it must match the whole text.
pub open spec fn anchored(pattern: Seq<char>) -> Seq<char> {
    "\\A(?:"@ + pattern + ")\\z"@
}

/// The templates of a rule as written in a configuration.
pub struct RawRulePatterns {
    pub corpus: Option<String>,
    pub root: Option<String>,
    pub path: Option<String>,
}

/// A rule as written in a configuration.
pub struct RawRule {
    pub pattern: String,
    pub vname: RawRulePatterns,
}

/// A rule ready to be matched against paths.
pub struct VNameRule {
    pub pattern: RulePattern,
    pub corpus_pattern: Option<String>,
    pub root_pattern: Option<String>,
    pub path_pattern: Option<String>,
}

/// What [`RawRule::process`] makes of a rule whose pattern compiles.
pub open spec fn processed(raw: &RawRule, rule: &VNameRule) -> bool {
    &&& rule.pattern.source() == anchored(raw.pattern@)
    &&& opt_view(rule.corpus_pattern) == convert_opt(raw.vname.corpus)
    &&& opt_view(rule.root_pattern) == convert_opt(raw.vname.root)
    &&& opt_view(rule.path_pattern) == convert_opt(raw.vname.path)
}

/// Whether a rule can be prepared: its anchored pattern and the
/// group-reference expression both compile.
pub open spec fn rule_ok(raw: &RawRule) -> bool {
    regex_valid(anchored(raw.pattern@)) && regex_valid(group_ref())
}

impl RawRule {
    /// Prepares the rule: its pattern is anchored at both ends and compiled,
    /// and `@N@` in its templates becomes `${N}`.
    pub fn process(&self) -> (r: Result<VNameRule, RuleError>)
        ensures
            r is Ok <==> rule_ok(self),
            r matches Ok(rule) ==> processed(self, &rule),
            !regex_valid(anchored(self.pattern@)) ==> (r matches Err(RuleError::InvalidPattern(t)) && t@
                == anchored(self.pattern@)),
            regex_valid(anchored(self.pattern@)) && !regex_valid(group_ref()) ==> (r matches Err(
                RuleError::InvalidPattern(t),
            ) && t@ == group_ref()),
    {
        let mut full = String::from_str("\\A(?:");
        full.append(self.pattern.as_str());
        full.append(")\\z");
        let pattern = RulePattern::new(full.as_str())?;
        let corpus_pattern = Self::convert_vname_pattern(&self.vname.corpus)?;
        let root_pattern = Self::convert_vname_pattern(&self.vname.root)?;
        let path_pattern = Self::convert_vname_pattern(&self.vname.path)?;
        Ok(VNameRule { pattern, corpus_pattern, root_pattern, path_pattern })
    }

    /// Rewrites each `@N@` of a template as `${N}`.
    pub fn convert_vname_pattern(pattern: &Option<String>) -> (r: Result<Option<String>, RuleError>)
        ensures
            r is Ok <==> regex_valid(group_ref()),
            r matches Ok(c) ==> opt_view(c) == convert_opt(*pattern),
            r matches Err(RuleError::InvalidPattern(t)) ==> t@ == group_ref(),
    {
        let index_regex = RulePattern::new("@(?P<index>\\d+)@")?;
        match pattern {
            Some(p) => Ok(Some(index_regex.replace_all(p.as_str(), "$${$index}"))),
            None => Ok(None),
        }
    }
}

/// The field a template produces for `path`, or `absent` without a template.
pub open spec fn field_spec(rule: &VNameRule, template: Option<String>, path: Seq<char>, absent: Seq<char>) -> Seq<char> {
    match template {
        Some(t) => regex_replace(rule.pattern.source(), path, t@),
        None => absent,
    }
}

/// The identity a rule produces for `path`.
pub open spec fn produce_spec(rule: &VNameRule, path: Seq<char>, default_corpus: Seq<char>) -> VNameModel {
    VNameModel {
        corpus: field_spec(rule, rule.corpus_pattern, path, default_corpus),
        root: field_spec(rule, rule.root_pattern, path, Seq::empty()),
        path: field_spec(rule, rule.path_pattern, path, Seq::empty()),
        language: Seq::empty(),
        signature: Seq::empty(),
    }
}

/// The identity given to a path that no rule matches.
pub open spec fn fallback_spec(default_corpus: Seq<char>) -> VNameModel {
    VNameModel {
        corpus: default_corpus,
        root: Seq::empty(),
        path: Seq::empty(),
        language: Seq::empty(),
        signature: Seq::empty(),
    }
}

pub open spec fn rule_matches(rule: &VNameRule, path: Seq<char>) -> bool {
    regex_is_match(rule.pattern.source(), path)
}

/// The identity for `path`: the first rule that matches decides.
pub open spec fn create_spec(rules: Seq<VNameRule>, path: Seq<char>, default_corpus: Seq<char>) -> VNameModel
    decreases rules.len(),
{
    if rules.len() == 0 {
        fallback_spec(default_corpus)
    } else if rule_matches(&rules[0], path) {
        produce_spec(&rules[0], path, default_corpus)
    } else {
        create_spec(rules.skip(1), path, default_corpus)
    }
}

fn produce_field(rule: &VNameRule, template: &Option<String>, path: &str, absent: &str) -> (r: String)
    ensures
        r@ == field_spec(rule, *template, path@, absent@),
{
    match template {
        Some(t) => rule.pattern.replace(path, t.as_str()),
        None => String::from_str(absent),
    }
}

impl VNameRule {
    /// Whether the rule's pattern matches `path`.
    pub fn matches(&self, path: &str) -> (r: bool)
        ensures
            r == rule_matches(self, path@),
    {
        self.pattern.is_match(path)
    }

    /// The identity this rule gives `path`; the corpus is `default_corpus`
    /// where the rule has no corpus template.
    pub fn produce_vname(&self, path: &str, default_corpus: &str) -> (r: VName)
        ensures
            r@ == produce_spec(self, path@, default_corpus@),
    {
        let corpus = produce_field(self, &self.corpus_pattern, path, default_corpus);
        let root = produce_field(self, &self.root_pattern, path, "");
        let p = produce_field(self, &self.path_pattern, path, "");
        proof {
            reveal_strlit("");
            assert(""@ =~= Seq::<char>::empty());
        }
        VName { corpus, root, path: p, language: String::new(), signature: String::new() }
    }

    /// Prepares every rule of a configuration, in order.
    pub fn process_rules(raw: &Vec<RawRule>) -> (r: Result<Vec<VNameRule>, RuleError>)
        ensures
            r is Ok <==> forall|i: int| 0 <= i < raw@.len() ==> rule_ok(#[trigger] &raw@[i]),
            r matches Ok(rules) ==> rules@.len() == raw@.len()
                && forall|i: int| 0 <= i < raw@.len() ==> processed(&raw@[i], #[trigger] &rules@[i]),
    {
        let mut rules: Vec<VNameRule> = Vec::new();
        for i in 0..raw.len()
            invariant
                rules@.len() == i,
                forall|k: int| 0 <= k < i ==> rule_ok(#[trigger] &raw@[k]),
                forall|k: int| 0 <= k < i ==> processed(&raw@[k], #[trigger] &rules@[k]),
        {
            match raw[i].process() {
                Ok(rule) => rules.push(rule),
                Err(e) => return Err(e),
            }
        }
        Ok(rules)
    }
}

/// The position of the first rule that matches `path`.
pub fn first_matching_rule(rules: &Vec<VNameRule>, path: &str) -> (r: Option<usize>)
    ensures
        r matches Some(i) ==> i < rules@.len() && rule_matches(&rules@[i as int], path@)
            && forall|k: int| 0 <= k < i ==> !rule_matches(#[trigger] &rules@[k], path@),
        r is None ==> forall|k: int| 0 <= k < rules@.len() ==> !rule_matches(#[trigger] &rules@[k], path@),
{
    for i in 0..rules.len()
        invariant
            forall|k: int| 0 <= k < i ==> !rule_matches(#[trigger] &rules@[k], path@),
    {
        if rules[i].matches(path) {
            return Some(i);
        }
    }
    None
}

proof fn lemma_create_first(rules: Seq<VNameRule>, path: Seq<char>, d: Seq<char>, i: int)
    requires
        0 <= i <= rules.len(),
        forall|k: int| 0 <= k < i ==> !rule_matches(#[trigger] &rules[k], path),
    ensures
        create_spec(rules, path, d) == create_spec(rules.skip(i), path, d),
    decreases i,
{
    if i > 0 {
        assert(!rule_matches(&rules[0], path));
        let rest = rules.skip(1);
        assert forall|k: int| 0 <= k < i - 1 implies !rule_matches(#[trigger] &rest[k], path) by {
            assert(rest[k] == rules[k + 1]);
        }
        lemma_create_first(rest, path, d, i - 1);
        assert(rest.skip(i - 1) =~= rules.skip(i));
    } else {
        assert(rules.skip(0) =~= rules);
    }
}

/// The identity for `path`: produced by the first rule that matches it, or,
/// where none does, an identity with only `default_corpus` set.
pub fn create_vname(rules: &Vec<VNameRule>, path: &str, default_corpus: &str) -> (r: VName)
    ensures
        r@ == create_spec(rules@, path@, default_corpus@),
{
    match first_matching_rule(rules, path) {
        Some(i) => {
            proof {
                lemma_create_first(rules@, path@, default_corpus@, i as int);
            }
            rules[i].produce_vname(path, default_corpus)
        },
        None => {
            proof {
                lemma_create_first(rules@, path@, default_corpus@, rules@.len() as int);
            }
            let mut v = VName::new();
            v.corpus = String::from_str(default_corpus);
            v
        },
    }
}

/// Where two rules both match a path, the earlier one decides: the identity
/// is the same as with every rule after the earlier one left out.
pub proof fn lemma_earlier_rule_wins(rules: Seq<VNameRule>, path: Seq<char>, default_corpus: Seq<char>, i: int, j: int)
    requires
        0 <= i < j < rules.len(),
        rule_matches(&rules[i], path),
        rule_matches(&rules[j], path),
    ensures
        create_spec(rules, path, default_corpus) == create_spec(rules.take(i + 1), path, default_corpus),
    decreases i,
{
    if i == 0 {
        assert(rules.take(1)[0] == rules[0]);
    } else if rule_matches(&rules[0], path) {
        assert(rules.take(i + 1)[0] == rules[0]);
    } else {
        let t = rules.take(i + 1);
        assert(t[0] == rules[0]);
        assert(rules.skip(1)[i - 1] == rules[i]);
        assert(rules.skip(1)[j - 1] == rules[j]);
        lemma_earlier_rule_wins(rules.skip(1), path, default_corpus, i - 1, j - 1);
        assert(rules.skip(1).take(i) =~= t.skip(1));
    }
}

} // verus!
