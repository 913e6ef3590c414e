//! The route table: ordered prefix rules, first match wins, with a mandatory
//! catch-all rule.
use vstd::prelude::*;
use vstd::string::*;
use crate::uri::Scheme;

verus! {

/// Whether `p` is a prefix of `s`.
pub open spec fn is_prefix_of(p: Seq<char>, s: Seq<char>) -> bool {
    p.len() <= s.len() && s.subrange(0, p.len() as int) == p
}

/// Whether `s` starts with `prefix`, compared character by character.
pub fn starts_with(s: &str, prefix: &str) -> (r: bool)
    ensures
        r == is_prefix_of(prefix@, s@),
{
    let n = prefix.unicode_len();
    let m = s.unicode_len();
    if n > m {
        return false;
    }
    let mut i: usize = 0;
    while i < n
        invariant
            n == prefix@.len(),
            m == s@.len(),
            n <= m,
            i <= n,
            forall|j: int| 0 <= j < i ==> s@[j] == prefix@[j],
        decreases n - i,
    {
        if s.get_char(i) != prefix.get_char(i) {
            assert(s@.subrange(0, n as int)[i as int] != prefix@[i as int]);
            return false;
        }
        i += 1;
    }
    assert(s@.subrange(0, n as int) =~= prefix@);
    true
}

/// An upstream service: where requests are sent, and under which scheme.
#[derive(Clone, Debug, PartialEq, Eq)]
pub struct Upstream {
    pub authority: String,
    pub scheme: Scheme,
}

pub struct UpstreamView {
    pub authority: Seq<char>,
    pub scheme: Scheme,
}

impl View for Upstream {
    type V = UpstreamView;

    open spec fn view(&self) -> UpstreamView {
        UpstreamView { authority: self.authority@, scheme: self.scheme }
    }
}

/// A routing rule: paths that start with `prefix` go to `upstream`. The
/// empty prefix matches every path.
#[derive(Clone, Debug, PartialEq, Eq)]
pub struct Rule {
    pub prefix: String,
    pub upstream: Upstream,
}

pub struct RuleView {
    pub prefix: Seq<char>,
    pub upstream: UpstreamView,
}

impl View for Rule {
    type V = RuleView;

    open spec fn view(&self) -> RuleView {
        RuleView { prefix: self.prefix@, upstream: self.upstream@ }
    }
}

/// The upstream of the first rule whose prefix starts `path`, if any.
pub open spec fn select(rules: Seq<RuleView>, path: Seq<char>) -> Option<UpstreamView>
    decreases rules.len(),
{
    if rules.len() == 0 {
        None
    } else if is_prefix_of(rules[0].prefix, path) {
        Some(rules[0].upstream)
    } else {
        select(rules.drop_first(), path)
    }
}

/// Whether some rule matches every path.
pub open spec fn has_fallback(rules: Seq<RuleView>) -> bool {
    exists|k: int| 0 <= k < rules.len() && rules[k].prefix.len() == 0
}

/// The authorities that the outside URI parser accepts.
pub uninterp spec fn is_authority(s: Seq<char>) -> bool;

/// Whether every rule names an authority that parses.
pub open spec fn authorities_valid(rules: Seq<RuleView>) -> bool {
    forall|k: int| 0 <= k < rules.len() ==> is_authority(#[trigger] rules[k].upstream.authority)
}

/// Relies on `http::uri::Authority::try_from(&str)`: it succeeds exactly on
/// the texts that are a valid authority (never on the empty text).
#[verifier::external_body]
fn authority_parses(s: &str) -> (r: bool)
    ensures
        r == is_authority(s@),
        s@.len() == 0 ==> !r,
{
    axum::http::uri::Authority::try_from(s).is_ok()
}

/// Why a route table could not be built.
#[derive(Clone, Copy, Debug, PartialEq, Eq, Structural)]
pub enum ConfigError {
    /// No rule has the empty prefix, so some path would match nothing.
    MissingFallback,
    /// The rule at this index names an authority that does not parse.
    InvalidAuthority(usize),
}

/// An immutable, ordered list of routing rules that always has a catch-all.
#[derive(Debug)]
pub struct RouteTable {
    rules: Vec<Rule>,
}

/// With a catch-all rule, every path is matched by some rule.
pub proof fn lemma_fallback_matches_all(rules: Seq<RuleView>, path: Seq<char>)
    requires
        has_fallback(rules),
    ensures
        select(rules, path) is Some,
    decreases rules.len(),
{
    let k = choose|k: int| 0 <= k < rules.len() && rules[k].prefix.len() == 0;
    if k == 0 {
        assert(path.subrange(0, 0) =~= rules[0].prefix);
    } else if !is_prefix_of(rules[0].prefix, path) {
        assert(rules.drop_first()[k - 1] == rules[k]);
        lemma_fallback_matches_all(rules.drop_first(), path);
    }
}

impl View for RouteTable {
    type V = Seq<RuleView>;

    closed spec fn view(&self) -> Seq<RuleView> {
        self.rules@.map_values(|r: Rule| r@)
    }
}

impl RouteTable {
    /// A table is usable when it has a catch-all rule and every authority parses.
    pub open spec fn wf(&self) -> bool {
        has_fallback(self@) && authorities_valid(self@)
    }

    /// Builds a table from rules in priority order. Fails when no rule has the
    /// empty prefix, or else at the first rule whose authority does not parse.
    pub fn new(rules: Vec<Rule>) -> (r: Result<RouteTable, ConfigError>)
        ensures
            r is Ok <==> has_fallback(rules@.map_values(|x: Rule| x@)) && authorities_valid(
                rules@.map_values(|x: Rule| x@),
            ),
            r matches Ok(t) ==> t.wf() && t@ == rules@.map_values(|x: Rule| x@),
            r == Err::<RouteTable, ConfigError>(ConfigError::MissingFallback) <==> !has_fallback(
                rules@.map_values(|x: Rule| x@),
            ),
            r matches Err(ConfigError::InvalidAuthority(i)) ==> i < rules@.len() && !is_authority(
                rules@[i as int].upstream.authority@,
            ) && forall|j: int| 0 <= j < i ==> is_authority(rules@[j].upstream.authority@),
    {
        let ghost views = rules@.map_values(|x: Rule| x@);
        let mut found = false;
        let mut i: usize = 0;
        while i < rules.len()
            invariant
                i <= rules@.len(),
                views == rules@.map_values(|x: Rule| x@),
                found <==> exists|k: int| 0 <= k < i && views[k].prefix.len() == 0,
            decreases rules.len() - i,
        {
            if rules[i].prefix.unicode_len() == 0 {
                assert(views[i as int].prefix.len() == 0);
                found = true;
            }
            i += 1;
        }
        if !found {
            return Err(ConfigError::MissingFallback);
        }
        let mut i: usize = 0;
        while i < rules.len()
            invariant
                i <= rules@.len(),
                views == rules@.map_values(|x: Rule| x@),
                forall|j: int| 0 <= j < i ==> is_authority(rules@[j].upstream.authority@),
                has_fallback(views),
            decreases rules.len() - i,
        {
            if !authority_parses(rules[i].upstream.authority.as_str()) {
                assert(views[i as int] == rules@[i as int]@);
                assert(!is_authority(views[i as int].upstream.authority));
                return Err(ConfigError::InvalidAuthority(i));
            }
            i += 1;
        }
        assert(authorities_valid(views)) by {
            assert forall|k: int| 0 <= k < views.len() implies is_authority(
                #[trigger] views[k].upstream.authority,
            ) by {
                assert(views[k] == rules@[k]@);
            }
        }
        Ok(RouteTable { rules })
    }

    /// The rules in priority order.
    pub fn rules(&self) -> (r: &Vec<Rule>)
        ensures
            r@.map_values(|x: Rule| x@) == self@,
    {
        &self.rules
    }

    /// The upstream of the first rule whose prefix starts `path`.
    pub fn route(&self, path: &str) -> (r: &Upstream)
        requires
            self.wf(),
        ensures
            select(self@, path@) == Some(r@),
    {
        let ghost views = self@;
        let n = self.rules.len();
        let mut i: usize = 0;
        assert(views.subrange(0, n as int) =~= views);
        while i < n
            invariant
                n == self.rules@.len(),
                views == self@,
                i <= n,
                select(views, path@) == select(views.subrange(i as int, n as int), path@),
            decreases n - i,
        {
            let rule = &self.rules[i];
            assert(views.subrange(i as int, n as int)[0] == rule@);
            if starts_with(path, rule.prefix.as_str()) {
                return &rule.upstream;
            }
            assert(views.subrange(i as int, n as int).drop_first() =~= views.subrange(
                i as int + 1,
                n as int,
            ));
            i += 1;
        }
        proof {
            lemma_fallback_matches_all(views, path@);
        }
        &self.rules[0].upstream
    }
}

/// The authority of the API server (upstream A).
pub open spec fn api_authority() -> Seq<char> {
    "127.0.0.1:8000"@
}

/// The authority of the UI development server (upstream B).
pub open spec fn ui_authority() -> Seq<char> {
    "127.0.0.1:1234"@
}

pub open spec fn api_upstream() -> UpstreamView {
    UpstreamView { authority: api_authority(), scheme: Scheme::Http }
}

pub open spec fn ui_upstream() -> UpstreamView {
    UpstreamView { authority: ui_authority(), scheme: Scheme::Http }
}

/// The development routes: `/api/` and `/oauth/` to the API server, all else
/// to the UI server.
pub open spec fn dev_rules() -> Seq<RuleView> {
    seq![
        RuleView { prefix: "/api/"@, upstream: api_upstream() },
        RuleView { prefix: "/oauth/"@, upstream: api_upstream() },
        RuleView { prefix: Seq::empty(), upstream: ui_upstream() },
    ]
}

fn http_upstream(authority: &str) -> (r: Upstream)
    ensures
        r@ == (UpstreamView { authority: authority@, scheme: Scheme::Http }),
{
    Upstream { authority: authority.to_string(), scheme: Scheme::Http }
}

/// The route table of the development proxy. It is built whenever both
/// authorities parse.
pub fn dev_table() -> (r: Result<RouteTable, ConfigError>)
    ensures
        r is Ok <==> is_authority(api_authority()) && is_authority(ui_authority()),
        r matches Ok(t) ==> t.wf() && t@ == dev_rules(),
{
    let rules = vec![
        Rule { prefix: "/api/".to_string(), upstream: http_upstream("127.0.0.1:8000") },
        Rule { prefix: "/oauth/".to_string(), upstream: http_upstream("127.0.0.1:8000") },
        Rule { prefix: String::new(), upstream: http_upstream("127.0.0.1:1234") },
    ];
    let ghost views = rules@.map_values(|x: Rule| x@);
    assert(views =~= dev_rules());
    assert(has_fallback(views)) by {
        assert(views[2].prefix.len() == 0);
    }
    assert(authorities_valid(views) <==> is_authority(api_authority()) && is_authority(
        ui_authority(),
    )) by {
        assert(views[0].upstream.authority == api_authority());
        assert(views[2].upstream.authority == ui_authority());
    }
    RouteTable::new(rules)
}

/// Under the development routes, every path that starts with `/api/` or
/// `/oauth/` goes to the API server, and every other path, `/` included, to
/// the UI server.
pub proof fn lemma_dev_routing(path: Seq<char>)
    ensures
        is_prefix_of("/api/"@, path) || is_prefix_of("/oauth/"@, path) ==> select(
            dev_rules(),
            path,
        ) == Some(api_upstream()),
        !(is_prefix_of("/api/"@, path) || is_prefix_of("/oauth/"@, path)) ==> select(
            dev_rules(),
            path,
        ) == Some(ui_upstream()),
{
    let rules = dev_rules();
    assert(rules.drop_first() =~= seq![rules[1], rules[2]]);
    assert(rules.drop_first().drop_first() =~= seq![rules[2]]);
    assert(path.subrange(0, 0) =~= Seq::<char>::empty());
    reveal_with_fuel(select, 4);
}

} // verus!
