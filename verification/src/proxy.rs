//! The reverse-proxy configuration: upstream origin, cache-key shape,
//! method-based cache exclusion rules, and websocket policy. The proxy
//! engine itself is an outside collaborator; its pattern matcher is called
//! through a trusted wrapper, and the host's caching policy is stated and
//! proved against it.

use vstd::prelude::*;
use vstd::string::StringExecFns;
use crate::environment::Environment;
use crate::text::{dec_rep, u16_to_string};

verus! {

/// What the proxy engine's pattern matcher answers for a request method,
/// a request path, and an exclusion pattern. The matcher is pure: its
/// result depends on these three arguments alone.
pub uninterp spec fn engine_match(method: Seq<char>, path: Seq<char>, pattern: Seq<char>) -> bool;

/// Relies on `phantom_frame::path_matcher::matches_pattern_with_method`,
/// the engine's rule matcher. Its source shows that a rule of the form
/// `"<METHOD> *"`, for a known method token, parses into that method and
/// the path glob `"*"`, and that `"*"` splits into two empty segments that
/// match every path — so such a rule matches a request exactly when the
/// request's method equals the rule's.
#[verifier::external_body]
fn engine_rule_matches(method: &str, path: &str, pattern: &str) -> (r: bool)
    ensures
        r == engine_match(method@, path@, pattern@),
        pattern@ == "POST *"@ ==> r == (method@ == "POST"@),
        pattern@ == "PUT *"@ ==> r == (method@ == "PUT"@),
        pattern@ == "DELETE *"@ ==> r == (method@ == "DELETE"@),
        pattern@ == "PATCH *"@ ==> r == (method@ == "PATCH"@),
{
    phantom_frame::path_matcher::matches_pattern_with_method(Some(method), path, pattern)
}

/// The value object handed to the proxy engine: where to forward, which
/// requests never to cache, and whether to bridge websockets.
pub struct ProxyConfig {
    pub upstream_origin: String,
    pub exclude_rules: Vec<String>,
    pub websocket_enabled: bool,
}

/// The four method-glob rules that exempt mutating requests from the
/// cache.
pub fn default_exclude_rules() -> (r: Vec<String>)
    ensures
        r@.len() == 4,
        r@[0]@ == "POST *"@,
        r@[1]@ == "PUT *"@,
        r@[2]@ == "DELETE *"@,
        r@[3]@ == "PATCH *"@,
{
    let mut rules: Vec<String> = Vec::new();
    rules.push("POST *".to_owned());
    rules.push("PUT *".to_owned());
    rules.push("DELETE *".to_owned());
    rules.push("PATCH *".to_owned());
    rules
}

/// Builds the proxy configuration for a frontend listening on
/// `frontend_port`: the upstream origin `http://localhost:<port>`, the
/// default exclusion rules, and websockets only in Development.
pub fn create_proxy_config(frontend_port: u16, environment: &Environment) -> (c: ProxyConfig)
    ensures
        c.upstream_origin@ == "http://localhost:"@ + dec_rep(frontend_port as nat),
        c.exclude_rules@.len() == 4,
        c.exclude_rules@[0]@ == "POST *"@,
        c.exclude_rules@[1]@ == "PUT *"@,
        c.exclude_rules@[2]@ == "DELETE *"@,
        c.exclude_rules@[3]@ == "PATCH *"@,
        c.websocket_enabled == (environment is Development),
{
    let mut origin: String = "http://localhost:".to_owned();
    let port_str = u16_to_string(frontend_port);
    origin.append(port_str.as_str());
    let websocket_enabled = match environment {
        Environment::Development => true,
        Environment::Production => false,
    };
    ProxyConfig { upstream_origin: origin, exclude_rules: default_exclude_rules(), websocket_enabled }
}

/// The cache key of a request: the method token, a literal `::`, and the
/// request path.
pub fn cache_key(method: &str, path: &str) -> (k: String)
    ensures
        k@ == method@ + "::"@ + path@,
{
    let mut k: String = method.to_owned();
    k.append("::");
    k.append(path);
    k
}

/// The engine's caching decision under the host's configuration: with an
/// empty include list, a request is cached unless some exclusion rule
/// matches it. In particular a request whose method is POST, PUT, DELETE
/// or PATCH bypasses the cache whenever the rule for its method is
/// present.
pub fn should_cache(rules: &Vec<String>, method: &str, path: &str) -> (r: bool)
    ensures
        r == (forall|i: int|
            0 <= i < rules@.len() ==> !engine_match(method@, path@, #[trigger] rules@[i]@)),
        method@ == "POST"@ && (exists|i: int|
            0 <= i < rules@.len() && #[trigger] rules@[i]@ == "POST *"@) ==> !r,
        method@ == "PUT"@ && (exists|i: int|
            0 <= i < rules@.len() && #[trigger] rules@[i]@ == "PUT *"@) ==> !r,
        method@ == "DELETE"@ && (exists|i: int|
            0 <= i < rules@.len() && #[trigger] rules@[i]@ == "DELETE *"@) ==> !r,
        method@ == "PATCH"@ && (exists|i: int|
            0 <= i < rules@.len() && #[trigger] rules@[i]@ == "PATCH *"@) ==> !r,
{
    let n = rules.len();
    let mut i: usize = 0;
    while i < n
        invariant
            n == rules@.len(),
            i <= n,
            forall|j: int|
                0 <= j < i ==> !engine_match(method@, path@, #[trigger] rules@[j]@),
            forall|j: int|
                0 <= j < i && #[trigger] rules@[j]@ == "POST *"@ ==> method@ != "POST"@,
            forall|j: int|
                0 <= j < i && #[trigger] rules@[j]@ == "PUT *"@ ==> method@ != "PUT"@,
            forall|j: int|
                0 <= j < i && #[trigger] rules@[j]@ == "DELETE *"@ ==> method@ != "DELETE"@,
            forall|j: int|
                0 <= j < i && #[trigger] rules@[j]@ == "PATCH *"@ ==> method@ != "PATCH"@,
        decreases n - i,
    {
        if engine_rule_matches(method, path, rules[i].as_str()) {
            return false;
        }
        i = i + 1;
    }
    true
}

} // verus!
