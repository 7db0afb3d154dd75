use vstd::prelude::*;
use crate::text::str_eq;

verus! {

/// Which origins cross-origin requests are granted to.
#[derive(Debug)]
pub enum CorsPolicy {
    /// Every origin.
    AnyOrigin,
    /// Exactly the listed origins.
    Origins(Vec<String>),
}

/// The configured origins hold the wildcard sentinel `"*"`.
pub open spec fn has_wildcard(origins: Seq<Seq<char>>) -> bool {
    origins.contains("*"@)
}

impl CorsPolicy {
    /// Whether a request from `origin` is granted access.
    pub open spec fn admits(&self, origin: Seq<char>) -> bool {
        match self {
            CorsPolicy::AnyOrigin => true,
            CorsPolicy::Origins(v) => v.deep_view().contains(origin),
        }
    }

    /// The policy made of `origins`: the wildcard admits any origin, otherwise
    /// exactly the listed ones.
    pub open spec fn made_from(&self, origins: Seq<Seq<char>>) -> bool {
        if has_wildcard(origins) {
            *self is AnyOrigin
        } else {
            *self is Origins && self->Origins_0.deep_view() == origins
        }
    }

    pub fn allows(&self, origin: &str) -> (r: bool)
        ensures
            r == self.admits(origin@),
    {
        match self {
            CorsPolicy::AnyOrigin => true,
            CorsPolicy::Origins(v) => contains_str(v, origin),
        }
    }
}

fn contains_str(v: &Vec<String>, s: &str) -> (r: bool)
    ensures
        r == v.deep_view().contains(s@),
{
    let n = v.len();
    let mut i: usize = 0;
    while i < n
        invariant
            n == v@.len(),
            i <= n,
            forall|k: int| 0 <= k < i ==> v@[k]@ != s@,
        decreases n - i,
    {
        if str_eq(v[i].as_str(), s) {
            assert(v.deep_view()[i as int] == s@);
            return true;
        }
        i = i + 1;
    }
    assert forall|k: int| 0 <= k < v.deep_view().len() implies v.deep_view()[k] != s@ by {
        assert(v.deep_view()[k] == v@[k]@);
    }
    false
}

/// Builds the CORS policy from the configured origins: the wildcard `"*"`
/// anywhere in the list admits any origin, otherwise exactly the list.
pub fn build_cors(origins: Vec<String>) -> (r: CorsPolicy)
    ensures
        r.made_from(origins.deep_view()),
{
    proof {
        reveal_strlit("*");
    }
    if contains_str(&origins, "*") {
        CorsPolicy::AnyOrigin
    } else {
        CorsPolicy::Origins(origins)
    }
}

/// With the wildcard configured any origin is admitted; without it, an origin
/// is admitted exactly when it is listed.
pub proof fn lemma_cors_wildcard(origins: Seq<Seq<char>>, policy: CorsPolicy, origin: Seq<char>)
    requires
        policy.made_from(origins),
    ensures
        has_wildcard(origins) ==> policy.admits(origin),
        !has_wildcard(origins) ==> (policy.admits(origin) <==> origins.contains(origin)),
{
}

} // verus!
