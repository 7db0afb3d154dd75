use vstd::prelude::*;
use crate::config::GatewayConfig;
use crate::cors::{CorsPolicy, build_cors};
use crate::method::HttpMethod;
use crate::route::{Handler, RouteTable, prefixed};

verus! {

/// The path under which every module's fragment is mounted.
pub const API_PREFIX: &'static str = "/admin-api";

/// The bindings after mounting each fragment of `fragments` under `prefix`,
/// in order, over `m`: a later fragment wins on a shared method and path.
pub open spec fn mounted(
    m: Map<(HttpMethod, Seq<char>), Handler>,
    prefix: Seq<char>,
    fragments: Seq<RouteTable>,
) -> Map<(HttpMethod, Seq<char>), Handler>
    decreases fragments.len(),
{
    if fragments.len() == 0 {
        m
    } else {
        mounted(m, prefix, fragments.drop_last()).union_prefer_right(
            prefixed(prefix, fragments.last()@),
        )
    }
}

/// Mounts each fragment under `prefix`, in the order given.
pub fn mount_modules(prefix: &str, fragments: &Vec<RouteTable>) -> (r: RouteTable)
    requires
        forall|i: int| 0 <= i < fragments@.len() ==> (#[trigger] fragments@[i]).wf(),
    ensures
        r.wf(),
        r@ == mounted(Map::empty(), prefix@, fragments@),
{
    let mut t = RouteTable::new();
    let n = fragments.len();
    let mut i: usize = 0;
    assert(fragments@.subrange(0, 0) =~= Seq::<RouteTable>::empty());
    while i < n
        invariant
            n == fragments@.len(),
            i <= n,
            forall|k: int| 0 <= k < fragments@.len() ==> (#[trigger] fragments@[k]).wf(),
            t.wf(),
            t@ == mounted(Map::empty(), prefix@, fragments@.subrange(0, i as int)),
        decreases n - i,
    {
        assert(fragments@.subrange(0, i + 1).drop_last() =~= fragments@.subrange(0, i as int));
        assert(fragments@.subrange(0, i + 1).last() == fragments@[i as int]);
        t.mount(prefix, &fragments[i]);
        i = i + 1;
    }
    assert(fragments@.subrange(0, n as int) =~= fragments@);
    t
}

/// What the gateway serves: where it listens, whom it grants cross-origin
/// access, and the routes of every module under the shared prefix.
pub struct Gateway {
    pub listen: String,
    pub cors: CorsPolicy,
    pub routes: RouteTable,
}

/// Composes the gateway from its configuration and the modules' fragments.
/// The health check and the catch-all are answered by `web::health` and
/// `web::fallback_not_found` around these routes.
pub fn build_router(config: GatewayConfig, fragments: &Vec<RouteTable>) -> (r: Gateway)
    requires
        forall|i: int| 0 <= i < fragments@.len() ==> (#[trigger] fragments@[i]).wf(),
    ensures
        r.listen@ == config.listen@,
        r.cors.made_from(config.allow_origins.deep_view()),
        r.routes.wf(),
        r.routes@ == mounted(Map::empty(), API_PREFIX@, fragments@),
{
    let GatewayConfig { listen, allow_origins } = config;
    let cors = build_cors(allow_origins);
    let routes = mount_modules(API_PREFIX, fragments);
    Gateway { listen, cors, routes }
}

} // verus!
