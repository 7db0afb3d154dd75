use vstd::prelude::*;

verus! {

/// The gateway's resolved configuration.
#[derive(Debug)]
pub struct GatewayConfig {
    /// Address the server listens on.
    pub listen: String,
    /// Origins that cross-origin requests may come from; `"*"` admits any.
    pub allow_origins: Vec<String>,
}

impl Default for GatewayConfig {
    fn default() -> (r: Self)
        ensures
            r.listen@ == "0.0.0.0:8080"@,
            r.allow_origins@.len() == 1,
            r.allow_origins@[0]@ == "*"@,
    {
        GatewayConfig { listen: "0.0.0.0:8080".to_owned(), allow_origins: vec!["*".to_owned()] }
    }
}

/// One configuration layer: each key it defines overrides the layers below it.
#[derive(Debug)]
pub struct ConfigLayer {
    pub listen: Option<String>,
    pub allow_origins: Option<Vec<String>>,
}

/// The listen address after applying `layers`, lowest precedence first, over
/// `base`. An absent layer (`None`) and a layer without the key are skipped.
pub open spec fn resolved_listen(base: Seq<char>, layers: Seq<Option<ConfigLayer>>) -> Seq<char>
    decreases layers.len(),
{
    if layers.len() == 0 {
        base
    } else {
        match layers.last() {
            Some(ConfigLayer { listen: Some(v), .. }) => v@,
            _ => resolved_listen(base, layers.drop_last()),
        }
    }
}

/// The allowed origins after applying `layers` over `base`, as for the
/// listen address.
pub open spec fn resolved_origins(base: Seq<Seq<char>>, layers: Seq<Option<ConfigLayer>>) -> Seq<
    Seq<char>,
>
    decreases layers.len(),
{
    if layers.len() == 0 {
        base
    } else {
        match layers.last() {
            Some(ConfigLayer { allow_origins: Some(v), .. }) => v.deep_view(),
            _ => resolved_origins(base, layers.drop_last()),
        }
    }
}

pub open spec fn defines_listen(layer: Option<ConfigLayer>) -> bool {
    layer is Some && layer->Some_0.listen is Some
}

pub open spec fn defines_origins(layer: Option<ConfigLayer>) -> bool {
    layer is Some && layer->Some_0.allow_origins is Some
}

/// Merges configuration layers over `defaults`, key by key. `layers` runs
/// from lowest to highest precedence (for instance a template file, a local
/// file, then the environment); a layer that is absent or could not be read
/// is `None` and is skipped. Never fails.
pub fn resolve_config(defaults: GatewayConfig, layers: Vec<Option<ConfigLayer>>) -> (r:
    GatewayConfig)
    ensures
        r.listen@ == resolved_listen(defaults.listen@, layers@),
        r.allow_origins.deep_view() == resolved_origins(
            defaults.allow_origins.deep_view(),
            layers@,
        ),
{
    let ghost all = layers@;
    let ghost base_listen = defaults.listen@;
    let ghost base_origins = defaults.allow_origins.deep_view();
    let mut rest = layers;
    let mut listen: Option<String> = None;
    let mut origins: Option<Vec<String>> = None;
    while rest.len() > 0
        invariant
            match listen {
                Some(v) => v@ == resolved_listen(base_listen, all),
                None => resolved_listen(base_listen, rest@) == resolved_listen(base_listen, all),
            },
            match origins {
                Some(v) => v.deep_view() == resolved_origins(base_origins, all),
                None => resolved_origins(base_origins, rest@) == resolved_origins(
                    base_origins,
                    all,
                ),
            },
        decreases rest.len(),
    {
        let ghost before = rest@;
        let top = rest.pop();
        assert(rest@ == before.drop_last());
        match top {
            Some(Some(layer)) => {
                let ConfigLayer { listen: l, allow_origins: o } = layer;
                if listen.is_none() {
                    listen = l;
                }
                if origins.is_none() {
                    origins = o;
                }
            },
            _ => {},
        }
    }
    let listen = match listen {
        Some(v) => v,
        None => defaults.listen,
    };
    let allow_origins = match origins {
        Some(v) => v,
        None => defaults.allow_origins,
    };
    GatewayConfig { listen, allow_origins }
}

/// Among the layers, the highest one that defines the listen address decides
/// it: above the defaults, and below any later layer (the environment last).
pub proof fn lemma_listen_precedence(base: Seq<char>, layers: Seq<Option<ConfigLayer>>, i: int)
    requires
        0 <= i < layers.len(),
        defines_listen(layers[i]),
        forall|j: int| i < j < layers.len() ==> !defines_listen(#[trigger] layers[j]),
    ensures
        resolved_listen(base, layers) == layers[i]->Some_0.listen->Some_0@,
    decreases layers.len(),
{
    if i < layers.len() - 1 {
        assert(!defines_listen(layers[layers.len() - 1]));
        let d = layers.drop_last();
        assert forall|j: int| i < j < d.len() implies !defines_listen(#[trigger] d[j]) by {
            assert(d[j] == layers[j]);
        }
        lemma_listen_precedence(base, d, i);
    }
}

/// The same precedence holds for the allowed origins.
pub proof fn lemma_origins_precedence(
    base: Seq<Seq<char>>,
    layers: Seq<Option<ConfigLayer>>,
    i: int,
)
    requires
        0 <= i < layers.len(),
        defines_origins(layers[i]),
        forall|j: int| i < j < layers.len() ==> !defines_origins(#[trigger] layers[j]),
    ensures
        resolved_origins(base, layers) == layers[i]->Some_0.allow_origins->Some_0.deep_view(),
    decreases layers.len(),
{
    if i < layers.len() - 1 {
        assert(!defines_origins(layers[layers.len() - 1]));
        let d = layers.drop_last();
        assert forall|j: int| i < j < d.len() implies !defines_origins(#[trigger] d[j]) by {
            assert(d[j] == layers[j]);
        }
        lemma_origins_precedence(base, d, i);
    }
}

/// With every optional layer absent or unreadable, resolution gives exactly
/// the defaults.
pub proof fn lemma_total_fallback(
    base_listen: Seq<char>,
    base_origins: Seq<Seq<char>>,
    layers: Seq<Option<ConfigLayer>>,
)
    requires
        forall|j: int| 0 <= j < layers.len() ==> #[trigger] layers[j] is None,
    ensures
        resolved_listen(base_listen, layers) == base_listen,
        resolved_origins(base_origins, layers) == base_origins,
    decreases layers.len(),
{
    if layers.len() > 0 {
        let d = layers.drop_last();
        assert(layers[layers.len() - 1] is None);
        assert forall|j: int| 0 <= j < d.len() implies #[trigger] d[j] is None by {
            assert(d[j] == layers[j]);
        }
        lemma_total_fallback(base_listen, base_origins, d);
    }
}

/// Settings of the framework's own services.
#[derive(Debug)]
pub struct FrameworkConfig {
    pub service_name: String,
    pub http_port: u16,
    pub nacos_endpoint: String,
    pub redis_url: String,
}

impl Default for FrameworkConfig {
    fn default() -> (r: Self)
        ensures
            r.service_name@ == "daoyi-cloud-rs"@,
            r.http_port == 18080,
            r.nacos_endpoint@ == "http://127.0.0.1:8848"@,
            r.redis_url@ == "redis://127.0.0.1:6379"@,
    {
        FrameworkConfig {
            service_name: "daoyi-cloud-rs".to_owned(),
            http_port: 18080,
            nacos_endpoint: "http://127.0.0.1:8848".to_owned(),
            redis_url: "redis://127.0.0.1:6379".to_owned(),
        }
    }
}

} // verus!
