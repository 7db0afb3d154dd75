use vstd::prelude::*;
use crate::method::{HttpMethod, is_routable};
use crate::path::{RouteError, normalize_path, normalized_template};
use crate::text::str_eq;

verus! {

/// What answers a bound route. Every route of a module's declarative table is
/// answered by the generic mock; the others are hand-written endpoints.
#[derive(Clone, Copy, Debug, PartialEq, Eq, Structural)]
pub enum Handler {
    GenericMock,
    ConfigValueByKey,
    FileUpload,
    PresignedUrl,
    RedisMonitor,
    AuthLogin,
    RefreshToken,
    Logout,
    PermissionInfo,
    CaptchaGet,
    CaptchaCheck,
}

/// One declarative route: a method and a path template.
#[derive(Clone, Copy, Debug)]
pub struct RouteSpec {
    pub method: HttpMethod,
    pub path: &'static str,
}

impl RouteSpec {
    pub fn new(method: HttpMethod, path: &'static str) -> (r: Self)
        ensures
            r.method == method,
            r.path@ == path@,
    {
        RouteSpec { method, path }
    }
}

/// A route bound to its handler, with its template in the router's syntax.
#[derive(Clone, Debug)]
pub struct CompiledRoute {
    pub method: HttpMethod,
    pub path: String,
    pub handler: Handler,
}

/// The key under which a binding is registered.
pub open spec fn route_key(r: CompiledRoute) -> (HttpMethod, Seq<char>) {
    (r.method, r.path@)
}

/// The bindings held by a sequence of routes, each key mapped to the handler
/// of the route that carries it.
pub open spec fn bindings_of(s: Seq<CompiledRoute>) -> Map<(HttpMethod, Seq<char>), Handler> {
    Map::new(
        |k: (HttpMethod, Seq<char>)| exists|i: int| 0 <= i < s.len() && route_key(s[i]) == k,
        |k: (HttpMethod, Seq<char>)|
            s[choose|i: int| 0 <= i < s.len() && route_key(s[i]) == k].handler,
    )
}

/// No two routes share a method and a path.
pub open spec fn keys_unique(s: Seq<CompiledRoute>) -> bool {
    forall|i: int, j: int|
        0 <= i < s.len() && 0 <= j < s.len() && route_key(s[i]) == route_key(s[j]) ==> i == j
}

/// The bindings after registering one route on `m` with `h`: its template is
/// normalized, and a method outside GET, POST, PUT and DELETE is skipped.
/// `None` when the template is malformed.
pub open spec fn register(
    m: Map<(HttpMethod, Seq<char>), Handler>,
    method: HttpMethod,
    template: Seq<char>,
    h: Handler,
) -> Option<Map<(HttpMethod, Seq<char>), Handler>> {
    match normalized_template(template) {
        Some(p) => Some(
            if is_routable(method) {
                m.insert((method, p), h)
            } else {
                m
            },
        ),
        None => None,
    }
}

/// The bindings after registering each route of `entries`, in order.
pub open spec fn register_all(
    m: Map<(HttpMethod, Seq<char>), Handler>,
    entries: Seq<RouteSpec>,
    h: Handler,
) -> Option<Map<(HttpMethod, Seq<char>), Handler>>
    decreases entries.len(),
{
    if entries.len() == 0 {
        Some(m)
    } else {
        match register_all(m, entries.drop_last(), h) {
            Some(m2) => register(m2, entries.last().method, entries.last().path@, h),
            None => None,
        }
    }
}

proof fn lemma_register_all_failure_persists(
    m: Map<(HttpMethod, Seq<char>), Handler>,
    entries: Seq<RouteSpec>,
    k: int,
    h: Handler,
)
    requires
        0 <= k <= entries.len(),
        register_all(m, entries.subrange(0, k), h) is None,
    ensures
        register_all(m, entries, h) is None,
    decreases entries.len() - k,
{
    if k < entries.len() {
        assert(entries.subrange(0, k + 1).drop_last() =~= entries.subrange(0, k));
        lemma_register_all_failure_persists(m, entries, k + 1, h);
    } else {
        assert(entries.subrange(0, k) =~= entries);
    }
}

/// Registering two routes with the same method whose templates normalize to
/// the same path leaves exactly one binding for that method and path: the
/// second route's handler.
pub proof fn lemma_last_registration_wins(
    m: Map<(HttpMethod, Seq<char>), Handler>,
    method: HttpMethod,
    first: Seq<char>,
    second: Seq<char>,
    h1: Handler,
    h2: Handler,
)
    requires
        is_routable(method),
        normalized_template(first) is Some,
        normalized_template(first) == normalized_template(second),
    ensures
        register(register(m, method, first, h1)->Some_0, method, second, h2) == Some(
            m.insert((method, normalized_template(second)->Some_0), h2),
        ),
        register(m, method, second, h2) == register(
            register(m, method, first, h1)->Some_0,
            method,
            second,
            h2,
        ),
{
    let p = normalized_template(second)->Some_0;
    assert(m.insert((method, p), h1).insert((method, p), h2) =~= m.insert((method, p), h2));
}

/// The bindings of `f` with `prefix` put before every path.
pub open spec fn prefixed(prefix: Seq<char>, f: Map<(HttpMethod, Seq<char>), Handler>) -> Map<
    (HttpMethod, Seq<char>),
    Handler,
> {
    Map::new(
        |k: (HttpMethod, Seq<char>)|
            k.1.len() >= prefix.len() && k.1.subrange(0, prefix.len() as int) == prefix
                && f.contains_key((k.0, k.1.subrange(prefix.len() as int, k.1.len() as int))),
        |k: (HttpMethod, Seq<char>)| f[(k.0, k.1.subrange(prefix.len() as int, k.1.len() as int))],
    )
}

proof fn lemma_prefixed_insert(
    prefix: Seq<char>,
    f: Map<(HttpMethod, Seq<char>), Handler>,
    key: (HttpMethod, Seq<char>),
    h: Handler,
)
    ensures
        prefixed(prefix, f.insert(key, h)) == prefixed(prefix, f).insert(
            (key.0, prefix + key.1),
            h,
        ),
{
    let plen = prefix.len() as int;
    let full = prefix + key.1;
    assert(full.subrange(0, plen) =~= prefix);
    assert(full.subrange(plen, full.len() as int) =~= key.1);
    let l = prefixed(prefix, f.insert(key, h));
    let r = prefixed(prefix, f).insert((key.0, full), h);
    assert forall|k: (HttpMethod, Seq<char>)| l.contains_key(k) <==> r.contains_key(k) by {
        if k.1.len() >= plen && k.1.subrange(0, plen) == prefix {
            let rest = k.1.subrange(plen, k.1.len() as int);
            assert(k.1 =~= prefix + rest);
        }
    }
    assert(l.dom() =~= r.dom());
    assert forall|k: (HttpMethod, Seq<char>)| #[trigger] l.contains_key(k) implies l[k] == r[k] by {
        let rest = k.1.subrange(plen, k.1.len() as int);
        assert(k.1 =~= prefix + rest);
    }
    assert(l =~= r);
}

/// Routes whose keys are unique keep unique keys in every prefix.
proof fn lemma_keys_unique_prefix(s: Seq<CompiledRoute>, j: int)
    requires
        keys_unique(s),
        0 <= j <= s.len(),
    ensures
        keys_unique(s.subrange(0, j)),
{
    let t = s.subrange(0, j);
    assert forall|a: int, b: int|
        0 <= a < t.len() && 0 <= b < t.len() && route_key(t[a]) == route_key(t[b]) implies a
        == b by {
        assert(t[a] == s[a] && t[b] == s[b]);
    }
}

/// The bindings after registering each `(route, handler)` pair, in order.
pub open spec fn register_each(
    m: Map<(HttpMethod, Seq<char>), Handler>,
    entries: Seq<(RouteSpec, Handler)>,
) -> Option<Map<(HttpMethod, Seq<char>), Handler>>
    decreases entries.len(),
{
    if entries.len() == 0 {
        Some(m)
    } else {
        match register_each(m, entries.drop_last()) {
            Some(m2) => {
                let (spec, h) = entries.last();
                register(m2, spec.method, spec.path@, h)
            },
            None => None,
        }
    }
}

/// A module's fragment: its declarative table bound to the generic mock,
/// then its hand-written routes, which therefore win over a table entry
/// with the same method and path.
pub open spec fn module_bindings(
    table: Seq<RouteSpec>,
    specials: Seq<(RouteSpec, Handler)>,
) -> Option<Map<(HttpMethod, Seq<char>), Handler>> {
    match register_all(Map::empty(), table, Handler::GenericMock) {
        Some(m) => register_each(m, specials),
        None => None,
    }
}

proof fn lemma_register_each_failure_persists(
    m: Map<(HttpMethod, Seq<char>), Handler>,
    entries: Seq<(RouteSpec, Handler)>,
    k: int,
)
    requires
        0 <= k <= entries.len(),
        register_each(m, entries.subrange(0, k)) is None,
    ensures
        register_each(m, entries) is None,
    decreases entries.len() - k,
{
    if k < entries.len() {
        assert(entries.subrange(0, k + 1).drop_last() =~= entries.subrange(0, k));
        lemma_register_each_failure_persists(m, entries, k + 1);
    } else {
        assert(entries.subrange(0, k) =~= entries);
    }
}

/// A hand-written route keeps its handler in the fragment unless a later
/// hand-written route has the same method and normalized path.
pub proof fn lemma_special_route_wins(
    m: Map<(HttpMethod, Seq<char>), Handler>,
    entries: Seq<(RouteSpec, Handler)>,
    i: int,
)
    requires
        register_each(m, entries) is Some,
        0 <= i < entries.len(),
        is_routable(entries[i].0.method),
        forall|j: int|
            i < j < entries.len() ==> !(#[trigger] entries[j].0.method == entries[i].0.method
                && normalized_template(entries[j].0.path@) == normalized_template(
                entries[i].0.path@,
            )),
    ensures
        normalized_template(entries[i].0.path@) is Some,
        register_each(m, entries)->Some_0[(
            entries[i].0.method,
            normalized_template(entries[i].0.path@)->Some_0,
        )] == entries[i].1,
    decreases entries.len(),
{
    let d = entries.drop_last();
    if i < entries.len() - 1 {
        assert forall|j: int| i < j < d.len() implies !(#[trigger] d[j].0.method == d[i].0.method
            && normalized_template(d[j].0.path@) == normalized_template(d[i].0.path@)) by {
            assert(d[j] == entries[j]);
        }
        let last = entries[entries.len() - 1];
        assert(!(last.0.method == entries[i].0.method && normalized_template(last.0.path@)
            == normalized_template(entries[i].0.path@)));
        lemma_special_route_wins(m, d, i);
    }
}

/// Every template of `entries` is well formed.
pub open spec fn templates_well_formed(entries: Seq<RouteSpec>) -> bool {
    forall|i: int| 0 <= i < entries.len() ==> normalized_template(#[trigger] entries[i].path@) is Some
}

/// Every template among the hand-written routes is well formed.
pub open spec fn special_templates_well_formed(entries: Seq<(RouteSpec, Handler)>) -> bool {
    forall|i: int|
        0 <= i < entries.len() ==> normalized_template(#[trigger] entries[i].0.path@) is Some
}

/// Well-formed templates stay so when two tables are joined.
pub proof fn lemma_templates_well_formed_concat(a: Seq<RouteSpec>, b: Seq<RouteSpec>)
    requires
        templates_well_formed(a),
        templates_well_formed(b),
    ensures
        templates_well_formed(a + b),
{
    assert forall|i: int| 0 <= i < (a + b).len() implies normalized_template(
        #[trigger] (a + b)[i].path@,
    ) is Some by {
        if i >= a.len() {
            assert((a + b)[i] == b[i - a.len()]);
        }
    }
}

proof fn lemma_register_all_some(
    m: Map<(HttpMethod, Seq<char>), Handler>,
    entries: Seq<RouteSpec>,
    h: Handler,
)
    requires
        templates_well_formed(entries),
    ensures
        register_all(m, entries, h) is Some,
    decreases entries.len(),
{
    if entries.len() > 0 {
        let d = entries.drop_last();
        assert forall|i: int| 0 <= i < d.len() implies normalized_template(
            #[trigger] d[i].path@,
        ) is Some by {
            assert(d[i] == entries[i]);
        }
        lemma_register_all_some(m, d, h);
        assert(normalized_template(entries[entries.len() - 1].path@) is Some);
    }
}

proof fn lemma_register_each_some(
    m: Map<(HttpMethod, Seq<char>), Handler>,
    entries: Seq<(RouteSpec, Handler)>,
)
    requires
        special_templates_well_formed(entries),
    ensures
        register_each(m, entries) is Some,
    decreases entries.len(),
{
    if entries.len() > 0 {
        let d = entries.drop_last();
        assert forall|i: int| 0 <= i < d.len() implies normalized_template(
            #[trigger] d[i].0.path@,
        ) is Some by {
            assert(d[i] == entries[i]);
        }
        lemma_register_each_some(m, d);
        assert(normalized_template(entries[entries.len() - 1].0.path@) is Some);
    }
}

/// A module whose templates are all well formed always compiles.
pub proof fn lemma_module_bindings_some(table: Seq<RouteSpec>, specials: Seq<(RouteSpec, Handler)>)
    requires
        templates_well_formed(table),
        special_templates_well_formed(specials),
    ensures
        module_bindings(table, specials) is Some,
{
    lemma_register_all_some(Map::empty(), table, Handler::GenericMock);
    let m = register_all(Map::empty(), table, Handler::GenericMock)->Some_0;
    lemma_register_each_some(m, specials);
}

/// A compiled router fragment: the set of live (method, path) bindings.
pub struct RouteTable {
    routes: Vec<CompiledRoute>,
}

impl View for RouteTable {
    type V = Map<(HttpMethod, Seq<char>), Handler>;

    open spec fn view(&self) -> Map<(HttpMethod, Seq<char>), Handler> {
        bindings_of(self.routes_spec())
    }
}

proof fn lemma_bindings_index(s: Seq<CompiledRoute>, i: int)
    requires
        keys_unique(s),
        0 <= i < s.len(),
    ensures
        bindings_of(s).contains_key(route_key(s[i])),
        bindings_of(s)[route_key(s[i])] == s[i].handler,
{
    assert(bindings_of(s).dom().contains(route_key(s[i])));
}

impl RouteTable {
    pub closed spec fn routes_spec(&self) -> Seq<CompiledRoute> {
        self.routes@
    }

    /// Well-formed: at most one binding per method and path.
    pub open spec fn wf(&self) -> bool {
        keys_unique(self.routes_spec())
    }

    pub fn new() -> (r: Self)
        ensures
            r.wf(),
            r@ == Map::<(HttpMethod, Seq<char>), Handler>::empty(),
    {
        let r = RouteTable { routes: Vec::new() };
        assert(r@ =~= Map::<(HttpMethod, Seq<char>), Handler>::empty());
        r
    }

    /// The routes of the table, one per live binding.
    pub fn routes(&self) -> (r: &Vec<CompiledRoute>)
        requires
            self.wf(),
        ensures
            keys_unique(r@),
            bindings_of(r@) == self@,
    {
        &self.routes
    }




    /// The handler bound to `method` and `path`, if any.
    pub fn handler_for(&self, method: HttpMethod, path: &str) -> (r: Option<Handler>)
        requires
            self.wf(),
        ensures
            match r {
                Some(h) => self@.contains_key((method, path@)) && self@[(method, path@)] == h,
                None => !self@.contains_key((method, path@)),
            },
    {
        let n = self.routes.len();
        let mut i: usize = 0;
        while i < n
            invariant
                n == self.routes@.len(),
                i <= n,
                self.wf(),
                forall|k: int| 0 <= k < i ==> route_key(#[trigger] self.routes@[k]) != (method, path@),
            decreases n - i,
        {
            if self.routes[i].method == method && str_eq(self.routes[i].path.as_str(), path) {
                proof {
                    lemma_bindings_index(self.routes@, i as int);
                }
                return Some(self.routes[i].handler);
            }
            i = i + 1;
        }
        None
    }

    /// Compiles a module's fragment: every entry of `table` bound to the
    /// generic mock, then each hand-written `(route, handler)` of `specials`.
    /// Fails on the first malformed template.
    pub fn compile_module(table: &Vec<RouteSpec>, specials: &Vec<(RouteSpec, Handler)>) -> (r:
        Result<RouteTable, RouteError>)
        ensures
            match r {
                Ok(t) => t.wf() && module_bindings(table@, specials@) == Some(t@),
                Err(_) => module_bindings(table@, specials@) is None,
            },
    {
        let mut t = RouteTable::new();
        match t.add_routes(table, Handler::GenericMock) {
            Ok(()) => {},
            Err(e) => {
                return Err(e);
            },
        }
        let ghost base = t@;
        let n = specials.len();
        let mut i: usize = 0;
        assert(specials@.subrange(0, 0) =~= Seq::<(RouteSpec, Handler)>::empty());
        while i < n
            invariant
                n == specials@.len(),
                i <= n,
                t.wf(),
                register_all(Map::empty(), table@, Handler::GenericMock) == Some(base),
                register_each(base, specials@.subrange(0, i as int)) == Some(t@),
            decreases n - i,
        {
            assert(specials@.subrange(0, i + 1).drop_last() =~= specials@.subrange(0, i as int));
            assert(specials@.subrange(0, i + 1).last() == specials@[i as int]);
            let entry = &specials[i];
            match t.add_route(&entry.0, entry.1) {
                Ok(()) => {},
                Err(e) => {
                    proof {
                        lemma_register_each_failure_persists(base, specials@, i + 1);
                    }
                    return Err(e);
                },
            }
            i = i + 1;
        }
        assert(specials@.subrange(0, n as int) =~= specials@);
        Ok(t)
    }

    /// Registers one route with `handler`. The template is normalized; a method
    /// outside GET, POST, PUT and DELETE leaves the table unchanged.
    pub fn add_route(&mut self, spec: &RouteSpec, handler: Handler) -> (r: Result<(), RouteError>)
        requires
            old(self).wf(),
        ensures
            final(self).wf(),
            match r {
                Ok(()) => register(old(self)@, spec.method, spec.path@, handler) == Some(
                    final(self)@,
                ),
                Err(RouteError::MalformedTemplate(t)) => register(
                    old(self)@,
                    spec.method,
                    spec.path@,
                    handler,
                ) is None && t@ == spec.path@ && final(self)@ == old(self)@,
            },
    {
        match normalize_path(spec.path) {
            Ok(path) => {
                if spec.method.is_routable() {
                    self.bind(spec.method, path, handler);
                }
                Ok(())
            },
            Err(e) => Err(e),
        }
    }

    /// Registers every route of `entries`, in order, with `handler`. Stops at
    /// the first malformed template and reports it.
    pub fn add_routes(&mut self, entries: &Vec<RouteSpec>, handler: Handler) -> (r: Result<
        (),
        RouteError,
    >)
        requires
            old(self).wf(),
        ensures
            final(self).wf(),
            match r {
                Ok(()) => register_all(old(self)@, entries@, handler) == Some(final(self)@),
                Err(RouteError::MalformedTemplate(t)) => register_all(
                    old(self)@,
                    entries@,
                    handler,
                ) is None && exists|i: int|
                    0 <= i < entries@.len() && #[trigger] entries@[i].path@ == t@
                        && normalized_template(t@) is None,
            },
    {
        let n = entries.len();
        let mut i: usize = 0;
        assert(entries@.subrange(0, 0) =~= Seq::<RouteSpec>::empty());
        while i < n
            invariant
                n == entries@.len(),
                i <= n,
                self.wf(),
                register_all(old(self)@, entries@.subrange(0, i as int), handler) == Some(self@),
            decreases n - i,
        {
            assert(entries@.subrange(0, i + 1).drop_last() =~= entries@.subrange(0, i as int));
            assert(entries@.subrange(0, i + 1).last() == entries@[i as int]);
            match self.add_route(&entries[i], handler) {
                Ok(()) => {},
                Err(e) => {
                    proof {
                        lemma_register_all_failure_persists(
                            old(self)@,
                            entries@,
                            i + 1,
                            handler,
                        );
                    }
                    return Err(e);
                },
            }
            i = i + 1;
        }
        assert(entries@.subrange(0, n as int) =~= entries@);
        Ok(())
    }


    /// Mounts `fragment` under `prefix`: each of its bindings is registered
    /// with `prefix` before its path, in order, so that a binding of the
    /// fragment replaces one already held for the same method and full path.
    pub fn mount(&mut self, prefix: &str, fragment: &RouteTable)
        requires
            old(self).wf(),
            fragment.wf(),
        ensures
            final(self).wf(),
            final(self)@ == old(self)@.union_prefer_right(prefixed(prefix@, fragment@)),
    {
        let n = fragment.routes.len();
        let ghost fs = fragment.routes@;
        let mut j: usize = 0;
        proof {
            let none = Map::<(HttpMethod, Seq<char>), Handler>::empty();
            assert(bindings_of(fs.subrange(0, 0)) =~= none);
            assert(prefixed(prefix@, none) =~= none);
            assert(old(self)@.union_prefer_right(none) =~= old(self)@);
        }
        while j < n
            invariant
                n == fs.len(),
                fs == fragment.routes@,
                keys_unique(fs),
                j <= n,
                self.wf(),
                self@ == old(self)@.union_prefer_right(
                    prefixed(prefix@, bindings_of(fs.subrange(0, j as int))),
                ),
            decreases n - j,
        {
            let route = &fragment.routes[j];
            let mut full = prefix.to_owned();
            full.append(route.path.as_str());
            let ghost before = bindings_of(fs.subrange(0, j as int));
            proof {
                let s0 = fs.subrange(0, j as int);
                let s1 = fs.subrange(0, j + 1);
                lemma_keys_unique_prefix(fs, j as int);
                lemma_keys_unique_prefix(fs, j + 1);
                assert forall|k: int| 0 <= k < s0.len() implies route_key(#[trigger] s0[k])
                    != route_key(fs[j as int]) by {
                    assert(s0[k] == fs[k]);
                }
                let h = fs[j as int].handler;
                lemma_bind_view(s1, s0, j as int, route_key(fs[j as int]), h);
                lemma_prefixed_insert(prefix@, before, route_key(fs[j as int]), h);
                let a = old(self)@;
                let b = prefixed(prefix@, before);
                let key = (fs[j as int].method, prefix@ + fs[j as int].path@);
                assert(a.union_prefer_right(b.insert(key, h)) =~= a.union_prefer_right(b).insert(
                    key,
                    h,
                ));
            }
            self.bind(route.method, full, route.handler);
            j = j + 1;
        }
        assert(fs.subrange(0, n as int) =~= fs);
    }

    /// Binds `method` and `path` to `handler`. A binding already held for the
    /// same method and path is replaced: the last registration wins.
    pub fn bind(&mut self, method: HttpMethod, path: String, handler: Handler)
        requires
            old(self).wf(),
        ensures
            final(self).wf(),
            final(self)@ == old(self)@.insert((method, path@), handler),
    {
        let ghost s0 = self.routes@;
        let n = self.routes.len();
        let mut i: usize = 0;
        while i < n
            invariant
                self.routes@ == s0,
                old(self).routes@ == s0,
                keys_unique(s0),
                n == s0.len(),
                i <= n,
                forall|k: int| 0 <= k < i ==> route_key(#[trigger] s0[k]) != (method, path@),
            decreases n - i,
        {
            if self.routes[i].method == method && str_eq(self.routes[i].path.as_str(), path.as_str()) {
                let ghost key = (method, path@);
                let r = CompiledRoute { method, path, handler };
                self.routes.set(i, r);
                proof {
                    let s1 = self.routes@;
                    assert(route_key(s0[i as int]) == key);
                    assert forall|a: int, b: int|
                        0 <= a < s1.len() && 0 <= b < s1.len() && route_key(s1[a]) == route_key(
                            s1[b],
                        ) implies a == b by {
                        if a != i && b != i {
                            assert(route_key(s0[a]) == route_key(s0[b]));
                        } else if a == i && b != i {
                            assert(route_key(s0[b]) == route_key(s0[i as int]));
                        } else if a != i && b == i {
                            assert(route_key(s0[a]) == route_key(s0[i as int]));
                        }
                    }
                    lemma_bind_view(self.routes@, s0, i as int, key, handler);
                }
                return;
            }
            i = i + 1;
        }
        let ghost key = (method, path@);
        self.routes.push(CompiledRoute { method, path, handler });
        proof {
            let s1 = self.routes@;
            assert forall|a: int, b: int|
                0 <= a < s1.len() && 0 <= b < s1.len() && route_key(s1[a]) == route_key(
                    s1[b],
                ) implies a == b by {
                if a < n && b < n {
                    assert(route_key(s0[a]) == route_key(s0[b]));
                }
            }
            lemma_bind_view(self.routes@, s0, n as int, key, handler);
        }
    }

}

proof fn lemma_bind_view(
    s1: Seq<CompiledRoute>,
    s0: Seq<CompiledRoute>,
    i: int,
    key: (HttpMethod, Seq<char>),
    handler: Handler,
)
    requires
        keys_unique(s0),
        keys_unique(s1),
        0 <= i <= s0.len(),
        i < s0.len() ==> route_key(s0[i]) == key,
        i == s0.len() ==> forall|k: int| 0 <= k < s0.len() ==> route_key(#[trigger] s0[k]) != key,
        s1.len() == if i < s0.len() { s0.len() } else { s0.len() + 1 },
        forall|k: int| 0 <= k < s0.len() && k != i ==> s1[k] == s0[k],
        route_key(s1[i]) == key,
        s1[i].handler == handler,
    ensures
        bindings_of(s1) == bindings_of(s0).insert(key, handler),
{
    let m0 = bindings_of(s0);
    let m1 = bindings_of(s1);
    assert forall|k: (HttpMethod, Seq<char>)| m1.contains_key(k) <==> m0.insert(
        key,
        handler,
    ).contains_key(k) by {
        if m1.contains_key(k) {
            let j = choose|j: int| 0 <= j < s1.len() && route_key(s1[j]) == k;
            if j != i {
                assert(route_key(s0[j]) == k);
            }
        }
        if m0.contains_key(k) && k != key {
            let j = choose|j: int| 0 <= j < s0.len() && route_key(s0[j]) == k;
            assert(j != i);
            assert(route_key(s1[j]) == k);
        }
        if k == key {
            assert(route_key(s1[i]) == k);
        }
    }
    assert(m1.dom() =~= m0.insert(key, handler).dom());
    assert forall|k: (HttpMethod, Seq<char>)| #[trigger]
        m1.contains_key(k) implies m1[k] == m0.insert(key, handler)[k] by {
        let j = choose|j: int| 0 <= j < s1.len() && route_key(s1[j]) == k;
        lemma_bindings_index(s1, j);
        if k != key {
            assert(j != i);
            assert(s1[j] == s0[j]);
            lemma_bindings_index(s0, j);
        } else {
            assert(j == i);
        }
    }
    assert(m1 =~= m0.insert(key, handler));
}

} // verus!
