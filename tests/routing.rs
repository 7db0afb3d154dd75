use daoyi_gateway::gateway::{mount_modules, API_PREFIX};
use daoyi_gateway::method::HttpMethod;
use daoyi_gateway::path::RouteError;
use daoyi_gateway::route::{Handler, RouteSpec, RouteTable};

#[test]
fn last_registration_wins() {
    let mut t = RouteTable::new();
    t.add_route(&RouteSpec::new(HttpMethod::Get, "/a/b"), Handler::GenericMock).unwrap();
    t.add_route(&RouteSpec::new(HttpMethod::Get, "a/b"), Handler::PresignedUrl).unwrap();
    assert_eq!(t.routes().len(), 1);
    assert_eq!(t.handler_for(HttpMethod::Get, "/a/b"), Some(Handler::PresignedUrl));
}

#[test]
fn same_path_other_method_is_another_binding() {
    let mut t = RouteTable::new();
    t.add_route(&RouteSpec::new(HttpMethod::Get, "/a"), Handler::GenericMock).unwrap();
    t.add_route(&RouteSpec::new(HttpMethod::Post, "/a"), Handler::FileUpload).unwrap();
    assert_eq!(t.routes().len(), 2);
    assert_eq!(t.handler_for(HttpMethod::Get, "/a"), Some(Handler::GenericMock));
    assert_eq!(t.handler_for(HttpMethod::Post, "/a"), Some(Handler::FileUpload));
}

#[test]
fn unsupported_methods_are_skipped() {
    let mut t = RouteTable::new();
    t.add_route(&RouteSpec::new(HttpMethod::Patch, "/a"), Handler::GenericMock).unwrap();
    t.add_route(&RouteSpec::new(HttpMethod::Head, "/b"), Handler::GenericMock).unwrap();
    assert_eq!(t.routes().len(), 0);
    assert_eq!(t.handler_for(HttpMethod::Patch, "/a"), None);
}

#[test]
fn table_compiles_in_order_and_fails_fast() {
    let mut t = RouteTable::new();
    let entries = vec![
        RouteSpec::new(HttpMethod::Get, "/x/{id}"),
        RouteSpec::new(HttpMethod::Get, "/y/{id"),
        RouteSpec::new(HttpMethod::Get, "/z"),
    ];
    let r = t.add_routes(&entries, Handler::GenericMock);
    assert_eq!(r, Err(RouteError::MalformedTemplate("/y/{id".to_string())));
}

#[test]
fn specials_take_precedence_over_table() {
    let table = vec![
        RouteSpec::new(HttpMethod::Post, "/auth/login"),
        RouteSpec::new(HttpMethod::Get, "/user/page"),
    ];
    let specials = vec![(RouteSpec::new(HttpMethod::Post, "/auth/login"), Handler::AuthLogin)];
    let t = RouteTable::compile_module(&table, &specials).unwrap();
    assert_eq!(t.routes().len(), 2);
    assert_eq!(t.handler_for(HttpMethod::Post, "/auth/login"), Some(Handler::AuthLogin));
    assert_eq!(t.handler_for(HttpMethod::Get, "/user/page"), Some(Handler::GenericMock));
}

#[test]
fn wildcard_route_is_bound_in_router_syntax() {
    let mut t = RouteTable::new();
    t.add_route(&RouteSpec::new(HttpMethod::Get, "/infra/file/{configId}/get/**"), Handler::GenericMock)
        .unwrap();
    assert_eq!(
        t.handler_for(HttpMethod::Get, "/infra/file/{configId}/get/{**rest}"),
        Some(Handler::GenericMock)
    );
}

#[test]
fn fragments_mount_under_prefix_last_wins() {
    let mut a = RouteTable::new();
    a.add_route(&RouteSpec::new(HttpMethod::Get, "/shared"), Handler::GenericMock).unwrap();
    a.add_route(&RouteSpec::new(HttpMethod::Get, "/only-a"), Handler::GenericMock).unwrap();
    let mut b = RouteTable::new();
    b.add_route(&RouteSpec::new(HttpMethod::Get, "/shared"), Handler::RedisMonitor).unwrap();
    let all = mount_modules(API_PREFIX, &vec![a, b]);
    assert_eq!(all.routes().len(), 2);
    assert_eq!(all.handler_for(HttpMethod::Get, "/admin-api/shared"), Some(Handler::RedisMonitor));
    assert_eq!(all.handler_for(HttpMethod::Get, "/admin-api/only-a"), Some(Handler::GenericMock));
    assert_eq!(all.handler_for(HttpMethod::Get, "/shared"), None);
}

#[test]
fn method_tokens_round_trip() {
    for m in [
        HttpMethod::Get,
        HttpMethod::Post,
        HttpMethod::Put,
        HttpMethod::Delete,
        HttpMethod::Head,
        HttpMethod::Options,
        HttpMethod::Patch,
        HttpMethod::Connect,
        HttpMethod::Trace,
    ] {
        assert_eq!(HttpMethod::from_token(m.as_str()), Some(m));
    }
    assert_eq!(HttpMethod::from_token("get"), None);
    assert_eq!(HttpMethod::Delete.as_str(), "DELETE");
    assert!(HttpMethod::Put.is_routable());
    assert!(!HttpMethod::Options.is_routable());
}
