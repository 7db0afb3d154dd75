use daoyi_gateway::path::{normalize_path, RouteError};

#[test]
fn placeholder_and_wildcard_use_router_syntax() {
    let p = normalize_path("/infra/file/{configId}/get/**").unwrap();
    assert_eq!(p, "/infra/file/{configId}/get/{**rest}");
}

#[test]
fn relative_template_gets_leading_separator() {
    assert_eq!(normalize_path("system/user/page").unwrap(), "/system/user/page");
    assert_eq!(normalize_path("").unwrap(), "/");
}

#[test]
fn absolute_template_is_kept() {
    assert_eq!(normalize_path("/system/user/page").unwrap(), "/system/user/page");
}

#[test]
fn bare_wildcard_template() {
    assert_eq!(normalize_path("**").unwrap(), "/{**rest}");
}

#[test]
fn wildcard_inside_path_is_literal() {
    assert_eq!(normalize_path("/a/**/b").unwrap(), "/a/**/b");
    assert_eq!(normalize_path("/a/x**").unwrap(), "/a/x**");
}

#[test]
fn normalizing_twice_changes_nothing() {
    for t in ["/infra/file/{configId}/get/**", "a/{b}/c", "/x/**", "", "/plain"] {
        let once = normalize_path(t).unwrap();
        let twice = normalize_path(&once).unwrap();
        assert_eq!(once, twice);
    }
}

#[test]
fn malformed_templates_are_refused() {
    for t in ["/a/{id", "/a/id}", "/a/{}", "/a/{{id}}", "/a/{x/y}", "}"] {
        assert_eq!(
            normalize_path(t),
            Err(RouteError::MalformedTemplate(t.to_string()))
        );
    }
}
