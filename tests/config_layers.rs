use daoyi_gateway::config::{resolve_config, ConfigLayer, FrameworkConfig, GatewayConfig};

fn layer(listen: Option<&str>, origins: Option<Vec<&str>>) -> Option<ConfigLayer> {
    Some(ConfigLayer {
        listen: listen.map(|s| s.to_string()),
        allow_origins: origins.map(|v| v.into_iter().map(|s| s.to_string()).collect()),
    })
}

#[test]
fn defaults_are_listen_8080_and_any_origin() {
    let d = GatewayConfig::default();
    assert_eq!(d.listen, "0.0.0.0:8080");
    assert_eq!(d.allow_origins, vec!["*".to_string()]);
}

#[test]
fn file_layer_overrides_default() {
    let r = resolve_config(GatewayConfig::default(), vec![layer(Some("0.0.0.0:9090"), None), None]);
    assert_eq!(r.listen, "0.0.0.0:9090");
    assert_eq!(r.allow_origins, vec!["*".to_string()]);
}

#[test]
fn environment_overrides_files() {
    let r = resolve_config(
        GatewayConfig::default(),
        vec![
            layer(Some("0.0.0.0:9090"), Some(vec!["https://a.example"])),
            layer(Some("0.0.0.0:9191"), None),
            layer(Some("127.0.0.1:7000"), None),
        ],
    );
    assert_eq!(r.listen, "127.0.0.1:7000");
    assert_eq!(r.allow_origins, vec!["https://a.example".to_string()]);
}

#[test]
fn higher_layer_without_key_keeps_lower_value() {
    let r = resolve_config(
        GatewayConfig::default(),
        vec![layer(None, Some(vec!["https://a.example", "https://b.example"])), layer(None, None)],
    );
    assert_eq!(r.listen, "0.0.0.0:8080");
    assert_eq!(r.allow_origins.len(), 2);
}

#[test]
fn all_layers_absent_gives_defaults() {
    let r = resolve_config(GatewayConfig::default(), vec![None, None, None]);
    assert_eq!(r.listen, "0.0.0.0:8080");
    assert_eq!(r.allow_origins, vec!["*".to_string()]);
    let r = resolve_config(GatewayConfig::default(), vec![]);
    assert_eq!(r.listen, "0.0.0.0:8080");
}

#[test]
fn framework_defaults() {
    let f = FrameworkConfig::default();
    assert_eq!(f.service_name, "daoyi-cloud-rs");
    assert_eq!(f.http_port, 18080);
    assert_eq!(f.nacos_endpoint, "http://127.0.0.1:8848");
    assert_eq!(f.redis_url, "redis://127.0.0.1:6379");
}
