use daoyi_gateway::config::GatewayConfig;
use daoyi_gateway::cors::CorsPolicy;
use daoyi_gateway::gateway::build_router;
use daoyi_gateway::infra::{infra_router, infra_routes, infra_specials, InfraModule};
use daoyi_gateway::init_framework;
use daoyi_gateway::method::HttpMethod;
use daoyi_gateway::module::{
    describe_modules, AiModule, BpmModule, CrmModule, ErpModule, IotModule, MallModule,
    MemberModule, Module, MpModule, PayModule, ReportModule,
};
use daoyi_gateway::route::Handler;
use daoyi_gateway::system::{system_router, system_routes, system_specials, SystemModule};

#[test]
fn module_names_in_order() {
    let modules: [&dyn Module; 12] = [
        &SystemModule,
        &InfraModule,
        &MemberModule,
        &BpmModule,
        &PayModule,
        &ReportModule,
        &MpModule,
        &MallModule,
        &CrmModule,
        &ErpModule,
        &AiModule,
        &IotModule,
    ];
    let names = describe_modules(&modules);
    assert_eq!(names.len(), 12);
    assert_eq!(names[0], "daoyi-module-system");
    assert_eq!(names[1], "daoyi-module-infra");
    assert_eq!(names[11], "daoyi-module-iot");
    assert!(describe_modules(&[]).is_empty());
}

#[test]
fn infra_fragment_compiles() {
    let t = infra_router().unwrap();
    assert_eq!(t.routes().len(), 96);
    assert_eq!(
        t.handler_for(HttpMethod::Get, "/infra/config/get-value-by-key"),
        Some(Handler::ConfigValueByKey)
    );
    assert_eq!(
        t.handler_for(HttpMethod::Get, "/infra/file/{configId}/get/{**rest}"),
        Some(Handler::GenericMock)
    );
    assert_eq!(t.handler_for(HttpMethod::Post, "/infra/file/create"), Some(Handler::FileUpload));
    assert!(InfraModule::router().is_ok());
}

#[test]
fn system_fragment_compiles() {
    let t = system_router().unwrap();
    assert_eq!(t.handler_for(HttpMethod::Post, "/system/auth/login"), Some(Handler::AuthLogin));
    assert_eq!(
        t.handler_for(HttpMethod::Get, "/system/auth/get-permission-info"),
        Some(Handler::PermissionInfo)
    );
    assert_eq!(t.handler_for(HttpMethod::Post, "/system/captcha/get"), Some(Handler::CaptchaGet));
    assert!(SystemModule::router().is_ok());
}

#[test]
fn gateway_mounts_modules_under_prefix() {
    let frags = vec![system_router().unwrap(), infra_router().unwrap()];
    let n = frags[0].routes().len() + frags[1].routes().len();
    let g = build_router(GatewayConfig::default(), &frags);
    assert_eq!(g.listen, "0.0.0.0:8080");
    assert!(matches!(g.cors, CorsPolicy::AnyOrigin));
    assert_eq!(g.routes.routes().len(), n);
    assert_eq!(
        g.routes.handler_for(HttpMethod::Post, "/admin-api/system/auth/login"),
        Some(Handler::AuthLogin)
    );
    assert_eq!(
        g.routes.handler_for(HttpMethod::Get, "/admin-api/infra/file/page"),
        Some(Handler::GenericMock)
    );
}

#[test]
fn framework_init_line() {
    assert_eq!(init_framework(), "framework initialized (skeleton)");
}

#[test]
fn module_tables_have_their_entries() {
    assert_eq!(infra_routes().len(), 96);
    assert_eq!(infra_specials().len(), 5);
    assert_eq!(system_routes().len(), 182);
    assert_eq!(system_specials().len(), 6);
    let t = system_router().unwrap();
    for e in system_routes() {
        let h = t.handler_for(e.method, e.path);
        assert!(h.is_some(), "{} unbound", e.path);
    }
    for (e, h) in system_specials() {
        assert_eq!(t.handler_for(e.method, e.path), Some(h));
    }
    let i = infra_router().unwrap();
    for (e, h) in infra_specials() {
        assert_eq!(i.handler_for(e.method, e.path), Some(h));
    }
}
