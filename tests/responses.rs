use daoyi_gateway::cors::{build_cors, CorsPolicy};
use daoyi_gateway::infra::{get_value_by_key, presigned_url, redis_monitor, upload_mock};
use daoyi_gateway::method::HttpMethod;
use daoyi_gateway::system::{
    auth_login, build_auth_resp, captcha_check, captcha_get, permission_info, refresh_token,
    simple_true,
};
use daoyi_gateway::web::{fallback_not_found, generic_ok, health, BodyKind, CaptchaResponse, CommonResult};

#[test]
fn wildcard_origin_admits_any() {
    let p = build_cors(vec!["*".to_string()]);
    assert!(matches!(p, CorsPolicy::AnyOrigin));
    assert!(p.allows("https://b.example"));
    assert!(p.allows("http://anything"));
}

#[test]
fn listed_origin_only() {
    let p = build_cors(vec!["https://a.example".to_string()]);
    assert!(p.allows("https://a.example"));
    assert!(!p.allows("https://b.example"));
}

#[test]
fn wildcard_among_others_admits_any() {
    let p = build_cors(vec!["https://a.example".to_string(), "*".to_string()]);
    assert!(p.allows("https://c.example"));
}

#[test]
fn generic_envelope_success() {
    let r = CommonResult::success(5u8);
    assert_eq!(r.code, 0);
    assert_eq!(r.msg, "");
    assert_eq!(r.data, 5);
}

#[test]
fn captcha_envelope_success() {
    let r = CaptchaResponse::success(1u8);
    assert_eq!(r.rep_code, "0000");
    assert_eq!(r.rep_msg, "mock success");
}

#[test]
fn generic_mock_echoes_request() {
    let r = generic_ok("/admin-api/system/user/page", HttpMethod::Get);
    assert_eq!(r.code, 0);
    assert_eq!(r.msg, "");
    assert!(r.data.mock);
    assert_eq!(r.data.path, "/admin-api/system/user/page");
    assert_eq!(r.data.method, "GET");
}

#[test]
fn health_is_ok() {
    let r = health();
    assert_eq!(r.status, 200);
    assert_eq!(r.kind, BodyKind::PlainText);
    assert_eq!(r.body, "ok");
}

#[test]
fn unmatched_route_is_404_naming_path() {
    let r = fallback_not_found("/does/not/exist");
    assert_eq!(r.status, 404);
    assert_eq!(r.kind, BodyKind::Json);
    assert_eq!(r.body, "{\"code\":404,\"message\":\"gateway route not found: /does/not/exist\"}");
    assert!(r.body.contains("/does/not/exist"));
}

#[test]
fn not_found_escapes_quotes() {
    let r = fallback_not_found("/a\"b\\c");
    assert_eq!(r.body, "{\"code\":404,\"message\":\"gateway route not found: /a\\\"b\\\\c\"}");
}

#[test]
fn not_found_escapes_control_characters() {
    let r = fallback_not_found("/a\u{1}b\u{1f}c\n");
    assert_eq!(
        r.body,
        "{\"code\":404,\"message\":\"gateway route not found: /a\\u0001b\\u001fc\\u000a\"}"
    );
    let v: serde_json::Value = serde_json::from_str(&r.body).unwrap();
    assert_eq!(v["message"], "gateway route not found: /a\u{1}b\u{1f}c\n");
}

#[test]
fn config_value_lookup() {
    let r = get_value_by_key("file.domain");
    assert_eq!(r.code, 0);
    assert_eq!(r.data, "http://localhost:18080");
    assert_eq!(get_value_by_key("other").data, "");
}

#[test]
fn file_mocks() {
    let u = upload_mock();
    assert_eq!(u.data.id, "mock-file-id");
    assert_eq!(u.data.url, "http://localhost:18080/mock-file");
    assert_eq!(presigned_url().data, "http://localhost:18080/mock-file");
    let m = redis_monitor();
    assert_eq!(m.data.info, "mock");
    assert!(!m.data.connected);
}

#[test]
fn login_token_expires_four_hours_later() {
    let r = build_auth_resp(1_700_000_000_000);
    assert_eq!(r.user_id, 1);
    assert_eq!(r.access_token, "mock-access-token");
    assert_eq!(r.refresh_token, "mock-refresh-token");
    assert_eq!(r.expires_time_millis, 1_700_014_400_000);
    let l = auth_login(0);
    assert_eq!(l.code, 0);
    assert_eq!(l.data.expires_time_millis, 14_400_000);
    assert_eq!(l.data.refresh_token, "mock-refresh-token");
    assert_eq!(refresh_token(10).data.access_token, "mock-access-token");
    assert_eq!(refresh_token(10).data.expires_time_millis, 14_400_010);
    assert!(simple_true().data);
}

#[test]
fn permission_tree() {
    let p = permission_info();
    assert_eq!(p.code, 0);
    assert_eq!(p.data.user.username, "admin");
    assert_eq!(p.data.user.nickname, "Admin");
    assert_eq!(p.data.user.dept_id, 1);
    assert_eq!(p.data.user.email, "admin@example.com");
    assert_eq!(p.data.user.avatar, "https://dummyimage.com/120x120/1890ff/ffffff&text=DAOYI");
    assert_eq!(p.data.roles, vec!["super_admin".to_string()]);
    assert_eq!(p.data.permissions, vec!["*:*:*".to_string()]);
    assert_eq!(p.data.menus.len(), 2);
    assert_eq!(p.data.menus[1].children[0].name, "User Management");
    assert_eq!(p.data.menus[1].children[0].parent_id, p.data.menus[1].id);
    assert!(p.data.menus[1].children[0].children.is_empty());
}

#[test]
fn captcha_pair() {
    let g = captcha_get();
    assert_eq!(g.rep_code, "0000");
    assert_eq!(g.rep_data.captcha_type, "blockPuzzle");
    assert_eq!(g.rep_data.point, (15, 8));
    let c = captcha_check();
    assert_eq!(c.rep_code, "0000");
    assert!(c.rep_data.result);
}
