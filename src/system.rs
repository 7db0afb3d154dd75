use vstd::prelude::*;
use crate::method::HttpMethod;
use crate::module::Module;
use crate::path::{RouteError, lemma_plain_template};
use crate::route::{
    Handler, RouteSpec, RouteTable, lemma_module_bindings_some, lemma_templates_well_formed_concat,
    module_bindings, special_templates_well_formed, templates_well_formed,
};
use crate::web::{CaptchaResponse, CommonResult};

verus! {

/// The system module: authentication, users, menus, dictionaries.
pub struct SystemModule;

impl Module for SystemModule {
    open spec fn spec_name(&self) -> Seq<char> {
        "daoyi-module-system"@
    }

    fn name(&self) -> (r: &'static str) {
        "daoyi-module-system"
    }
}

impl SystemModule {
    /// The module's router fragment.
    pub fn router() -> (r: Result<RouteTable, RouteError>)
        ensures
            r is Ok,
            r->Ok_0.wf(),
            module_bindings(system_table(), system_special_table()) == Some(r->Ok_0@),
    {
        system_router()
    }
}

/// Compiles the system module's fragment: its declarative table on the
/// generic mock, then the hand-written endpoints.
pub fn system_router() -> (r: Result<RouteTable, RouteError>)
    ensures
        r is Ok,
        r->Ok_0.wf(),
        module_bindings(system_table(), system_special_table()) == Some(r->Ok_0@),
{
    proof {
        lemma_system_templates_well_formed();
        lemma_module_bindings_some(system_table(), system_special_table());
    }
    RouteTable::compile_module(&system_routes(), &system_specials())
}

/// The routes that have an implementation of their own.
pub fn system_specials() -> (r: Vec<(RouteSpec, Handler)>)
    ensures
        r@ == system_special_table(),
{
    vec![
        (RouteSpec { method: HttpMethod::Post, path: "/system/auth/login" }, Handler::AuthLogin),
        (
            RouteSpec { method: HttpMethod::Post, path: "/system/auth/refresh-token" },
            Handler::RefreshToken,
        ),
        (RouteSpec { method: HttpMethod::Post, path: "/system/auth/logout" }, Handler::Logout),
        (
            RouteSpec { method: HttpMethod::Get, path: "/system/auth/get-permission-info" },
            Handler::PermissionInfo,
        ),
        (RouteSpec { method: HttpMethod::Post, path: "/system/captcha/get" }, Handler::CaptchaGet),
        (
            RouteSpec { method: HttpMethod::Post, path: "/system/captcha/check" },
            Handler::CaptchaCheck,
        ),
    ]
}

/// How long an issued access token stays valid, in milliseconds: four hours.
pub const TOKEN_LIFETIME_MILLIS: i64 = 14_400_000;

/// The tokens handed out at login, with their expiry as milliseconds since
/// the Unix epoch.
#[derive(Debug)]
pub struct AuthLoginResp {
    pub user_id: u64,
    pub access_token: String,
    pub refresh_token: String,
    pub expires_time_millis: i64,
}

/// The mock tokens of user 1, expiring four hours after `now_millis`.
pub fn build_auth_resp(now_millis: i64) -> (r: AuthLoginResp)
    requires
        now_millis <= i64::MAX - TOKEN_LIFETIME_MILLIS,
    ensures
        r.user_id == 1,
        r.access_token@ == "mock-access-token"@,
        r.refresh_token@ == "mock-refresh-token"@,
        r.expires_time_millis == now_millis + TOKEN_LIFETIME_MILLIS,
{
    AuthLoginResp {
        user_id: 1,
        access_token: "mock-access-token".to_owned(),
        refresh_token: "mock-refresh-token".to_owned(),
        expires_time_millis: now_millis + TOKEN_LIFETIME_MILLIS,
    }
}

/// The answer to a login.
pub fn auth_login(now_millis: i64) -> (r: CommonResult<AuthLoginResp>)
    requires
        now_millis <= i64::MAX - TOKEN_LIFETIME_MILLIS,
    ensures
        r.is_success(),
        r.data.user_id == 1,
        r.data.access_token@ == "mock-access-token"@,
        r.data.refresh_token@ == "mock-refresh-token"@,
        r.data.expires_time_millis == now_millis + TOKEN_LIFETIME_MILLIS,
{
    CommonResult::success(build_auth_resp(now_millis))
}

/// The answer to a token refresh: new tokens, as at login.
pub fn refresh_token(now_millis: i64) -> (r: CommonResult<AuthLoginResp>)
    requires
        now_millis <= i64::MAX - TOKEN_LIFETIME_MILLIS,
    ensures
        r.is_success(),
        r.data.user_id == 1,
        r.data.access_token@ == "mock-access-token"@,
        r.data.refresh_token@ == "mock-refresh-token"@,
        r.data.expires_time_millis == now_millis + TOKEN_LIFETIME_MILLIS,
{
    CommonResult::success(build_auth_resp(now_millis))
}

/// An acknowledgement that carries `true`.
pub fn simple_true() -> (r: CommonResult<bool>)
    ensures
        r.is_success(),
        r.data,
{
    CommonResult::success(true)
}

/// The signed-in user.
#[derive(Debug)]
pub struct UserInfo {
    pub id: u64,
    pub nickname: String,
    pub avatar: String,
    pub dept_id: u64,
    pub username: String,
    pub email: String,
}

/// One entry of the navigation menu, with its sub-entries.
#[derive(Debug)]
pub struct MenuInfo {
    pub id: u64,
    pub parent_id: u64,
    pub name: String,
    pub path: String,
    pub component: String,
    pub component_name: String,
    pub icon: String,
    pub visible: bool,
    pub keep_alive: bool,
    pub always_show: bool,
    pub children: Vec<MenuInfo>,
}

/// The user, their roles and permissions, and the menu tree they may see.
#[derive(Debug)]
pub struct PermissionInfo {
    pub user: UserInfo,
    pub roles: Vec<String>,
    pub permissions: Vec<String>,
    pub menus: Vec<MenuInfo>,
}

/// The mock permission data: an administrator with every permission, a
/// dashboard menu and a system menu holding user management.
pub fn permission_info() -> (r: CommonResult<PermissionInfo>)
    ensures
        r.is_success(),
        r.data.user.id == 1,
        r.data.user.nickname@ == "Admin"@,
        r.data.user.avatar@ == "https://dummyimage.com/120x120/1890ff/ffffff&text=DAOYI"@,
        r.data.user.dept_id == 1,
        r.data.user.username@ == "admin"@,
        r.data.user.email@ == "admin@example.com"@,
        r.data.roles@.len() == 1,
        r.data.roles@[0]@ == "super_admin"@,
        r.data.permissions@.len() == 1,
        r.data.permissions@[0]@ == "*:*:*"@,
        r.data.menus@.len() == 2,
        r.data.menus@[0].id == 1 && r.data.menus@[0].parent_id == 0,
        r.data.menus@[0].children@.len() == 0,
        r.data.menus@[1].id == 2 && r.data.menus@[1].parent_id == 0,
        r.data.menus@[1].children@.len() == 1,
        r.data.menus@[1].children@[0].id == 3,
        r.data.menus@[1].children@[0].parent_id == 2,
        r.data.menus@[1].children@[0].children@.len() == 0,
{
    let menu_dashboard = MenuInfo {
        id: 1,
        parent_id: 0,
        name: "Dashboard".to_owned(),
        path: "/dashboard".to_owned(),
        component: "dashboard/Analysis".to_owned(),
        component_name: "DashboardAnalysis".to_owned(),
        icon: "ion:grid-outline".to_owned(),
        visible: true,
        keep_alive: true,
        always_show: true,
        children: Vec::new(),
    };
    let menu_user = MenuInfo {
        id: 3,
        parent_id: 2,
        name: "User Management".to_owned(),
        path: "user".to_owned(),
        component: "system/user/index".to_owned(),
        component_name: "SystemUser".to_owned(),
        icon: "ion:person-outline".to_owned(),
        visible: true,
        keep_alive: true,
        always_show: false,
        children: Vec::new(),
    };
    let mut system_children: Vec<MenuInfo> = Vec::new();
    system_children.push(menu_user);
    let menu_system = MenuInfo {
        id: 2,
        parent_id: 0,
        name: "System".to_owned(),
        path: "/system".to_owned(),
        component: "LAYOUT".to_owned(),
        component_name: "SystemLayout".to_owned(),
        icon: "ion:settings-outline".to_owned(),
        visible: true,
        keep_alive: true,
        always_show: true,
        children: system_children,
    };
    let mut roles: Vec<String> = Vec::new();
    roles.push("super_admin".to_owned());
    let mut permissions: Vec<String> = Vec::new();
    permissions.push("*:*:*".to_owned());
    let mut menus: Vec<MenuInfo> = Vec::new();
    menus.push(menu_dashboard);
    menus.push(menu_system);
    let info = PermissionInfo {
        user: UserInfo {
            id: 1,
            nickname: "Admin".to_owned(),
            avatar: "https://dummyimage.com/120x120/1890ff/ffffff&text=DAOYI".to_owned(),
            dept_id: 1,
            username: "admin".to_owned(),
            email: "admin@example.com".to_owned(),
        },
        roles,
        permissions,
        menus,
    };
    CommonResult::success(info)
}

/// The puzzle a captcha challenge asks to solve.
#[derive(Debug)]
pub struct CaptchaPayload {
    pub captcha_type: String,
    pub token: String,
    pub captcha_id: String,
    pub original_image_base64: String,
    pub jigsaw_image_base64: String,
    pub point: (u16, u16),
}

/// The mock captcha challenge: a block puzzle with empty images.
pub fn captcha_get() -> (r: CaptchaResponse<CaptchaPayload>)
    ensures
        r.is_success(),
        r.rep_data.captcha_type@ == "blockPuzzle"@,
        r.rep_data.token@ == "mock-captcha-token"@,
        r.rep_data.captcha_id@ == "mock-captcha-id"@,
        r.rep_data.original_image_base64@.len() == 0,
        r.rep_data.jigsaw_image_base64@.len() == 0,
        r.rep_data.point == (15u16, 8u16),
{
    CaptchaResponse::success(
        CaptchaPayload {
            captcha_type: "blockPuzzle".to_owned(),
            token: "mock-captcha-token".to_owned(),
            captcha_id: "mock-captcha-id".to_owned(),
            original_image_base64: String::new(),
            jigsaw_image_base64: String::new(),
            point: (15, 8),
        },
    )
}

/// The verdict on a captcha answer.
#[derive(Debug)]
pub struct CaptchaCheckResult {
    pub result: bool,
}

/// The mock captcha check: every answer passes.
pub fn captcha_check() -> (r: CaptchaResponse<CaptchaCheckResult>)
    ensures
        r.is_success(),
        r.rep_data.result,
{
    CaptchaResponse::success(CaptchaCheckResult { result: true })
}

/// The module's declarative route table, answered by the generic mock.
pub fn system_routes() -> (r: Vec<RouteSpec>)
    ensures
        r@ == system_table(),
{
    let mut r = vec![
        RouteSpec { method: HttpMethod::Delete, path: "/system/dept/delete-list" },
        RouteSpec { method: HttpMethod::Delete, path: "/system/deptdelete" },
        RouteSpec { method: HttpMethod::Delete, path: "/system/dict-data/delete" },
        RouteSpec { method: HttpMethod::Delete, path: "/system/dict-data/delete-list" },
        RouteSpec { method: HttpMethod::Delete, path: "/system/dict-type/delete" },
        RouteSpec { method: HttpMethod::Delete, path: "/system/dict-type/delete-list" },
        RouteSpec { method: HttpMethod::Delete, path: "/system/mail-account/delete" },
        RouteSpec { method: HttpMethod::Delete, path: "/system/mail-account/delete-list" },
        RouteSpec { method: HttpMethod::Delete, path: "/system/mail-template/delete" },
        RouteSpec { method: HttpMethod::Delete, path: "/system/mail-template/delete-list" },
        RouteSpec { method: HttpMethod::Delete, path: "/system/menu/delete" },
        RouteSpec { method: HttpMethod::Delete, path: "/system/menu/delete-list" },
        RouteSpec { method: HttpMethod::Delete, path: "/system/notice/delete" },
        RouteSpec { method: HttpMethod::Delete, path: "/system/notice/delete-list" },
        RouteSpec { method: HttpMethod::Delete, path: "/system/notify-template/delete" },
        RouteSpec { method: HttpMethod::Delete, path: "/system/notify-template/delete-list" },
        RouteSpec { method: HttpMethod::Delete, path: "/system/oauth2-client/delete" },
        RouteSpec { method: HttpMethod::Delete, path: "/system/oauth2-client/delete-list" },
        RouteSpec { method: HttpMethod::Delete, path: "/system/oauth2-token/delete" },
        RouteSpec { method: HttpMethod::Delete, path: "/system/oauth2-token/delete-list" },
        RouteSpec { method: HttpMethod::Delete, path: "/system/oauth2/token" },
        RouteSpec { method: HttpMethod::Delete, path: "/system/post/delete" },
        RouteSpec { method: HttpMethod::Delete, path: "/system/role/delete" },
        RouteSpec { method: HttpMethod::Delete, path: "/system/role/delete-list" },
        RouteSpec { method: HttpMethod::Delete, path: "/system/sms-template/delete" },
        RouteSpec { method: HttpMethod::Delete, path: "/system/sms-template/delete-list" },
    ];
    let mut part = vec![
        RouteSpec { method: HttpMethod::Delete, path: "/system/social-client/delete" },
        RouteSpec { method: HttpMethod::Delete, path: "/system/social-client/delete-list" },
        RouteSpec { method: HttpMethod::Delete, path: "/system/social-user/unbind" },
        RouteSpec { method: HttpMethod::Delete, path: "/system/tenant-package/delete" },
        RouteSpec { method: HttpMethod::Delete, path: "/system/tenant-package/delete-list" },
        RouteSpec { method: HttpMethod::Delete, path: "/system/tenant/delete" },
        RouteSpec { method: HttpMethod::Delete, path: "/system/tenant/delete-list" },
        RouteSpec { method: HttpMethod::Delete, path: "/system/user/delete" },
        RouteSpec { method: HttpMethod::Delete, path: "/system/user/delete-list" },
        RouteSpec { method: HttpMethod::Delete, path: "/system/sms-channel/delete" },
        RouteSpec { method: HttpMethod::Delete, path: "/system/sms-channel/delete-list" },
        RouteSpec { method: HttpMethod::Get, path: "/system/area/get-by-ip" },
        RouteSpec { method: HttpMethod::Get, path: "/system/area/tree" },
        RouteSpec { method: HttpMethod::Get, path: "/system/auth/social-auth-redirect" },
        RouteSpec { method: HttpMethod::Get, path: "/system/dept/get" },
        RouteSpec { method: HttpMethod::Get, path: "/system/dept/list" },
        RouteSpec { method: HttpMethod::Get, path: "/system/dept/list-all-simple" },
        RouteSpec { method: HttpMethod::Get, path: "/system/dict-data/export-excel" },
        RouteSpec { method: HttpMethod::Get, path: "/system/dict-data/get" },
        RouteSpec { method: HttpMethod::Get, path: "/system/dict-data/list-all-simple" },
        RouteSpec { method: HttpMethod::Get, path: "/system/dict-data/page" },
        RouteSpec { method: HttpMethod::Get, path: "/system/dict-data/type" },
        RouteSpec { method: HttpMethod::Get, path: "/system/dict-type/export-excel" },
        RouteSpec { method: HttpMethod::Get, path: "/system/dict-type/get" },
        RouteSpec { method: HttpMethod::Get, path: "/system/dict-type/list-all-simple" },
        RouteSpec { method: HttpMethod::Get, path: "/system/dict-type/page" },
    ];
    r.append(&mut part);
    let mut part = vec![
        RouteSpec { method: HttpMethod::Get, path: "/system/login-log/export-excel" },
        RouteSpec { method: HttpMethod::Get, path: "/system/login-log/page" },
        RouteSpec { method: HttpMethod::Get, path: "/system/mail-account/get" },
        RouteSpec { method: HttpMethod::Get, path: "/system/mail-account/list-all-simple" },
        RouteSpec { method: HttpMethod::Get, path: "/system/mail-account/page" },
        RouteSpec { method: HttpMethod::Get, path: "/system/mail-log/get" },
        RouteSpec { method: HttpMethod::Get, path: "/system/mail-log/page" },
        RouteSpec { method: HttpMethod::Get, path: "/system/mail-template/get" },
        RouteSpec { method: HttpMethod::Get, path: "/system/mail-template/list-all-simple" },
        RouteSpec { method: HttpMethod::Get, path: "/system/mail-template/page" },
        RouteSpec { method: HttpMethod::Get, path: "/system/menu/get" },
        RouteSpec { method: HttpMethod::Get, path: "/system/menu/list" },
        RouteSpec { method: HttpMethod::Get, path: "/system/menu/list-all-simple" },
        RouteSpec { method: HttpMethod::Get, path: "/system/notice/get" },
        RouteSpec { method: HttpMethod::Get, path: "/system/notice/page" },
        RouteSpec { method: HttpMethod::Get, path: "/system/notify-message/get" },
        RouteSpec { method: HttpMethod::Get, path: "/system/notify-message/get-unread-count" },
        RouteSpec { method: HttpMethod::Get, path: "/system/notify-message/get-unread-list" },
        RouteSpec { method: HttpMethod::Get, path: "/system/notify-message/my-page" },
        RouteSpec { method: HttpMethod::Get, path: "/system/notify-message/page" },
        RouteSpec { method: HttpMethod::Get, path: "/system/notify-template/get" },
        RouteSpec { method: HttpMethod::Get, path: "/system/notify-template/page" },
        RouteSpec { method: HttpMethod::Get, path: "/system/oauth2-client/get" },
        RouteSpec { method: HttpMethod::Get, path: "/system/oauth2-client/page" },
        RouteSpec { method: HttpMethod::Get, path: "/system/oauth2-token/page" },
        RouteSpec { method: HttpMethod::Get, path: "/system/oauth2/authorize" },
    ];
    r.append(&mut part);
    let mut part = vec![
        RouteSpec { method: HttpMethod::Get, path: "/system/oauth2/user/get" },
        RouteSpec { method: HttpMethod::Get, path: "/system/operate-log/export-excel" },
        RouteSpec { method: HttpMethod::Get, path: "/system/operate-log/page" },
        RouteSpec { method: HttpMethod::Get, path: "/system/permission/list-role-menus" },
        RouteSpec { method: HttpMethod::Get, path: "/system/permission/list-user-roles" },
        RouteSpec { method: HttpMethod::Get, path: "/system/post/export-excel" },
        RouteSpec { method: HttpMethod::Get, path: "/system/post/get" },
        RouteSpec { method: HttpMethod::Get, path: "/system/post/list-all-simple" },
        RouteSpec { method: HttpMethod::Get, path: "/system/post/page" },
        RouteSpec { method: HttpMethod::Get, path: "/system/role/export-excel" },
        RouteSpec { method: HttpMethod::Get, path: "/system/role/get" },
        RouteSpec { method: HttpMethod::Get, path: "/system/role/list-all-simple" },
        RouteSpec { method: HttpMethod::Get, path: "/system/role/page" },
        RouteSpec { method: HttpMethod::Get, path: "/system/sms-log/export-excel" },
        RouteSpec { method: HttpMethod::Get, path: "/system/sms-log/page" },
        RouteSpec { method: HttpMethod::Get, path: "/system/sms-template/export-excel" },
        RouteSpec { method: HttpMethod::Get, path: "/system/sms-template/get" },
        RouteSpec { method: HttpMethod::Get, path: "/system/sms-template/page" },
        RouteSpec { method: HttpMethod::Get, path: "/system/social-client/get" },
        RouteSpec { method: HttpMethod::Get, path: "/system/social-client/page" },
        RouteSpec { method: HttpMethod::Get, path: "/system/social-user/get" },
        RouteSpec { method: HttpMethod::Get, path: "/system/social-user/get-bind-list" },
        RouteSpec { method: HttpMethod::Get, path: "/system/social-user/page" },
        RouteSpec { method: HttpMethod::Get, path: "/system/tenant-package/get" },
        RouteSpec { method: HttpMethod::Get, path: "/system/tenant-package/get-simple-list" },
        RouteSpec { method: HttpMethod::Get, path: "/system/tenant-package/page" },
    ];
    r.append(&mut part);
    let mut part = vec![
        RouteSpec { method: HttpMethod::Get, path: "/system/tenant/export-excel" },
        RouteSpec { method: HttpMethod::Get, path: "/system/tenant/get" },
        RouteSpec { method: HttpMethod::Get, path: "/system/tenant/get-by-website" },
        RouteSpec { method: HttpMethod::Get, path: "/system/tenant/get-id-by-name" },
        RouteSpec { method: HttpMethod::Get, path: "/system/tenant/page" },
        RouteSpec { method: HttpMethod::Get, path: "/system/tenantsimple-list" },
        RouteSpec { method: HttpMethod::Get, path: "/system/user/export-excel" },
        RouteSpec { method: HttpMethod::Get, path: "/system/user/get" },
        RouteSpec { method: HttpMethod::Get, path: "/system/user/get-import-template" },
        RouteSpec { method: HttpMethod::Get, path: "/system/user/list-all-simple" },
        RouteSpec { method: HttpMethod::Get, path: "/system/user/page" },
        RouteSpec { method: HttpMethod::Get, path: "/system/user/profile/get" },
        RouteSpec { method: HttpMethod::Get, path: "/system/sms-channel/get" },
        RouteSpec { method: HttpMethod::Get, path: "/system/sms-channel/list-all-simple" },
        RouteSpec { method: HttpMethod::Get, path: "/system/sms-channel/page" },
        RouteSpec { method: HttpMethod::Post, path: "/system/auth/register" },
        RouteSpec { method: HttpMethod::Post, path: "/system/auth/reset-password" },
        RouteSpec { method: HttpMethod::Post, path: "/system/auth/send-sms-code" },
        RouteSpec { method: HttpMethod::Post, path: "/system/auth/sms-login" },
        RouteSpec { method: HttpMethod::Post, path: "/system/auth/social-login" },
        RouteSpec { method: HttpMethod::Post, path: "/system/deptcreate" },
        RouteSpec { method: HttpMethod::Post, path: "/system/dict-data/create" },
        RouteSpec { method: HttpMethod::Post, path: "/system/dict-type/create" },
        RouteSpec { method: HttpMethod::Post, path: "/system/mail-account/create" },
        RouteSpec { method: HttpMethod::Post, path: "/system/mail-template/create" },
        RouteSpec { method: HttpMethod::Post, path: "/system/mail-template/send-mail" },
    ];
    r.append(&mut part);
    let mut part = vec![
        RouteSpec { method: HttpMethod::Post, path: "/system/menu/create" },
        RouteSpec { method: HttpMethod::Post, path: "/system/notice/create" },
        RouteSpec { method: HttpMethod::Post, path: "/system/notice/push" },
        RouteSpec { method: HttpMethod::Post, path: "/system/notify-template/create" },
        RouteSpec { method: HttpMethod::Post, path: "/system/notify-template/send-notify" },
        RouteSpec { method: HttpMethod::Post, path: "/system/oauth2-client/create" },
        RouteSpec { method: HttpMethod::Post, path: "/system/oauth2/authorize" },
        RouteSpec { method: HttpMethod::Post, path: "/system/oauth2/check-token" },
        RouteSpec { method: HttpMethod::Post, path: "/system/oauth2/token" },
        RouteSpec { method: HttpMethod::Post, path: "/system/permission/assign-role-data-scope" },
        RouteSpec { method: HttpMethod::Post, path: "/system/permission/assign-role-menu" },
        RouteSpec { method: HttpMethod::Post, path: "/system/permission/assign-user-role" },
        RouteSpec { method: HttpMethod::Post, path: "/system/post/create" },
        RouteSpec { method: HttpMethod::Post, path: "/system/role/create" },
        RouteSpec { method: HttpMethod::Post, path: "/system/sms-template/create" },
        RouteSpec { method: HttpMethod::Post, path: "/system/sms-template/send-sms" },
        RouteSpec { method: HttpMethod::Post, path: "/system/sms/callback/aliyun" },
        RouteSpec { method: HttpMethod::Post, path: "/system/sms/callback/huawei" },
        RouteSpec { method: HttpMethod::Post, path: "/system/sms/callback/qiniu" },
        RouteSpec { method: HttpMethod::Post, path: "/system/sms/callback/tencent" },
        RouteSpec { method: HttpMethod::Post, path: "/system/social-client/create" },
        RouteSpec {
            method: HttpMethod::Post,
            path: "/system/social-client/send-subscribe-message",
        },
        RouteSpec { method: HttpMethod::Post, path: "/system/social-user/bind" },
        RouteSpec { method: HttpMethod::Post, path: "/system/tenant-package/create" },
        RouteSpec { method: HttpMethod::Post, path: "/system/tenant/create" },
        RouteSpec { method: HttpMethod::Post, path: "/system/user/create" },
    ];
    r.append(&mut part);
    let mut part = vec![
        RouteSpec { method: HttpMethod::Post, path: "/system/user/import" },
        RouteSpec { method: HttpMethod::Post, path: "/system/sms-channel/create" },
        RouteSpec { method: HttpMethod::Put, path: "/system/deptupdate" },
        RouteSpec { method: HttpMethod::Put, path: "/system/dict-data/update" },
        RouteSpec { method: HttpMethod::Put, path: "/system/dict-type/update" },
        RouteSpec { method: HttpMethod::Put, path: "/system/mail-account/update" },
        RouteSpec { method: HttpMethod::Put, path: "/system/mail-template/update" },
        RouteSpec { method: HttpMethod::Put, path: "/system/menu/update" },
        RouteSpec { method: HttpMethod::Put, path: "/system/notice/update" },
        RouteSpec { method: HttpMethod::Put, path: "/system/notify-message/update-all-read" },
        RouteSpec { method: HttpMethod::Put, path: "/system/notify-message/update-read" },
        RouteSpec { method: HttpMethod::Put, path: "/system/notify-template/update" },
        RouteSpec { method: HttpMethod::Put, path: "/system/oauth2-client/update" },
        RouteSpec { method: HttpMethod::Put, path: "/system/oauth2/user/update" },
        RouteSpec { method: HttpMethod::Put, path: "/system/post/update" },
        RouteSpec { method: HttpMethod::Put, path: "/system/role/update" },
        RouteSpec { method: HttpMethod::Put, path: "/system/sms-template/update" },
        RouteSpec { method: HttpMethod::Put, path: "/system/social-client/update" },
        RouteSpec { method: HttpMethod::Put, path: "/system/tenant-package/update" },
        RouteSpec { method: HttpMethod::Put, path: "/system/tenant/update" },
        RouteSpec { method: HttpMethod::Put, path: "/system/user/profile/update" },
        RouteSpec { method: HttpMethod::Put, path: "/system/user/profile/update-password" },
        RouteSpec { method: HttpMethod::Put, path: "/system/user/update-password" },
        RouteSpec { method: HttpMethod::Put, path: "/system/user/update-status" },
        RouteSpec { method: HttpMethod::Put, path: "/system/userupdate" },
        RouteSpec { method: HttpMethod::Put, path: "/system/sms-channel/update" },
    ];
    r.append(&mut part);
    assert(r@ =~= system_table());
    r
}

/// The module's declarative route table, kept in parts of a few dozen
/// entries so that each part's templates are checked on their own.
pub open spec fn system_table() -> Seq<RouteSpec> {
    system_table_1() + system_table_2() + system_table_3() + system_table_4() + system_table_5() + system_table_6() + system_table_7()
}

pub open spec fn system_table_1() -> Seq<RouteSpec> {
    seq![
        RouteSpec { method: HttpMethod::Delete, path: "/system/dept/delete-list" },
        RouteSpec { method: HttpMethod::Delete, path: "/system/deptdelete" },
        RouteSpec { method: HttpMethod::Delete, path: "/system/dict-data/delete" },
        RouteSpec { method: HttpMethod::Delete, path: "/system/dict-data/delete-list" },
        RouteSpec { method: HttpMethod::Delete, path: "/system/dict-type/delete" },
        RouteSpec { method: HttpMethod::Delete, path: "/system/dict-type/delete-list" },
        RouteSpec { method: HttpMethod::Delete, path: "/system/mail-account/delete" },
        RouteSpec { method: HttpMethod::Delete, path: "/system/mail-account/delete-list" },
        RouteSpec { method: HttpMethod::Delete, path: "/system/mail-template/delete" },
        RouteSpec { method: HttpMethod::Delete, path: "/system/mail-template/delete-list" },
        RouteSpec { method: HttpMethod::Delete, path: "/system/menu/delete" },
        RouteSpec { method: HttpMethod::Delete, path: "/system/menu/delete-list" },
        RouteSpec { method: HttpMethod::Delete, path: "/system/notice/delete" },
        RouteSpec { method: HttpMethod::Delete, path: "/system/notice/delete-list" },
        RouteSpec { method: HttpMethod::Delete, path: "/system/notify-template/delete" },
        RouteSpec { method: HttpMethod::Delete, path: "/system/notify-template/delete-list" },
        RouteSpec { method: HttpMethod::Delete, path: "/system/oauth2-client/delete" },
        RouteSpec { method: HttpMethod::Delete, path: "/system/oauth2-client/delete-list" },
        RouteSpec { method: HttpMethod::Delete, path: "/system/oauth2-token/delete" },
        RouteSpec { method: HttpMethod::Delete, path: "/system/oauth2-token/delete-list" },
        RouteSpec { method: HttpMethod::Delete, path: "/system/oauth2/token" },
        RouteSpec { method: HttpMethod::Delete, path: "/system/post/delete" },
        RouteSpec { method: HttpMethod::Delete, path: "/system/role/delete" },
        RouteSpec { method: HttpMethod::Delete, path: "/system/role/delete-list" },
        RouteSpec { method: HttpMethod::Delete, path: "/system/sms-template/delete" },
        RouteSpec { method: HttpMethod::Delete, path: "/system/sms-template/delete-list" },
    ]
}

pub open spec fn system_table_2() -> Seq<RouteSpec> {
    seq![
        RouteSpec { method: HttpMethod::Delete, path: "/system/social-client/delete" },
        RouteSpec { method: HttpMethod::Delete, path: "/system/social-client/delete-list" },
        RouteSpec { method: HttpMethod::Delete, path: "/system/social-user/unbind" },
        RouteSpec { method: HttpMethod::Delete, path: "/system/tenant-package/delete" },
        RouteSpec { method: HttpMethod::Delete, path: "/system/tenant-package/delete-list" },
        RouteSpec { method: HttpMethod::Delete, path: "/system/tenant/delete" },
        RouteSpec { method: HttpMethod::Delete, path: "/system/tenant/delete-list" },
        RouteSpec { method: HttpMethod::Delete, path: "/system/user/delete" },
        RouteSpec { method: HttpMethod::Delete, path: "/system/user/delete-list" },
        RouteSpec { method: HttpMethod::Delete, path: "/system/sms-channel/delete" },
        RouteSpec { method: HttpMethod::Delete, path: "/system/sms-channel/delete-list" },
        RouteSpec { method: HttpMethod::Get, path: "/system/area/get-by-ip" },
        RouteSpec { method: HttpMethod::Get, path: "/system/area/tree" },
        RouteSpec { method: HttpMethod::Get, path: "/system/auth/social-auth-redirect" },
        RouteSpec { method: HttpMethod::Get, path: "/system/dept/get" },
        RouteSpec { method: HttpMethod::Get, path: "/system/dept/list" },
        RouteSpec { method: HttpMethod::Get, path: "/system/dept/list-all-simple" },
        RouteSpec { method: HttpMethod::Get, path: "/system/dict-data/export-excel" },
        RouteSpec { method: HttpMethod::Get, path: "/system/dict-data/get" },
        RouteSpec { method: HttpMethod::Get, path: "/system/dict-data/list-all-simple" },
        RouteSpec { method: HttpMethod::Get, path: "/system/dict-data/page" },
        RouteSpec { method: HttpMethod::Get, path: "/system/dict-data/type" },
        RouteSpec { method: HttpMethod::Get, path: "/system/dict-type/export-excel" },
        RouteSpec { method: HttpMethod::Get, path: "/system/dict-type/get" },
        RouteSpec { method: HttpMethod::Get, path: "/system/dict-type/list-all-simple" },
        RouteSpec { method: HttpMethod::Get, path: "/system/dict-type/page" },
    ]
}

pub open spec fn system_table_3() -> Seq<RouteSpec> {
    seq![
        RouteSpec { method: HttpMethod::Get, path: "/system/login-log/export-excel" },
        RouteSpec { method: HttpMethod::Get, path: "/system/login-log/page" },
        RouteSpec { method: HttpMethod::Get, path: "/system/mail-account/get" },
        RouteSpec { method: HttpMethod::Get, path: "/system/mail-account/list-all-simple" },
        RouteSpec { method: HttpMethod::Get, path: "/system/mail-account/page" },
        RouteSpec { method: HttpMethod::Get, path: "/system/mail-log/get" },
        RouteSpec { method: HttpMethod::Get, path: "/system/mail-log/page" },
        RouteSpec { method: HttpMethod::Get, path: "/system/mail-template/get" },
        RouteSpec { method: HttpMethod::Get, path: "/system/mail-template/list-all-simple" },
        RouteSpec { method: HttpMethod::Get, path: "/system/mail-template/page" },
        RouteSpec { method: HttpMethod::Get, path: "/system/menu/get" },
        RouteSpec { method: HttpMethod::Get, path: "/system/menu/list" },
        RouteSpec { method: HttpMethod::Get, path: "/system/menu/list-all-simple" },
        RouteSpec { method: HttpMethod::Get, path: "/system/notice/get" },
        RouteSpec { method: HttpMethod::Get, path: "/system/notice/page" },
        RouteSpec { method: HttpMethod::Get, path: "/system/notify-message/get" },
        RouteSpec { method: HttpMethod::Get, path: "/system/notify-message/get-unread-count" },
        RouteSpec { method: HttpMethod::Get, path: "/system/notify-message/get-unread-list" },
        RouteSpec { method: HttpMethod::Get, path: "/system/notify-message/my-page" },
        RouteSpec { method: HttpMethod::Get, path: "/system/notify-message/page" },
        RouteSpec { method: HttpMethod::Get, path: "/system/notify-template/get" },
        RouteSpec { method: HttpMethod::Get, path: "/system/notify-template/page" },
        RouteSpec { method: HttpMethod::Get, path: "/system/oauth2-client/get" },
        RouteSpec { method: HttpMethod::Get, path: "/system/oauth2-client/page" },
        RouteSpec { method: HttpMethod::Get, path: "/system/oauth2-token/page" },
        RouteSpec { method: HttpMethod::Get, path: "/system/oauth2/authorize" },
    ]
}

pub open spec fn system_table_4() -> Seq<RouteSpec> {
    seq![
        RouteSpec { method: HttpMethod::Get, path: "/system/oauth2/user/get" },
        RouteSpec { method: HttpMethod::Get, path: "/system/operate-log/export-excel" },
        RouteSpec { method: HttpMethod::Get, path: "/system/operate-log/page" },
        RouteSpec { method: HttpMethod::Get, path: "/system/permission/list-role-menus" },
        RouteSpec { method: HttpMethod::Get, path: "/system/permission/list-user-roles" },
        RouteSpec { method: HttpMethod::Get, path: "/system/post/export-excel" },
        RouteSpec { method: HttpMethod::Get, path: "/system/post/get" },
        RouteSpec { method: HttpMethod::Get, path: "/system/post/list-all-simple" },
        RouteSpec { method: HttpMethod::Get, path: "/system/post/page" },
        RouteSpec { method: HttpMethod::Get, path: "/system/role/export-excel" },
        RouteSpec { method: HttpMethod::Get, path: "/system/role/get" },
        RouteSpec { method: HttpMethod::Get, path: "/system/role/list-all-simple" },
        RouteSpec { method: HttpMethod::Get, path: "/system/role/page" },
        RouteSpec { method: HttpMethod::Get, path: "/system/sms-log/export-excel" },
        RouteSpec { method: HttpMethod::Get, path: "/system/sms-log/page" },
        RouteSpec { method: HttpMethod::Get, path: "/system/sms-template/export-excel" },
        RouteSpec { method: HttpMethod::Get, path: "/system/sms-template/get" },
        RouteSpec { method: HttpMethod::Get, path: "/system/sms-template/page" },
        RouteSpec { method: HttpMethod::Get, path: "/system/social-client/get" },
        RouteSpec { method: HttpMethod::Get, path: "/system/social-client/page" },
        RouteSpec { method: HttpMethod::Get, path: "/system/social-user/get" },
        RouteSpec { method: HttpMethod::Get, path: "/system/social-user/get-bind-list" },
        RouteSpec { method: HttpMethod::Get, path: "/system/social-user/page" },
        RouteSpec { method: HttpMethod::Get, path: "/system/tenant-package/get" },
        RouteSpec { method: HttpMethod::Get, path: "/system/tenant-package/get-simple-list" },
        RouteSpec { method: HttpMethod::Get, path: "/system/tenant-package/page" },
    ]
}

pub open spec fn system_table_5() -> Seq<RouteSpec> {
    seq![
        RouteSpec { method: HttpMethod::Get, path: "/system/tenant/export-excel" },
        RouteSpec { method: HttpMethod::Get, path: "/system/tenant/get" },
        RouteSpec { method: HttpMethod::Get, path: "/system/tenant/get-by-website" },
        RouteSpec { method: HttpMethod::Get, path: "/system/tenant/get-id-by-name" },
        RouteSpec { method: HttpMethod::Get, path: "/system/tenant/page" },
        RouteSpec { method: HttpMethod::Get, path: "/system/tenantsimple-list" },
        RouteSpec { method: HttpMethod::Get, path: "/system/user/export-excel" },
        RouteSpec { method: HttpMethod::Get, path: "/system/user/get" },
        RouteSpec { method: HttpMethod::Get, path: "/system/user/get-import-template" },
        RouteSpec { method: HttpMethod::Get, path: "/system/user/list-all-simple" },
        RouteSpec { method: HttpMethod::Get, path: "/system/user/page" },
        RouteSpec { method: HttpMethod::Get, path: "/system/user/profile/get" },
        RouteSpec { method: HttpMethod::Get, path: "/system/sms-channel/get" },
        RouteSpec { method: HttpMethod::Get, path: "/system/sms-channel/list-all-simple" },
        RouteSpec { method: HttpMethod::Get, path: "/system/sms-channel/page" },
        RouteSpec { method: HttpMethod::Post, path: "/system/auth/register" },
        RouteSpec { method: HttpMethod::Post, path: "/system/auth/reset-password" },
        RouteSpec { method: HttpMethod::Post, path: "/system/auth/send-sms-code" },
        RouteSpec { method: HttpMethod::Post, path: "/system/auth/sms-login" },
        RouteSpec { method: HttpMethod::Post, path: "/system/auth/social-login" },
        RouteSpec { method: HttpMethod::Post, path: "/system/deptcreate" },
        RouteSpec { method: HttpMethod::Post, path: "/system/dict-data/create" },
        RouteSpec { method: HttpMethod::Post, path: "/system/dict-type/create" },
        RouteSpec { method: HttpMethod::Post, path: "/system/mail-account/create" },
        RouteSpec { method: HttpMethod::Post, path: "/system/mail-template/create" },
        RouteSpec { method: HttpMethod::Post, path: "/system/mail-template/send-mail" },
    ]
}

pub open spec fn system_table_6() -> Seq<RouteSpec> {
    seq![
        RouteSpec { method: HttpMethod::Post, path: "/system/menu/create" },
        RouteSpec { method: HttpMethod::Post, path: "/system/notice/create" },
        RouteSpec { method: HttpMethod::Post, path: "/system/notice/push" },
        RouteSpec { method: HttpMethod::Post, path: "/system/notify-template/create" },
        RouteSpec { method: HttpMethod::Post, path: "/system/notify-template/send-notify" },
        RouteSpec { method: HttpMethod::Post, path: "/system/oauth2-client/create" },
        RouteSpec { method: HttpMethod::Post, path: "/system/oauth2/authorize" },
        RouteSpec { method: HttpMethod::Post, path: "/system/oauth2/check-token" },
        RouteSpec { method: HttpMethod::Post, path: "/system/oauth2/token" },
        RouteSpec { method: HttpMethod::Post, path: "/system/permission/assign-role-data-scope" },
        RouteSpec { method: HttpMethod::Post, path: "/system/permission/assign-role-menu" },
        RouteSpec { method: HttpMethod::Post, path: "/system/permission/assign-user-role" },
        RouteSpec { method: HttpMethod::Post, path: "/system/post/create" },
        RouteSpec { method: HttpMethod::Post, path: "/system/role/create" },
        RouteSpec { method: HttpMethod::Post, path: "/system/sms-template/create" },
        RouteSpec { method: HttpMethod::Post, path: "/system/sms-template/send-sms" },
        RouteSpec { method: HttpMethod::Post, path: "/system/sms/callback/aliyun" },
        RouteSpec { method: HttpMethod::Post, path: "/system/sms/callback/huawei" },
        RouteSpec { method: HttpMethod::Post, path: "/system/sms/callback/qiniu" },
        RouteSpec { method: HttpMethod::Post, path: "/system/sms/callback/tencent" },
        RouteSpec { method: HttpMethod::Post, path: "/system/social-client/create" },
        RouteSpec {
            method: HttpMethod::Post,
            path: "/system/social-client/send-subscribe-message",
        },
        RouteSpec { method: HttpMethod::Post, path: "/system/social-user/bind" },
        RouteSpec { method: HttpMethod::Post, path: "/system/tenant-package/create" },
        RouteSpec { method: HttpMethod::Post, path: "/system/tenant/create" },
        RouteSpec { method: HttpMethod::Post, path: "/system/user/create" },
    ]
}

pub open spec fn system_table_7() -> Seq<RouteSpec> {
    seq![
        RouteSpec { method: HttpMethod::Post, path: "/system/user/import" },
        RouteSpec { method: HttpMethod::Post, path: "/system/sms-channel/create" },
        RouteSpec { method: HttpMethod::Put, path: "/system/deptupdate" },
        RouteSpec { method: HttpMethod::Put, path: "/system/dict-data/update" },
        RouteSpec { method: HttpMethod::Put, path: "/system/dict-type/update" },
        RouteSpec { method: HttpMethod::Put, path: "/system/mail-account/update" },
        RouteSpec { method: HttpMethod::Put, path: "/system/mail-template/update" },
        RouteSpec { method: HttpMethod::Put, path: "/system/menu/update" },
        RouteSpec { method: HttpMethod::Put, path: "/system/notice/update" },
        RouteSpec { method: HttpMethod::Put, path: "/system/notify-message/update-all-read" },
        RouteSpec { method: HttpMethod::Put, path: "/system/notify-message/update-read" },
        RouteSpec { method: HttpMethod::Put, path: "/system/notify-template/update" },
        RouteSpec { method: HttpMethod::Put, path: "/system/oauth2-client/update" },
        RouteSpec { method: HttpMethod::Put, path: "/system/oauth2/user/update" },
        RouteSpec { method: HttpMethod::Put, path: "/system/post/update" },
        RouteSpec { method: HttpMethod::Put, path: "/system/role/update" },
        RouteSpec { method: HttpMethod::Put, path: "/system/sms-template/update" },
        RouteSpec { method: HttpMethod::Put, path: "/system/social-client/update" },
        RouteSpec { method: HttpMethod::Put, path: "/system/tenant-package/update" },
        RouteSpec { method: HttpMethod::Put, path: "/system/tenant/update" },
        RouteSpec { method: HttpMethod::Put, path: "/system/user/profile/update" },
        RouteSpec { method: HttpMethod::Put, path: "/system/user/profile/update-password" },
        RouteSpec { method: HttpMethod::Put, path: "/system/user/update-password" },
        RouteSpec { method: HttpMethod::Put, path: "/system/user/update-status" },
        RouteSpec { method: HttpMethod::Put, path: "/system/userupdate" },
        RouteSpec { method: HttpMethod::Put, path: "/system/sms-channel/update" },
    ]
}

/// Every template of this part of the table is well formed.
proof fn lemma_system_table_1_well_formed()
    ensures
        templates_well_formed(system_table_1()),
{
    reveal_strlit("/system/dept/delete-list");
    reveal_strlit("/system/deptdelete");
    reveal_strlit("/system/dict-data/delete");
    reveal_strlit("/system/dict-data/delete-list");
    reveal_strlit("/system/dict-type/delete");
    reveal_strlit("/system/dict-type/delete-list");
    reveal_strlit("/system/mail-account/delete");
    reveal_strlit("/system/mail-account/delete-list");
    reveal_strlit("/system/mail-template/delete");
    reveal_strlit("/system/mail-template/delete-list");
    reveal_strlit("/system/menu/delete");
    reveal_strlit("/system/menu/delete-list");
    reveal_strlit("/system/notice/delete");
    reveal_strlit("/system/notice/delete-list");
    reveal_strlit("/system/notify-template/delete");
    reveal_strlit("/system/notify-template/delete-list");
    reveal_strlit("/system/oauth2-client/delete");
    reveal_strlit("/system/oauth2-client/delete-list");
    reveal_strlit("/system/oauth2-token/delete");
    reveal_strlit("/system/oauth2-token/delete-list");
    reveal_strlit("/system/oauth2/token");
    reveal_strlit("/system/post/delete");
    reveal_strlit("/system/role/delete");
    reveal_strlit("/system/role/delete-list");
    reveal_strlit("/system/sms-template/delete");
    reveal_strlit("/system/sms-template/delete-list");
    lemma_plain_template("/system/dept/delete-list"@);
    lemma_plain_template("/system/deptdelete"@);
    lemma_plain_template("/system/dict-data/delete"@);
    lemma_plain_template("/system/dict-data/delete-list"@);
    lemma_plain_template("/system/dict-type/delete"@);
    lemma_plain_template("/system/dict-type/delete-list"@);
    lemma_plain_template("/system/mail-account/delete"@);
    lemma_plain_template("/system/mail-account/delete-list"@);
    lemma_plain_template("/system/mail-template/delete"@);
    lemma_plain_template("/system/mail-template/delete-list"@);
    lemma_plain_template("/system/menu/delete"@);
    lemma_plain_template("/system/menu/delete-list"@);
    lemma_plain_template("/system/notice/delete"@);
    lemma_plain_template("/system/notice/delete-list"@);
    lemma_plain_template("/system/notify-template/delete"@);
    lemma_plain_template("/system/notify-template/delete-list"@);
    lemma_plain_template("/system/oauth2-client/delete"@);
    lemma_plain_template("/system/oauth2-client/delete-list"@);
    lemma_plain_template("/system/oauth2-token/delete"@);
    lemma_plain_template("/system/oauth2-token/delete-list"@);
    lemma_plain_template("/system/oauth2/token"@);
    lemma_plain_template("/system/post/delete"@);
    lemma_plain_template("/system/role/delete"@);
    lemma_plain_template("/system/role/delete-list"@);
    lemma_plain_template("/system/sms-template/delete"@);
    lemma_plain_template("/system/sms-template/delete-list"@);
}

/// Every template of this part of the table is well formed.
proof fn lemma_system_table_2_well_formed()
    ensures
        templates_well_formed(system_table_2()),
{
    reveal_strlit("/system/area/get-by-ip");
    reveal_strlit("/system/area/tree");
    reveal_strlit("/system/auth/social-auth-redirect");
    reveal_strlit("/system/dept/get");
    reveal_strlit("/system/dept/list");
    reveal_strlit("/system/dept/list-all-simple");
    reveal_strlit("/system/dict-data/export-excel");
    reveal_strlit("/system/dict-data/get");
    reveal_strlit("/system/dict-data/list-all-simple");
    reveal_strlit("/system/dict-data/page");
    reveal_strlit("/system/dict-data/type");
    reveal_strlit("/system/dict-type/export-excel");
    reveal_strlit("/system/dict-type/get");
    reveal_strlit("/system/dict-type/list-all-simple");
    reveal_strlit("/system/dict-type/page");
    reveal_strlit("/system/sms-channel/delete");
    reveal_strlit("/system/sms-channel/delete-list");
    reveal_strlit("/system/social-client/delete");
    reveal_strlit("/system/social-client/delete-list");
    reveal_strlit("/system/social-user/unbind");
    reveal_strlit("/system/tenant-package/delete");
    reveal_strlit("/system/tenant-package/delete-list");
    reveal_strlit("/system/tenant/delete");
    reveal_strlit("/system/tenant/delete-list");
    reveal_strlit("/system/user/delete");
    reveal_strlit("/system/user/delete-list");
    lemma_plain_template("/system/area/get-by-ip"@);
    lemma_plain_template("/system/area/tree"@);
    lemma_plain_template("/system/auth/social-auth-redirect"@);
    lemma_plain_template("/system/dept/get"@);
    lemma_plain_template("/system/dept/list"@);
    lemma_plain_template("/system/dept/list-all-simple"@);
    lemma_plain_template("/system/dict-data/export-excel"@);
    lemma_plain_template("/system/dict-data/get"@);
    lemma_plain_template("/system/dict-data/list-all-simple"@);
    lemma_plain_template("/system/dict-data/page"@);
    lemma_plain_template("/system/dict-data/type"@);
    lemma_plain_template("/system/dict-type/export-excel"@);
    lemma_plain_template("/system/dict-type/get"@);
    lemma_plain_template("/system/dict-type/list-all-simple"@);
    lemma_plain_template("/system/dict-type/page"@);
    lemma_plain_template("/system/sms-channel/delete"@);
    lemma_plain_template("/system/sms-channel/delete-list"@);
    lemma_plain_template("/system/social-client/delete"@);
    lemma_plain_template("/system/social-client/delete-list"@);
    lemma_plain_template("/system/social-user/unbind"@);
    lemma_plain_template("/system/tenant-package/delete"@);
    lemma_plain_template("/system/tenant-package/delete-list"@);
    lemma_plain_template("/system/tenant/delete"@);
    lemma_plain_template("/system/tenant/delete-list"@);
    lemma_plain_template("/system/user/delete"@);
    lemma_plain_template("/system/user/delete-list"@);
}

/// Every template of this part of the table is well formed.
proof fn lemma_system_table_3_well_formed()
    ensures
        templates_well_formed(system_table_3()),
{
    reveal_strlit("/system/login-log/export-excel");
    reveal_strlit("/system/login-log/page");
    reveal_strlit("/system/mail-account/get");
    reveal_strlit("/system/mail-account/list-all-simple");
    reveal_strlit("/system/mail-account/page");
    reveal_strlit("/system/mail-log/get");
    reveal_strlit("/system/mail-log/page");
    reveal_strlit("/system/mail-template/get");
    reveal_strlit("/system/mail-template/list-all-simple");
    reveal_strlit("/system/mail-template/page");
    reveal_strlit("/system/menu/get");
    reveal_strlit("/system/menu/list");
    reveal_strlit("/system/menu/list-all-simple");
    reveal_strlit("/system/notice/get");
    reveal_strlit("/system/notice/page");
    reveal_strlit("/system/notify-message/get");
    reveal_strlit("/system/notify-message/get-unread-count");
    reveal_strlit("/system/notify-message/get-unread-list");
    reveal_strlit("/system/notify-message/my-page");
    reveal_strlit("/system/notify-message/page");
    reveal_strlit("/system/notify-template/get");
    reveal_strlit("/system/notify-template/page");
    reveal_strlit("/system/oauth2-client/get");
    reveal_strlit("/system/oauth2-client/page");
    reveal_strlit("/system/oauth2-token/page");
    reveal_strlit("/system/oauth2/authorize");
    lemma_plain_template("/system/login-log/export-excel"@);
    lemma_plain_template("/system/login-log/page"@);
    lemma_plain_template("/system/mail-account/get"@);
    lemma_plain_template("/system/mail-account/list-all-simple"@);
    lemma_plain_template("/system/mail-account/page"@);
    lemma_plain_template("/system/mail-log/get"@);
    lemma_plain_template("/system/mail-log/page"@);
    lemma_plain_template("/system/mail-template/get"@);
    lemma_plain_template("/system/mail-template/list-all-simple"@);
    lemma_plain_template("/system/mail-template/page"@);
    lemma_plain_template("/system/menu/get"@);
    lemma_plain_template("/system/menu/list"@);
    lemma_plain_template("/system/menu/list-all-simple"@);
    lemma_plain_template("/system/notice/get"@);
    lemma_plain_template("/system/notice/page"@);
    lemma_plain_template("/system/notify-message/get"@);
    lemma_plain_template("/system/notify-message/get-unread-count"@);
    lemma_plain_template("/system/notify-message/get-unread-list"@);
    lemma_plain_template("/system/notify-message/my-page"@);
    lemma_plain_template("/system/notify-message/page"@);
    lemma_plain_template("/system/notify-template/get"@);
    lemma_plain_template("/system/notify-template/page"@);
    lemma_plain_template("/system/oauth2-client/get"@);
    lemma_plain_template("/system/oauth2-client/page"@);
    lemma_plain_template("/system/oauth2-token/page"@);
    lemma_plain_template("/system/oauth2/authorize"@);
}

/// Every template of this part of the table is well formed.
proof fn lemma_system_table_4_well_formed()
    ensures
        templates_well_formed(system_table_4()),
{
    reveal_strlit("/system/oauth2/user/get");
    reveal_strlit("/system/operate-log/export-excel");
    reveal_strlit("/system/operate-log/page");
    reveal_strlit("/system/permission/list-role-menus");
    reveal_strlit("/system/permission/list-user-roles");
    reveal_strlit("/system/post/export-excel");
    reveal_strlit("/system/post/get");
    reveal_strlit("/system/post/list-all-simple");
    reveal_strlit("/system/post/page");
    reveal_strlit("/system/role/export-excel");
    reveal_strlit("/system/role/get");
    reveal_strlit("/system/role/list-all-simple");
    reveal_strlit("/system/role/page");
    reveal_strlit("/system/sms-log/export-excel");
    reveal_strlit("/system/sms-log/page");
    reveal_strlit("/system/sms-template/export-excel");
    reveal_strlit("/system/sms-template/get");
    reveal_strlit("/system/sms-template/page");
    reveal_strlit("/system/social-client/get");
    reveal_strlit("/system/social-client/page");
    reveal_strlit("/system/social-user/get");
    reveal_strlit("/system/social-user/get-bind-list");
    reveal_strlit("/system/social-user/page");
    reveal_strlit("/system/tenant-package/get");
    reveal_strlit("/system/tenant-package/get-simple-list");
    reveal_strlit("/system/tenant-package/page");
    lemma_plain_template("/system/oauth2/user/get"@);
    lemma_plain_template("/system/operate-log/export-excel"@);
    lemma_plain_template("/system/operate-log/page"@);
    lemma_plain_template("/system/permission/list-role-menus"@);
    lemma_plain_template("/system/permission/list-user-roles"@);
    lemma_plain_template("/system/post/export-excel"@);
    lemma_plain_template("/system/post/get"@);
    lemma_plain_template("/system/post/list-all-simple"@);
    lemma_plain_template("/system/post/page"@);
    lemma_plain_template("/system/role/export-excel"@);
    lemma_plain_template("/system/role/get"@);
    lemma_plain_template("/system/role/list-all-simple"@);
    lemma_plain_template("/system/role/page"@);
    lemma_plain_template("/system/sms-log/export-excel"@);
    lemma_plain_template("/system/sms-log/page"@);
    lemma_plain_template("/system/sms-template/export-excel"@);
    lemma_plain_template("/system/sms-template/get"@);
    lemma_plain_template("/system/sms-template/page"@);
    lemma_plain_template("/system/social-client/get"@);
    lemma_plain_template("/system/social-client/page"@);
    lemma_plain_template("/system/social-user/get"@);
    lemma_plain_template("/system/social-user/get-bind-list"@);
    lemma_plain_template("/system/social-user/page"@);
    lemma_plain_template("/system/tenant-package/get"@);
    lemma_plain_template("/system/tenant-package/get-simple-list"@);
    lemma_plain_template("/system/tenant-package/page"@);
}

/// Every template of this part of the table is well formed.
proof fn lemma_system_table_5_well_formed()
    ensures
        templates_well_formed(system_table_5()),
{
    reveal_strlit("/system/auth/register");
    reveal_strlit("/system/auth/reset-password");
    reveal_strlit("/system/auth/send-sms-code");
    reveal_strlit("/system/auth/sms-login");
    reveal_strlit("/system/auth/social-login");
    reveal_strlit("/system/deptcreate");
    reveal_strlit("/system/dict-data/create");
    reveal_strlit("/system/dict-type/create");
    reveal_strlit("/system/mail-account/create");
    reveal_strlit("/system/mail-template/create");
    reveal_strlit("/system/mail-template/send-mail");
    reveal_strlit("/system/sms-channel/get");
    reveal_strlit("/system/sms-channel/list-all-simple");
    reveal_strlit("/system/sms-channel/page");
    reveal_strlit("/system/tenant/export-excel");
    reveal_strlit("/system/tenant/get");
    reveal_strlit("/system/tenant/get-by-website");
    reveal_strlit("/system/tenant/get-id-by-name");
    reveal_strlit("/system/tenant/page");
    reveal_strlit("/system/tenantsimple-list");
    reveal_strlit("/system/user/export-excel");
    reveal_strlit("/system/user/get");
    reveal_strlit("/system/user/get-import-template");
    reveal_strlit("/system/user/list-all-simple");
    reveal_strlit("/system/user/page");
    reveal_strlit("/system/user/profile/get");
    lemma_plain_template("/system/auth/register"@);
    lemma_plain_template("/system/auth/reset-password"@);
    lemma_plain_template("/system/auth/send-sms-code"@);
    lemma_plain_template("/system/auth/sms-login"@);
    lemma_plain_template("/system/auth/social-login"@);
    lemma_plain_template("/system/deptcreate"@);
    lemma_plain_template("/system/dict-data/create"@);
    lemma_plain_template("/system/dict-type/create"@);
    lemma_plain_template("/system/mail-account/create"@);
    lemma_plain_template("/system/mail-template/create"@);
    lemma_plain_template("/system/mail-template/send-mail"@);
    lemma_plain_template("/system/sms-channel/get"@);
    lemma_plain_template("/system/sms-channel/list-all-simple"@);
    lemma_plain_template("/system/sms-channel/page"@);
    lemma_plain_template("/system/tenant/export-excel"@);
    lemma_plain_template("/system/tenant/get"@);
    lemma_plain_template("/system/tenant/get-by-website"@);
    lemma_plain_template("/system/tenant/get-id-by-name"@);
    lemma_plain_template("/system/tenant/page"@);
    lemma_plain_template("/system/tenantsimple-list"@);
    lemma_plain_template("/system/user/export-excel"@);
    lemma_plain_template("/system/user/get"@);
    lemma_plain_template("/system/user/get-import-template"@);
    lemma_plain_template("/system/user/list-all-simple"@);
    lemma_plain_template("/system/user/page"@);
    lemma_plain_template("/system/user/profile/get"@);
}

/// Every template of this part of the table is well formed.
proof fn lemma_system_table_6_well_formed()
    ensures
        templates_well_formed(system_table_6()),
{
    reveal_strlit("/system/menu/create");
    reveal_strlit("/system/notice/create");
    reveal_strlit("/system/notice/push");
    reveal_strlit("/system/notify-template/create");
    reveal_strlit("/system/notify-template/send-notify");
    reveal_strlit("/system/oauth2-client/create");
    reveal_strlit("/system/oauth2/authorize");
    reveal_strlit("/system/oauth2/check-token");
    reveal_strlit("/system/oauth2/token");
    reveal_strlit("/system/permission/assign-role-data-scope");
    reveal_strlit("/system/permission/assign-role-menu");
    reveal_strlit("/system/permission/assign-user-role");
    reveal_strlit("/system/post/create");
    reveal_strlit("/system/role/create");
    reveal_strlit("/system/sms-template/create");
    reveal_strlit("/system/sms-template/send-sms");
    reveal_strlit("/system/sms/callback/aliyun");
    reveal_strlit("/system/sms/callback/huawei");
    reveal_strlit("/system/sms/callback/qiniu");
    reveal_strlit("/system/sms/callback/tencent");
    reveal_strlit("/system/social-client/create");
    reveal_strlit("/system/social-client/send-subscribe-message");
    reveal_strlit("/system/social-user/bind");
    reveal_strlit("/system/tenant-package/create");
    reveal_strlit("/system/tenant/create");
    reveal_strlit("/system/user/create");
    lemma_plain_template("/system/menu/create"@);
    lemma_plain_template("/system/notice/create"@);
    lemma_plain_template("/system/notice/push"@);
    lemma_plain_template("/system/notify-template/create"@);
    lemma_plain_template("/system/notify-template/send-notify"@);
    lemma_plain_template("/system/oauth2-client/create"@);
    lemma_plain_template("/system/oauth2/authorize"@);
    lemma_plain_template("/system/oauth2/check-token"@);
    lemma_plain_template("/system/oauth2/token"@);
    lemma_plain_template("/system/permission/assign-role-data-scope"@);
    lemma_plain_template("/system/permission/assign-role-menu"@);
    lemma_plain_template("/system/permission/assign-user-role"@);
    lemma_plain_template("/system/post/create"@);
    lemma_plain_template("/system/role/create"@);
    lemma_plain_template("/system/sms-template/create"@);
    lemma_plain_template("/system/sms-template/send-sms"@);
    lemma_plain_template("/system/sms/callback/aliyun"@);
    lemma_plain_template("/system/sms/callback/huawei"@);
    lemma_plain_template("/system/sms/callback/qiniu"@);
    lemma_plain_template("/system/sms/callback/tencent"@);
    lemma_plain_template("/system/social-client/create"@);
    lemma_plain_template("/system/social-client/send-subscribe-message"@);
    lemma_plain_template("/system/social-user/bind"@);
    lemma_plain_template("/system/tenant-package/create"@);
    lemma_plain_template("/system/tenant/create"@);
    lemma_plain_template("/system/user/create"@);
}

/// Every template of this part of the table is well formed.
proof fn lemma_system_table_7_well_formed()
    ensures
        templates_well_formed(system_table_7()),
{
    reveal_strlit("/system/deptupdate");
    reveal_strlit("/system/dict-data/update");
    reveal_strlit("/system/dict-type/update");
    reveal_strlit("/system/mail-account/update");
    reveal_strlit("/system/mail-template/update");
    reveal_strlit("/system/menu/update");
    reveal_strlit("/system/notice/update");
    reveal_strlit("/system/notify-message/update-all-read");
    reveal_strlit("/system/notify-message/update-read");
    reveal_strlit("/system/notify-template/update");
    reveal_strlit("/system/oauth2-client/update");
    reveal_strlit("/system/oauth2/user/update");
    reveal_strlit("/system/post/update");
    reveal_strlit("/system/role/update");
    reveal_strlit("/system/sms-channel/create");
    reveal_strlit("/system/sms-channel/update");
    reveal_strlit("/system/sms-template/update");
    reveal_strlit("/system/social-client/update");
    reveal_strlit("/system/tenant-package/update");
    reveal_strlit("/system/tenant/update");
    reveal_strlit("/system/user/import");
    reveal_strlit("/system/user/profile/update");
    reveal_strlit("/system/user/profile/update-password");
    reveal_strlit("/system/user/update-password");
    reveal_strlit("/system/user/update-status");
    reveal_strlit("/system/userupdate");
    lemma_plain_template("/system/deptupdate"@);
    lemma_plain_template("/system/dict-data/update"@);
    lemma_plain_template("/system/dict-type/update"@);
    lemma_plain_template("/system/mail-account/update"@);
    lemma_plain_template("/system/mail-template/update"@);
    lemma_plain_template("/system/menu/update"@);
    lemma_plain_template("/system/notice/update"@);
    lemma_plain_template("/system/notify-message/update-all-read"@);
    lemma_plain_template("/system/notify-message/update-read"@);
    lemma_plain_template("/system/notify-template/update"@);
    lemma_plain_template("/system/oauth2-client/update"@);
    lemma_plain_template("/system/oauth2/user/update"@);
    lemma_plain_template("/system/post/update"@);
    lemma_plain_template("/system/role/update"@);
    lemma_plain_template("/system/sms-channel/create"@);
    lemma_plain_template("/system/sms-channel/update"@);
    lemma_plain_template("/system/sms-template/update"@);
    lemma_plain_template("/system/social-client/update"@);
    lemma_plain_template("/system/tenant-package/update"@);
    lemma_plain_template("/system/tenant/update"@);
    lemma_plain_template("/system/user/import"@);
    lemma_plain_template("/system/user/profile/update"@);
    lemma_plain_template("/system/user/profile/update-password"@);
    lemma_plain_template("/system/user/update-password"@);
    lemma_plain_template("/system/user/update-status"@);
    lemma_plain_template("/system/userupdate"@);
}

/// The module's hand-written routes and their handlers.
pub open spec fn system_special_table() -> Seq<(RouteSpec, Handler)> {
    seq![
        (RouteSpec { method: HttpMethod::Post, path: "/system/auth/login" }, Handler::AuthLogin),
        (
            RouteSpec { method: HttpMethod::Post, path: "/system/auth/refresh-token" },
            Handler::RefreshToken,
        ),
        (RouteSpec { method: HttpMethod::Post, path: "/system/auth/logout" }, Handler::Logout),
        (
            RouteSpec { method: HttpMethod::Get, path: "/system/auth/get-permission-info" },
            Handler::PermissionInfo,
        ),
        (RouteSpec { method: HttpMethod::Post, path: "/system/captcha/get" }, Handler::CaptchaGet),
        (
            RouteSpec { method: HttpMethod::Post, path: "/system/captcha/check" },
            Handler::CaptchaCheck,
        ),
    ]
}

/// Every template of the module's routes is well formed.
pub proof fn lemma_system_templates_well_formed()
    ensures
        templates_well_formed(system_table()),
        special_templates_well_formed(system_special_table()),
{
    lemma_system_table_1_well_formed();
    lemma_system_table_2_well_formed();
    lemma_system_table_3_well_formed();
    lemma_system_table_4_well_formed();
    lemma_system_table_5_well_formed();
    lemma_system_table_6_well_formed();
    lemma_system_table_7_well_formed();
    lemma_templates_well_formed_concat(system_table_1(), system_table_2());
    lemma_templates_well_formed_concat(system_table_1() + system_table_2(), system_table_3());
    lemma_templates_well_formed_concat(system_table_1() + system_table_2() + system_table_3(), system_table_4());
    lemma_templates_well_formed_concat(system_table_1() + system_table_2() + system_table_3() + system_table_4(), system_table_5());
    lemma_templates_well_formed_concat(system_table_1() + system_table_2() + system_table_3() + system_table_4() + system_table_5(), system_table_6());
    lemma_templates_well_formed_concat(system_table_1() + system_table_2() + system_table_3() + system_table_4() + system_table_5() + system_table_6(), system_table_7());
    reveal_strlit("/system/auth/login");
    reveal_strlit("/system/auth/refresh-token");
    reveal_strlit("/system/auth/logout");
    reveal_strlit("/system/auth/get-permission-info");
    reveal_strlit("/system/captcha/get");
    reveal_strlit("/system/captcha/check");
    lemma_plain_template("/system/auth/login"@);
    lemma_plain_template("/system/auth/refresh-token"@);
    lemma_plain_template("/system/auth/logout"@);
    lemma_plain_template("/system/auth/get-permission-info"@);
    lemma_plain_template("/system/captcha/get"@);
    lemma_plain_template("/system/captcha/check"@);
}

} // verus!
