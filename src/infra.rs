use vstd::prelude::*;
use crate::method::HttpMethod;
use crate::module::Module;
use crate::path::{RouteError, lemma_one_placeholder_template, lemma_plain_template};
use crate::route::{
    Handler, RouteSpec, RouteTable, lemma_module_bindings_some, lemma_templates_well_formed_concat,
    module_bindings, special_templates_well_formed, templates_well_formed,
};
use crate::text::str_eq;
use crate::web::CommonResult;

verus! {

/// The infrastructure module: configuration, files, code generation, logs.
pub struct InfraModule;

impl Module for InfraModule {
    open spec fn spec_name(&self) -> Seq<char> {
        "daoyi-module-infra"@
    }

    fn name(&self) -> (r: &'static str) {
        "daoyi-module-infra"
    }
}

impl InfraModule {
    /// The module's router fragment.
    pub fn router() -> (r: Result<RouteTable, RouteError>)
        ensures
            r is Ok,
            r->Ok_0.wf(),
            module_bindings(infra_table(), infra_special_table()) == Some(r->Ok_0@),
    {
        infra_router()
    }
}

/// Compiles the infrastructure module's fragment: its declarative table on
/// the generic mock, then the hand-written endpoints.
pub fn infra_router() -> (r: Result<RouteTable, RouteError>)
    ensures
        r is Ok,
        r->Ok_0.wf(),
        module_bindings(infra_table(), infra_special_table()) == Some(r->Ok_0@),
{
    proof {
        lemma_infra_templates_well_formed();
        lemma_module_bindings_some(infra_table(), infra_special_table());
    }
    RouteTable::compile_module(&infra_routes(), &infra_specials())
}

/// The routes that have an implementation of their own.
pub fn infra_specials() -> (r: Vec<(RouteSpec, Handler)>)
    ensures
        r@ == infra_special_table(),
{
    vec![
        (
            RouteSpec { method: HttpMethod::Get, path: "/infra/config/get-value-by-key" },
            Handler::ConfigValueByKey,
        ),
        (RouteSpec { method: HttpMethod::Post, path: "/infra/file/upload" }, Handler::FileUpload),
        (
            RouteSpec { method: HttpMethod::Get, path: "/infra/file/presigned-url" },
            Handler::PresignedUrl,
        ),
        (RouteSpec { method: HttpMethod::Post, path: "/infra/file/create" }, Handler::FileUpload),
        (
            RouteSpec { method: HttpMethod::Get, path: "/infra/redis/get-monitor-info" },
            Handler::RedisMonitor,
        ),
    ]
}

/// The address under which uploaded files are served.
pub open spec fn file_domain() -> Seq<char> {
    "http://localhost:18080"@
}

/// Looks up a configuration value: `file.domain` is known, any other key
/// gives the empty string.
pub fn get_value_by_key(key: &str) -> (r: CommonResult<String>)
    ensures
        r.is_success(),
        key@ == "file.domain"@ ==> r.data@ == file_domain(),
        key@ != "file.domain"@ ==> r.data@.len() == 0,
{
    let value = if str_eq(key, "file.domain") {
        "http://localhost:18080".to_owned()
    } else {
        String::new()
    };
    CommonResult::success(value)
}

/// A stored file: its identifier and address.
#[derive(Debug)]
pub struct FileResp {
    pub id: String,
    pub url: String,
}

/// The mock answer to a file upload or creation.
pub fn upload_mock() -> (r: CommonResult<FileResp>)
    ensures
        r.is_success(),
        r.data.id@ == "mock-file-id"@,
        r.data.url@ == "http://localhost:18080/mock-file"@,
{
    CommonResult::success(
        FileResp {
            id: "mock-file-id".to_owned(),
            url: "http://localhost:18080/mock-file".to_owned(),
        },
    )
}

/// The mock presigned address of a file.
pub fn presigned_url() -> (r: CommonResult<String>)
    ensures
        r.is_success(),
        r.data@ == "http://localhost:18080/mock-file"@,
{
    CommonResult::success("http://localhost:18080/mock-file".to_owned())
}

/// What the cache monitor reports.
#[derive(Debug)]
pub struct RedisMonitorInfo {
    pub info: String,
    pub connected: bool,
}

/// The mock cache monitor: nothing is connected.
pub fn redis_monitor() -> (r: CommonResult<RedisMonitorInfo>)
    ensures
        r.is_success(),
        r.data.info@ == "mock"@,
        !r.data.connected,
{
    CommonResult::success(RedisMonitorInfo { info: "mock".to_owned(), connected: false })
}

/// The module's declarative route table, answered by the generic mock.
pub fn infra_routes() -> (r: Vec<RouteSpec>)
    ensures
        r@ == infra_table(),
{
    let mut r = vec![
        RouteSpec { method: HttpMethod::Delete, path: "/infra/codegen/delete" },
        RouteSpec { method: HttpMethod::Delete, path: "/infra/codegen/delete-list" },
        RouteSpec { method: HttpMethod::Delete, path: "/infra/config/delete" },
        RouteSpec { method: HttpMethod::Delete, path: "/infra/config/delete-list" },
        RouteSpec { method: HttpMethod::Delete, path: "/infra/data-source-config/delete" },
        RouteSpec { method: HttpMethod::Delete, path: "/infra/data-source-config/delete-list" },
        RouteSpec { method: HttpMethod::Delete, path: "/infra/demo01-contact/delete" },
        RouteSpec { method: HttpMethod::Delete, path: "/infra/demo01-contact/delete-list" },
        RouteSpec { method: HttpMethod::Delete, path: "/infra/demo02-category/delete" },
        RouteSpec { method: HttpMethod::Delete, path: "/infra/demo03-student-erp/delete" },
        RouteSpec { method: HttpMethod::Delete, path: "/infra/demo03-student-erp/delete-list" },
        RouteSpec {
            method: HttpMethod::Delete,
            path: "/infra/demo03-student-erp/demo03-course/delete",
        },
        RouteSpec {
            method: HttpMethod::Delete,
            path: "/infra/demo03-student-erp/demo03-course/delete-list",
        },
        RouteSpec {
            method: HttpMethod::Delete,
            path: "/infra/demo03-student-erp/demo03-grade/delete",
        },
        RouteSpec {
            method: HttpMethod::Delete,
            path: "/infra/demo03-student-erp/demo03-grade/delete-list",
        },
        RouteSpec { method: HttpMethod::Delete, path: "/infra/demo03-student-inner/delete" },
        RouteSpec { method: HttpMethod::Delete, path: "/infra/demo03-student-inner/delete-list" },
        RouteSpec { method: HttpMethod::Delete, path: "/infra/demo03-student-normal/delete" },
        RouteSpec { method: HttpMethod::Delete, path: "/infra/demo03-student-normal/delete-list" },
        RouteSpec { method: HttpMethod::Delete, path: "/infra/file-config/delete" },
        RouteSpec { method: HttpMethod::Delete, path: "/infra/file-config/delete-list" },
        RouteSpec { method: HttpMethod::Delete, path: "/infra/file/delete" },
        RouteSpec { method: HttpMethod::Delete, path: "/infra/file/delete-list" },
        RouteSpec { method: HttpMethod::Get, path: "/infra/api-access-log/export-excel" },
        RouteSpec { method: HttpMethod::Get, path: "/infra/api-access-log/page" },
        RouteSpec { method: HttpMethod::Get, path: "/infra/api-error-log/export-excel" },
    ];
    let mut part = vec![
        RouteSpec { method: HttpMethod::Get, path: "/infra/api-error-log/page" },
        RouteSpec { method: HttpMethod::Get, path: "/infra/codegen/db/table/list" },
        RouteSpec { method: HttpMethod::Get, path: "/infra/codegen/detail" },
        RouteSpec { method: HttpMethod::Get, path: "/infra/codegen/download" },
        RouteSpec { method: HttpMethod::Get, path: "/infra/codegen/preview" },
        RouteSpec { method: HttpMethod::Get, path: "/infra/codegen/table/list" },
        RouteSpec { method: HttpMethod::Get, path: "/infra/codegen/table/page" },
        RouteSpec { method: HttpMethod::Get, path: "/infra/config/export-excel" },
        RouteSpec { method: HttpMethod::Get, path: "/infra/config/get" },
        RouteSpec { method: HttpMethod::Get, path: "/infra/config/get-value-by-key" },
        RouteSpec { method: HttpMethod::Get, path: "/infra/config/page" },
        RouteSpec { method: HttpMethod::Get, path: "/infra/data-source-config/get" },
        RouteSpec { method: HttpMethod::Get, path: "/infra/data-source-config/list" },
        RouteSpec { method: HttpMethod::Get, path: "/infra/demo01-contact/export-excel" },
        RouteSpec { method: HttpMethod::Get, path: "/infra/demo01-contact/get" },
        RouteSpec { method: HttpMethod::Get, path: "/infra/demo01-contact/page" },
        RouteSpec { method: HttpMethod::Get, path: "/infra/demo02-category/export-excel" },
        RouteSpec { method: HttpMethod::Get, path: "/infra/demo02-category/get" },
        RouteSpec { method: HttpMethod::Get, path: "/infra/demo02-category/list" },
        RouteSpec { method: HttpMethod::Get, path: "/infra/demo03-student-erp/demo03-course/get" },
        RouteSpec { method: HttpMethod::Get, path: "/infra/demo03-student-erp/demo03-course/page" },
        RouteSpec { method: HttpMethod::Get, path: "/infra/demo03-student-erp/demo03-grade/get" },
        RouteSpec { method: HttpMethod::Get, path: "/infra/demo03-student-erp/demo03-grade/page" },
        RouteSpec { method: HttpMethod::Get, path: "/infra/demo03-student-erp/export-excel" },
        RouteSpec { method: HttpMethod::Get, path: "/infra/demo03-student-erp/get" },
        RouteSpec { method: HttpMethod::Get, path: "/infra/demo03-student-erp/page" },
    ];
    r.append(&mut part);
    let mut part = vec![
        RouteSpec {
            method: HttpMethod::Get,
            path: "/infra/demo03-student-inner/demo03-course/list-by-student-id",
        },
        RouteSpec {
            method: HttpMethod::Get,
            path: "/infra/demo03-student-inner/demo03-grade/get-by-student-id",
        },
        RouteSpec { method: HttpMethod::Get, path: "/infra/demo03-student-inner/export-excel" },
        RouteSpec { method: HttpMethod::Get, path: "/infra/demo03-student-inner/get" },
        RouteSpec { method: HttpMethod::Get, path: "/infra/demo03-student-inner/page" },
        RouteSpec {
            method: HttpMethod::Get,
            path: "/infra/demo03-student-normal/demo03-course/list-by-student-id",
        },
        RouteSpec {
            method: HttpMethod::Get,
            path: "/infra/demo03-student-normal/demo03-grade/get-by-student-id",
        },
        RouteSpec { method: HttpMethod::Get, path: "/infra/demo03-student-normal/export-excel" },
        RouteSpec { method: HttpMethod::Get, path: "/infra/demo03-student-normal/get" },
        RouteSpec { method: HttpMethod::Get, path: "/infra/demo03-student-normal/page" },
        RouteSpec { method: HttpMethod::Get, path: "/infra/file-config/get" },
        RouteSpec { method: HttpMethod::Get, path: "/infra/file-config/page" },
        RouteSpec { method: HttpMethod::Get, path: "/infra/file-config/test" },
        RouteSpec { method: HttpMethod::Get, path: "/infra/file/page" },
        RouteSpec { method: HttpMethod::Get, path: "/infra/file/presigned-url" },
        RouteSpec { method: HttpMethod::Get, path: "/infra/file/{configId}/get/**" },
        RouteSpec { method: HttpMethod::Get, path: "/infra/redis/get-monitor-info" },
        RouteSpec { method: HttpMethod::Post, path: "/infra/codegen/create-list" },
        RouteSpec { method: HttpMethod::Post, path: "/infra/config/create" },
        RouteSpec { method: HttpMethod::Post, path: "/infra/data-source-config/create" },
        RouteSpec { method: HttpMethod::Post, path: "/infra/demo01-contact/create" },
        RouteSpec { method: HttpMethod::Post, path: "/infra/demo02-category/create" },
        RouteSpec { method: HttpMethod::Post, path: "/infra/demo03-student-erp/create" },
        RouteSpec {
            method: HttpMethod::Post,
            path: "/infra/demo03-student-erp/demo03-course/create",
        },
        RouteSpec {
            method: HttpMethod::Post,
            path: "/infra/demo03-student-erp/demo03-grade/create",
        },
        RouteSpec { method: HttpMethod::Post, path: "/infra/demo03-student-inner/create" },
    ];
    r.append(&mut part);
    let mut part = vec![
        RouteSpec { method: HttpMethod::Post, path: "/infra/demo03-student-normal/create" },
        RouteSpec { method: HttpMethod::Post, path: "/infra/file-config/create" },
        RouteSpec { method: HttpMethod::Post, path: "/infra/file/create" },
        RouteSpec { method: HttpMethod::Post, path: "/infra/file/upload" },
        RouteSpec { method: HttpMethod::Put, path: "/infra/api-error-log/update-status" },
        RouteSpec { method: HttpMethod::Put, path: "/infra/codegen/sync-from-db" },
        RouteSpec { method: HttpMethod::Put, path: "/infra/codegen/update" },
        RouteSpec { method: HttpMethod::Put, path: "/infra/config/update" },
        RouteSpec { method: HttpMethod::Put, path: "/infra/data-source-config/update" },
        RouteSpec { method: HttpMethod::Put, path: "/infra/demo01-contact/update" },
        RouteSpec { method: HttpMethod::Put, path: "/infra/demo02-category/update" },
        RouteSpec {
            method: HttpMethod::Put,
            path: "/infra/demo03-student-erp/demo03-course/update",
        },
        RouteSpec {
            method: HttpMethod::Put,
            path: "/infra/demo03-student-erp/demo03-grade/update",
        },
        RouteSpec { method: HttpMethod::Put, path: "/infra/demo03-student-erp/update" },
        RouteSpec { method: HttpMethod::Put, path: "/infra/demo03-student-inner/update" },
        RouteSpec { method: HttpMethod::Put, path: "/infra/demo03-student-normal/update" },
        RouteSpec { method: HttpMethod::Put, path: "/infra/file-config/update" },
        RouteSpec { method: HttpMethod::Put, path: "/infra/file-config/update-master" },
    ];
    r.append(&mut part);
    assert(r@ =~= infra_table());
    r
}

/// The module's declarative route table, kept in parts of a few dozen
/// entries so that each part's templates are checked on their own.
pub open spec fn infra_table() -> Seq<RouteSpec> {
    infra_table_1() + infra_table_2() + infra_table_3() + infra_table_4()
}

pub open spec fn infra_table_1() -> Seq<RouteSpec> {
    seq![
        RouteSpec { method: HttpMethod::Delete, path: "/infra/codegen/delete" },
        RouteSpec { method: HttpMethod::Delete, path: "/infra/codegen/delete-list" },
        RouteSpec { method: HttpMethod::Delete, path: "/infra/config/delete" },
        RouteSpec { method: HttpMethod::Delete, path: "/infra/config/delete-list" },
        RouteSpec { method: HttpMethod::Delete, path: "/infra/data-source-config/delete" },
        RouteSpec { method: HttpMethod::Delete, path: "/infra/data-source-config/delete-list" },
        RouteSpec { method: HttpMethod::Delete, path: "/infra/demo01-contact/delete" },
        RouteSpec { method: HttpMethod::Delete, path: "/infra/demo01-contact/delete-list" },
        RouteSpec { method: HttpMethod::Delete, path: "/infra/demo02-category/delete" },
        RouteSpec { method: HttpMethod::Delete, path: "/infra/demo03-student-erp/delete" },
        RouteSpec { method: HttpMethod::Delete, path: "/infra/demo03-student-erp/delete-list" },
        RouteSpec {
            method: HttpMethod::Delete,
            path: "/infra/demo03-student-erp/demo03-course/delete",
        },
        RouteSpec {
            method: HttpMethod::Delete,
            path: "/infra/demo03-student-erp/demo03-course/delete-list",
        },
        RouteSpec {
            method: HttpMethod::Delete,
            path: "/infra/demo03-student-erp/demo03-grade/delete",
        },
        RouteSpec {
            method: HttpMethod::Delete,
            path: "/infra/demo03-student-erp/demo03-grade/delete-list",
        },
        RouteSpec { method: HttpMethod::Delete, path: "/infra/demo03-student-inner/delete" },
        RouteSpec { method: HttpMethod::Delete, path: "/infra/demo03-student-inner/delete-list" },
        RouteSpec { method: HttpMethod::Delete, path: "/infra/demo03-student-normal/delete" },
        RouteSpec { method: HttpMethod::Delete, path: "/infra/demo03-student-normal/delete-list" },
        RouteSpec { method: HttpMethod::Delete, path: "/infra/file-config/delete" },
        RouteSpec { method: HttpMethod::Delete, path: "/infra/file-config/delete-list" },
        RouteSpec { method: HttpMethod::Delete, path: "/infra/file/delete" },
        RouteSpec { method: HttpMethod::Delete, path: "/infra/file/delete-list" },
        RouteSpec { method: HttpMethod::Get, path: "/infra/api-access-log/export-excel" },
        RouteSpec { method: HttpMethod::Get, path: "/infra/api-access-log/page" },
        RouteSpec { method: HttpMethod::Get, path: "/infra/api-error-log/export-excel" },
    ]
}

pub open spec fn infra_table_2() -> Seq<RouteSpec> {
    seq![
        RouteSpec { method: HttpMethod::Get, path: "/infra/api-error-log/page" },
        RouteSpec { method: HttpMethod::Get, path: "/infra/codegen/db/table/list" },
        RouteSpec { method: HttpMethod::Get, path: "/infra/codegen/detail" },
        RouteSpec { method: HttpMethod::Get, path: "/infra/codegen/download" },
        RouteSpec { method: HttpMethod::Get, path: "/infra/codegen/preview" },
        RouteSpec { method: HttpMethod::Get, path: "/infra/codegen/table/list" },
        RouteSpec { method: HttpMethod::Get, path: "/infra/codegen/table/page" },
        RouteSpec { method: HttpMethod::Get, path: "/infra/config/export-excel" },
        RouteSpec { method: HttpMethod::Get, path: "/infra/config/get" },
        RouteSpec { method: HttpMethod::Get, path: "/infra/config/get-value-by-key" },
        RouteSpec { method: HttpMethod::Get, path: "/infra/config/page" },
        RouteSpec { method: HttpMethod::Get, path: "/infra/data-source-config/get" },
        RouteSpec { method: HttpMethod::Get, path: "/infra/data-source-config/list" },
        RouteSpec { method: HttpMethod::Get, path: "/infra/demo01-contact/export-excel" },
        RouteSpec { method: HttpMethod::Get, path: "/infra/demo01-contact/get" },
        RouteSpec { method: HttpMethod::Get, path: "/infra/demo01-contact/page" },
        RouteSpec { method: HttpMethod::Get, path: "/infra/demo02-category/export-excel" },
        RouteSpec { method: HttpMethod::Get, path: "/infra/demo02-category/get" },
        RouteSpec { method: HttpMethod::Get, path: "/infra/demo02-category/list" },
        RouteSpec { method: HttpMethod::Get, path: "/infra/demo03-student-erp/demo03-course/get" },
        RouteSpec { method: HttpMethod::Get, path: "/infra/demo03-student-erp/demo03-course/page" },
        RouteSpec { method: HttpMethod::Get, path: "/infra/demo03-student-erp/demo03-grade/get" },
        RouteSpec { method: HttpMethod::Get, path: "/infra/demo03-student-erp/demo03-grade/page" },
        RouteSpec { method: HttpMethod::Get, path: "/infra/demo03-student-erp/export-excel" },
        RouteSpec { method: HttpMethod::Get, path: "/infra/demo03-student-erp/get" },
        RouteSpec { method: HttpMethod::Get, path: "/infra/demo03-student-erp/page" },
    ]
}

pub open spec fn infra_table_3() -> Seq<RouteSpec> {
    seq![
        RouteSpec {
            method: HttpMethod::Get,
            path: "/infra/demo03-student-inner/demo03-course/list-by-student-id",
        },
        RouteSpec {
            method: HttpMethod::Get,
            path: "/infra/demo03-student-inner/demo03-grade/get-by-student-id",
        },
        RouteSpec { method: HttpMethod::Get, path: "/infra/demo03-student-inner/export-excel" },
        RouteSpec { method: HttpMethod::Get, path: "/infra/demo03-student-inner/get" },
        RouteSpec { method: HttpMethod::Get, path: "/infra/demo03-student-inner/page" },
        RouteSpec {
            method: HttpMethod::Get,
            path: "/infra/demo03-student-normal/demo03-course/list-by-student-id",
        },
        RouteSpec {
            method: HttpMethod::Get,
            path: "/infra/demo03-student-normal/demo03-grade/get-by-student-id",
        },
        RouteSpec { method: HttpMethod::Get, path: "/infra/demo03-student-normal/export-excel" },
        RouteSpec { method: HttpMethod::Get, path: "/infra/demo03-student-normal/get" },
        RouteSpec { method: HttpMethod::Get, path: "/infra/demo03-student-normal/page" },
        RouteSpec { method: HttpMethod::Get, path: "/infra/file-config/get" },
        RouteSpec { method: HttpMethod::Get, path: "/infra/file-config/page" },
        RouteSpec { method: HttpMethod::Get, path: "/infra/file-config/test" },
        RouteSpec { method: HttpMethod::Get, path: "/infra/file/page" },
        RouteSpec { method: HttpMethod::Get, path: "/infra/file/presigned-url" },
        RouteSpec { method: HttpMethod::Get, path: "/infra/file/{configId}/get/**" },
        RouteSpec { method: HttpMethod::Get, path: "/infra/redis/get-monitor-info" },
        RouteSpec { method: HttpMethod::Post, path: "/infra/codegen/create-list" },
        RouteSpec { method: HttpMethod::Post, path: "/infra/config/create" },
        RouteSpec { method: HttpMethod::Post, path: "/infra/data-source-config/create" },
        RouteSpec { method: HttpMethod::Post, path: "/infra/demo01-contact/create" },
        RouteSpec { method: HttpMethod::Post, path: "/infra/demo02-category/create" },
        RouteSpec { method: HttpMethod::Post, path: "/infra/demo03-student-erp/create" },
        RouteSpec {
            method: HttpMethod::Post,
            path: "/infra/demo03-student-erp/demo03-course/create",
        },
        RouteSpec {
            method: HttpMethod::Post,
            path: "/infra/demo03-student-erp/demo03-grade/create",
        },
        RouteSpec { method: HttpMethod::Post, path: "/infra/demo03-student-inner/create" },
    ]
}

pub open spec fn infra_table_4() -> Seq<RouteSpec> {
    seq![
        RouteSpec { method: HttpMethod::Post, path: "/infra/demo03-student-normal/create" },
        RouteSpec { method: HttpMethod::Post, path: "/infra/file-config/create" },
        RouteSpec { method: HttpMethod::Post, path: "/infra/file/create" },
        RouteSpec { method: HttpMethod::Post, path: "/infra/file/upload" },
        RouteSpec { method: HttpMethod::Put, path: "/infra/api-error-log/update-status" },
        RouteSpec { method: HttpMethod::Put, path: "/infra/codegen/sync-from-db" },
        RouteSpec { method: HttpMethod::Put, path: "/infra/codegen/update" },
        RouteSpec { method: HttpMethod::Put, path: "/infra/config/update" },
        RouteSpec { method: HttpMethod::Put, path: "/infra/data-source-config/update" },
        RouteSpec { method: HttpMethod::Put, path: "/infra/demo01-contact/update" },
        RouteSpec { method: HttpMethod::Put, path: "/infra/demo02-category/update" },
        RouteSpec {
            method: HttpMethod::Put,
            path: "/infra/demo03-student-erp/demo03-course/update",
        },
        RouteSpec {
            method: HttpMethod::Put,
            path: "/infra/demo03-student-erp/demo03-grade/update",
        },
        RouteSpec { method: HttpMethod::Put, path: "/infra/demo03-student-erp/update" },
        RouteSpec { method: HttpMethod::Put, path: "/infra/demo03-student-inner/update" },
        RouteSpec { method: HttpMethod::Put, path: "/infra/demo03-student-normal/update" },
        RouteSpec { method: HttpMethod::Put, path: "/infra/file-config/update" },
        RouteSpec { method: HttpMethod::Put, path: "/infra/file-config/update-master" },
    ]
}

/// Every template of this part of the table is well formed.
proof fn lemma_infra_table_1_well_formed()
    ensures
        templates_well_formed(infra_table_1()),
{
    reveal_strlit("/infra/api-access-log/export-excel");
    reveal_strlit("/infra/api-access-log/page");
    reveal_strlit("/infra/api-error-log/export-excel");
    reveal_strlit("/infra/codegen/delete");
    reveal_strlit("/infra/codegen/delete-list");
    reveal_strlit("/infra/config/delete");
    reveal_strlit("/infra/config/delete-list");
    reveal_strlit("/infra/data-source-config/delete");
    reveal_strlit("/infra/data-source-config/delete-list");
    reveal_strlit("/infra/demo01-contact/delete");
    reveal_strlit("/infra/demo01-contact/delete-list");
    reveal_strlit("/infra/demo02-category/delete");
    reveal_strlit("/infra/demo03-student-erp/delete");
    reveal_strlit("/infra/demo03-student-erp/delete-list");
    reveal_strlit("/infra/demo03-student-erp/demo03-course/delete");
    reveal_strlit("/infra/demo03-student-erp/demo03-course/delete-list");
    reveal_strlit("/infra/demo03-student-erp/demo03-grade/delete");
    reveal_strlit("/infra/demo03-student-erp/demo03-grade/delete-list");
    reveal_strlit("/infra/demo03-student-inner/delete");
    reveal_strlit("/infra/demo03-student-inner/delete-list");
    reveal_strlit("/infra/demo03-student-normal/delete");
    reveal_strlit("/infra/demo03-student-normal/delete-list");
    reveal_strlit("/infra/file-config/delete");
    reveal_strlit("/infra/file-config/delete-list");
    reveal_strlit("/infra/file/delete");
    reveal_strlit("/infra/file/delete-list");
    lemma_plain_template("/infra/api-access-log/export-excel"@);
    lemma_plain_template("/infra/api-access-log/page"@);
    lemma_plain_template("/infra/api-error-log/export-excel"@);
    lemma_plain_template("/infra/codegen/delete"@);
    lemma_plain_template("/infra/codegen/delete-list"@);
    lemma_plain_template("/infra/config/delete"@);
    lemma_plain_template("/infra/config/delete-list"@);
    lemma_plain_template("/infra/data-source-config/delete"@);
    lemma_plain_template("/infra/data-source-config/delete-list"@);
    lemma_plain_template("/infra/demo01-contact/delete"@);
    lemma_plain_template("/infra/demo01-contact/delete-list"@);
    lemma_plain_template("/infra/demo02-category/delete"@);
    lemma_plain_template("/infra/demo03-student-erp/delete"@);
    lemma_plain_template("/infra/demo03-student-erp/delete-list"@);
    lemma_plain_template("/infra/demo03-student-erp/demo03-course/delete"@);
    lemma_plain_template("/infra/demo03-student-erp/demo03-course/delete-list"@);
    lemma_plain_template("/infra/demo03-student-erp/demo03-grade/delete"@);
    lemma_plain_template("/infra/demo03-student-erp/demo03-grade/delete-list"@);
    lemma_plain_template("/infra/demo03-student-inner/delete"@);
    lemma_plain_template("/infra/demo03-student-inner/delete-list"@);
    lemma_plain_template("/infra/demo03-student-normal/delete"@);
    lemma_plain_template("/infra/demo03-student-normal/delete-list"@);
    lemma_plain_template("/infra/file-config/delete"@);
    lemma_plain_template("/infra/file-config/delete-list"@);
    lemma_plain_template("/infra/file/delete"@);
    lemma_plain_template("/infra/file/delete-list"@);
}

/// Every template of this part of the table is well formed.
proof fn lemma_infra_table_2_well_formed()
    ensures
        templates_well_formed(infra_table_2()),
{
    reveal_strlit("/infra/api-error-log/page");
    reveal_strlit("/infra/codegen/db/table/list");
    reveal_strlit("/infra/codegen/detail");
    reveal_strlit("/infra/codegen/download");
    reveal_strlit("/infra/codegen/preview");
    reveal_strlit("/infra/codegen/table/list");
    reveal_strlit("/infra/codegen/table/page");
    reveal_strlit("/infra/config/export-excel");
    reveal_strlit("/infra/config/get");
    reveal_strlit("/infra/config/get-value-by-key");
    reveal_strlit("/infra/config/page");
    reveal_strlit("/infra/data-source-config/get");
    reveal_strlit("/infra/data-source-config/list");
    reveal_strlit("/infra/demo01-contact/export-excel");
    reveal_strlit("/infra/demo01-contact/get");
    reveal_strlit("/infra/demo01-contact/page");
    reveal_strlit("/infra/demo02-category/export-excel");
    reveal_strlit("/infra/demo02-category/get");
    reveal_strlit("/infra/demo02-category/list");
    reveal_strlit("/infra/demo03-student-erp/demo03-course/get");
    reveal_strlit("/infra/demo03-student-erp/demo03-course/page");
    reveal_strlit("/infra/demo03-student-erp/demo03-grade/get");
    reveal_strlit("/infra/demo03-student-erp/demo03-grade/page");
    reveal_strlit("/infra/demo03-student-erp/export-excel");
    reveal_strlit("/infra/demo03-student-erp/get");
    reveal_strlit("/infra/demo03-student-erp/page");
    lemma_plain_template("/infra/api-error-log/page"@);
    lemma_plain_template("/infra/codegen/db/table/list"@);
    lemma_plain_template("/infra/codegen/detail"@);
    lemma_plain_template("/infra/codegen/download"@);
    lemma_plain_template("/infra/codegen/preview"@);
    lemma_plain_template("/infra/codegen/table/list"@);
    lemma_plain_template("/infra/codegen/table/page"@);
    lemma_plain_template("/infra/config/export-excel"@);
    lemma_plain_template("/infra/config/get"@);
    lemma_plain_template("/infra/config/get-value-by-key"@);
    lemma_plain_template("/infra/config/page"@);
    lemma_plain_template("/infra/data-source-config/get"@);
    lemma_plain_template("/infra/data-source-config/list"@);
    lemma_plain_template("/infra/demo01-contact/export-excel"@);
    lemma_plain_template("/infra/demo01-contact/get"@);
    lemma_plain_template("/infra/demo01-contact/page"@);
    lemma_plain_template("/infra/demo02-category/export-excel"@);
    lemma_plain_template("/infra/demo02-category/get"@);
    lemma_plain_template("/infra/demo02-category/list"@);
    lemma_plain_template("/infra/demo03-student-erp/demo03-course/get"@);
    lemma_plain_template("/infra/demo03-student-erp/demo03-course/page"@);
    lemma_plain_template("/infra/demo03-student-erp/demo03-grade/get"@);
    lemma_plain_template("/infra/demo03-student-erp/demo03-grade/page"@);
    lemma_plain_template("/infra/demo03-student-erp/export-excel"@);
    lemma_plain_template("/infra/demo03-student-erp/get"@);
    lemma_plain_template("/infra/demo03-student-erp/page"@);
}

/// Every template of this part of the table is well formed.
proof fn lemma_infra_table_3_well_formed()
    ensures
        templates_well_formed(infra_table_3()),
{
    reveal_strlit("/infra/codegen/create-list");
    reveal_strlit("/infra/config/create");
    reveal_strlit("/infra/data-source-config/create");
    reveal_strlit("/infra/demo01-contact/create");
    reveal_strlit("/infra/demo02-category/create");
    reveal_strlit("/infra/demo03-student-erp/create");
    reveal_strlit("/infra/demo03-student-erp/demo03-course/create");
    reveal_strlit("/infra/demo03-student-erp/demo03-grade/create");
    reveal_strlit("/infra/demo03-student-inner/create");
    reveal_strlit("/infra/demo03-student-inner/demo03-course/list-by-student-id");
    reveal_strlit("/infra/demo03-student-inner/demo03-grade/get-by-student-id");
    reveal_strlit("/infra/demo03-student-inner/export-excel");
    reveal_strlit("/infra/demo03-student-inner/get");
    reveal_strlit("/infra/demo03-student-inner/page");
    reveal_strlit("/infra/demo03-student-normal/demo03-course/list-by-student-id");
    reveal_strlit("/infra/demo03-student-normal/demo03-grade/get-by-student-id");
    reveal_strlit("/infra/demo03-student-normal/export-excel");
    reveal_strlit("/infra/demo03-student-normal/get");
    reveal_strlit("/infra/demo03-student-normal/page");
    reveal_strlit("/infra/file-config/get");
    reveal_strlit("/infra/file-config/page");
    reveal_strlit("/infra/file-config/test");
    reveal_strlit("/infra/file/page");
    reveal_strlit("/infra/file/presigned-url");
    reveal_strlit("/infra/file/{configId}/get/**");
    reveal_strlit("/infra/redis/get-monitor-info");
    lemma_plain_template("/infra/codegen/create-list"@);
    lemma_plain_template("/infra/config/create"@);
    lemma_plain_template("/infra/data-source-config/create"@);
    lemma_plain_template("/infra/demo01-contact/create"@);
    lemma_plain_template("/infra/demo02-category/create"@);
    lemma_plain_template("/infra/demo03-student-erp/create"@);
    lemma_plain_template("/infra/demo03-student-erp/demo03-course/create"@);
    lemma_plain_template("/infra/demo03-student-erp/demo03-grade/create"@);
    lemma_plain_template("/infra/demo03-student-inner/create"@);
    lemma_plain_template("/infra/demo03-student-inner/demo03-course/list-by-student-id"@);
    lemma_plain_template("/infra/demo03-student-inner/demo03-grade/get-by-student-id"@);
    lemma_plain_template("/infra/demo03-student-inner/export-excel"@);
    lemma_plain_template("/infra/demo03-student-inner/get"@);
    lemma_plain_template("/infra/demo03-student-inner/page"@);
    lemma_plain_template("/infra/demo03-student-normal/demo03-course/list-by-student-id"@);
    lemma_plain_template("/infra/demo03-student-normal/demo03-grade/get-by-student-id"@);
    lemma_plain_template("/infra/demo03-student-normal/export-excel"@);
    lemma_plain_template("/infra/demo03-student-normal/get"@);
    lemma_plain_template("/infra/demo03-student-normal/page"@);
    lemma_plain_template("/infra/file-config/get"@);
    lemma_plain_template("/infra/file-config/page"@);
    lemma_plain_template("/infra/file-config/test"@);
    lemma_plain_template("/infra/file/page"@);
    lemma_plain_template("/infra/file/presigned-url"@);
    lemma_plain_template("/infra/redis/get-monitor-info"@);
    lemma_one_placeholder_template("/infra/file/{configId}/get/**"@, 12, 21);
}

/// Every template of this part of the table is well formed.
proof fn lemma_infra_table_4_well_formed()
    ensures
        templates_well_formed(infra_table_4()),
{
    reveal_strlit("/infra/api-error-log/update-status");
    reveal_strlit("/infra/codegen/sync-from-db");
    reveal_strlit("/infra/codegen/update");
    reveal_strlit("/infra/config/update");
    reveal_strlit("/infra/data-source-config/update");
    reveal_strlit("/infra/demo01-contact/update");
    reveal_strlit("/infra/demo02-category/update");
    reveal_strlit("/infra/demo03-student-erp/demo03-course/update");
    reveal_strlit("/infra/demo03-student-erp/demo03-grade/update");
    reveal_strlit("/infra/demo03-student-erp/update");
    reveal_strlit("/infra/demo03-student-inner/update");
    reveal_strlit("/infra/demo03-student-normal/create");
    reveal_strlit("/infra/demo03-student-normal/update");
    reveal_strlit("/infra/file-config/create");
    reveal_strlit("/infra/file-config/update");
    reveal_strlit("/infra/file-config/update-master");
    reveal_strlit("/infra/file/create");
    reveal_strlit("/infra/file/upload");
    lemma_plain_template("/infra/api-error-log/update-status"@);
    lemma_plain_template("/infra/codegen/sync-from-db"@);
    lemma_plain_template("/infra/codegen/update"@);
    lemma_plain_template("/infra/config/update"@);
    lemma_plain_template("/infra/data-source-config/update"@);
    lemma_plain_template("/infra/demo01-contact/update"@);
    lemma_plain_template("/infra/demo02-category/update"@);
    lemma_plain_template("/infra/demo03-student-erp/demo03-course/update"@);
    lemma_plain_template("/infra/demo03-student-erp/demo03-grade/update"@);
    lemma_plain_template("/infra/demo03-student-erp/update"@);
    lemma_plain_template("/infra/demo03-student-inner/update"@);
    lemma_plain_template("/infra/demo03-student-normal/create"@);
    lemma_plain_template("/infra/demo03-student-normal/update"@);
    lemma_plain_template("/infra/file-config/create"@);
    lemma_plain_template("/infra/file-config/update"@);
    lemma_plain_template("/infra/file-config/update-master"@);
    lemma_plain_template("/infra/file/create"@);
    lemma_plain_template("/infra/file/upload"@);
}

/// The module's hand-written routes and their handlers.
pub open spec fn infra_special_table() -> Seq<(RouteSpec, Handler)> {
    seq![
        (
            RouteSpec { method: HttpMethod::Get, path: "/infra/config/get-value-by-key" },
            Handler::ConfigValueByKey,
        ),
        (RouteSpec { method: HttpMethod::Post, path: "/infra/file/upload" }, Handler::FileUpload),
        (
            RouteSpec { method: HttpMethod::Get, path: "/infra/file/presigned-url" },
            Handler::PresignedUrl,
        ),
        (RouteSpec { method: HttpMethod::Post, path: "/infra/file/create" }, Handler::FileUpload),
        (
            RouteSpec { method: HttpMethod::Get, path: "/infra/redis/get-monitor-info" },
            Handler::RedisMonitor,
        ),
    ]
}

/// Every template of the module's routes is well formed.
pub proof fn lemma_infra_templates_well_formed()
    ensures
        templates_well_formed(infra_table()),
        special_templates_well_formed(infra_special_table()),
{
    lemma_infra_table_1_well_formed();
    lemma_infra_table_2_well_formed();
    lemma_infra_table_3_well_formed();
    lemma_infra_table_4_well_formed();
    lemma_templates_well_formed_concat(infra_table_1(), infra_table_2());
    lemma_templates_well_formed_concat(infra_table_1() + infra_table_2(), infra_table_3());
    lemma_templates_well_formed_concat(infra_table_1() + infra_table_2() + infra_table_3(), infra_table_4());
    reveal_strlit("/infra/config/get-value-by-key");
    reveal_strlit("/infra/file/upload");
    reveal_strlit("/infra/file/presigned-url");
    reveal_strlit("/infra/file/create");
    reveal_strlit("/infra/redis/get-monitor-info");
    lemma_plain_template("/infra/config/get-value-by-key"@);
    lemma_plain_template("/infra/file/upload"@);
    lemma_plain_template("/infra/file/presigned-url"@);
    lemma_plain_template("/infra/file/create"@);
    lemma_plain_template("/infra/redis/get-monitor-info"@);
}

} // verus!
