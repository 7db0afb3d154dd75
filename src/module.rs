use vstd::prelude::*;

verus! {

/// An independently built unit of the gateway, known by a stable name.
pub trait Module {
    spec fn spec_name(&self) -> Seq<char>;

    fn name(&self) -> (r: &'static str)
        ensures
            r@ == self.spec_name(),
    ;
}

/// A module that takes part in the gateway's start-up.
pub trait ServiceModule: Module {
    /// Prepares the module before its routes are mounted; nothing by default.
    fn init(&self) {
    }
}

/// Lists the names of the given modules, in order.
pub fn describe_modules(modules: &[&dyn Module]) -> (r: Vec<String>)
    ensures
        r@.len() == modules@.len(),
        forall|i: int| 0 <= i < modules@.len() ==> #[trigger] r@[i]@ == modules@[i].spec_name(),
{
    let mut out: Vec<String> = Vec::new();
    let mut i: usize = 0;
    while i < modules.len()
        invariant
            i <= modules@.len(),
            out@.len() == i,
            forall|k: int| 0 <= k < i ==> #[trigger] out@[k]@ == modules@[k].spec_name(),
        decreases modules@.len() - i,
    {
        out.push(modules[i].name().to_owned());
        i = i + 1;
    }
    out
}

pub struct AiModule;

impl Module for AiModule {
    open spec fn spec_name(&self) -> Seq<char> {
        "daoyi-module-ai"@
    }

    fn name(&self) -> (r: &'static str) {
        "daoyi-module-ai"
    }
}

pub struct BpmModule;

impl Module for BpmModule {
    open spec fn spec_name(&self) -> Seq<char> {
        "daoyi-module-bpm"@
    }

    fn name(&self) -> (r: &'static str) {
        "daoyi-module-bpm"
    }
}

pub struct CrmModule;

impl Module for CrmModule {
    open spec fn spec_name(&self) -> Seq<char> {
        "daoyi-module-crm"@
    }

    fn name(&self) -> (r: &'static str) {
        "daoyi-module-crm"
    }
}

pub struct ErpModule;

impl Module for ErpModule {
    open spec fn spec_name(&self) -> Seq<char> {
        "daoyi-module-erp"@
    }

    fn name(&self) -> (r: &'static str) {
        "daoyi-module-erp"
    }
}

pub struct IotModule;

impl Module for IotModule {
    open spec fn spec_name(&self) -> Seq<char> {
        "daoyi-module-iot"@
    }

    fn name(&self) -> (r: &'static str) {
        "daoyi-module-iot"
    }
}

pub struct MallModule;

impl Module for MallModule {
    open spec fn spec_name(&self) -> Seq<char> {
        "daoyi-module-mall"@
    }

    fn name(&self) -> (r: &'static str) {
        "daoyi-module-mall"
    }
}

pub struct MemberModule;

impl Module for MemberModule {
    open spec fn spec_name(&self) -> Seq<char> {
        "daoyi-module-member"@
    }

    fn name(&self) -> (r: &'static str) {
        "daoyi-module-member"
    }
}

pub struct MpModule;

impl Module for MpModule {
    open spec fn spec_name(&self) -> Seq<char> {
        "daoyi-module-mp"@
    }

    fn name(&self) -> (r: &'static str) {
        "daoyi-module-mp"
    }
}

pub struct PayModule;

impl Module for PayModule {
    open spec fn spec_name(&self) -> Seq<char> {
        "daoyi-module-pay"@
    }

    fn name(&self) -> (r: &'static str) {
        "daoyi-module-pay"
    }
}

pub struct ReportModule;

impl Module for ReportModule {
    open spec fn spec_name(&self) -> Seq<char> {
        "daoyi-module-report"@
    }

    fn name(&self) -> (r: &'static str) {
        "daoyi-module-report"
    }
}

} // verus!
