//! The template engine: which engine runs a template, the values templates
//! pass along, and the step functions of the module and request engines.

use vstd::prelude::*;

use crate::json::JsonValue;
use crate::types::flags::IDbNo;
use crate::types::error::{ServiceError, ServerError};
use crate::module::{Page, Action, Template};
use crate::module::db::{ModuleDBSearch, ModuleDBOrder, ModuleDBPager};

pub mod module;
pub mod request;

pub use self::module::{EngineModuleInner, ModuleOperation, BulkStep};
pub use self::request::{EngineRequest, RequestStep, RequestTarget};

verus! {

/// A record of one of the kinds the module engine serves.
#[derive(Debug)]
pub enum EngineModule {
    Page(Page),
    Action(Action),
    Template(Template),
}

/// A record type that the module engine can hand back.
pub trait EngineModuleWrap: Sized {
    /// The engine value that holds this record.
    spec fn spec_wrap(self) -> EngineModule;

    /// This record as an engine value.
    fn wrap_engine_module(self) -> (r: EngineModule)
        ensures
            r == self.spec_wrap();
}

impl EngineModuleWrap for Page {
    open spec fn spec_wrap(self) -> EngineModule {
        EngineModule::Page(self)
    }

    fn wrap_engine_module(self) -> (r: EngineModule) {
        EngineModule::Page(self)
    }
}

impl EngineModuleWrap for Action {
    open spec fn spec_wrap(self) -> EngineModule {
        EngineModule::Action(self)
    }

    fn wrap_engine_module(self) -> (r: EngineModule) {
        EngineModule::Action(self)
    }
}

impl EngineModuleWrap for Template {
    open spec fn spec_wrap(self) -> EngineModule {
        EngineModule::Template(self)
    }

    fn wrap_engine_module(self) -> (r: EngineModule) {
        EngineModule::Template(self)
    }
}

/// A value that a template hands to the next one, or answers a request with.
#[derive(Debug)]
pub enum EngineValue {
    Any(JsonValue),
    SearchDetail(ModuleDBSearch),
    SearchList((ModuleDBSearch, ModuleDBOrder, ModuleDBPager)),
    Upsert(JsonValue),
    Module(EngineModule),
    ModuleArray(Vec<EngineModule>),
    ServiceError(ServiceError),
    ServerError(ServerError),
    Empty,
}

impl EngineValue {
    pub const ENGINE_TEMPLATE_DEFAULT: IDbNo = 0;
    pub const ENGINE_TEMPLATE_REQUEST: IDbNo = -1;
    pub const ENGINE_TEMPLATE_V8: IDbNo = -2;
    pub const ENGINE_TEMPLATE_TERA: IDbNo = -3;
    pub const ENGINE_MODULE_CONTENT: IDbNo = 1;
    pub const ENGINE_MODULE_MEMBER: IDbNo = 2;
    pub const ENGINE_MODULE_AUTH: IDbNo = 3;
    pub const ENGINE_MODULE_PAGE: IDbNo = 4;
    pub const ENGINE_MODULE_ACTION: IDbNo = 5;
    pub const ENGINE_MODULE_TEMPLATE: IDbNo = 6;

    pub const ENGINE_TYPE_ANY: &'static str = "Any";
    pub const ENGINE_TYPE_SEARCHDETAIL: &'static str = "SearchDetail";
    pub const ENGINE_TYPE_SEARCHLIST: &'static str = "SearchList";
    pub const ENGINE_TYPE_UPSERT: &'static str = "Upsert";
    pub const ENGINE_TYPE_MODULE: &'static str = "Module";
    pub const ENGINE_TYPE_MODULEARRAY: &'static str = "ModuleArray";
    pub const ENGINE_TYPE_SERVICEERROR: &'static str = "ServiceError";
    pub const ENGINE_TYPE_SERVERERROR: &'static str = "ServerError";
    pub const ENGINE_TYPE_NONE: &'static str = "None";
}

/// The engine that runs a template.
#[derive(Debug, Clone, Copy, PartialEq, Eq, Structural)]
pub enum EngineTarget {
    /// The request engine, which turns the request into a value.
    Request,
    /// The module engine over pages.
    Page,
    /// The module engine over actions.
    Action,
    /// The module engine over templates.
    Template,
}

/// The engine of a template with engine number `engine`; any other number is a module error.
pub open spec fn target_of(engine: IDbNo) -> Result<EngineTarget, ServiceError> {
    if engine == EngineValue::ENGINE_TEMPLATE_REQUEST {
        Ok(EngineTarget::Request)
    } else if engine == EngineValue::ENGINE_MODULE_PAGE {
        Ok(EngineTarget::Page)
    } else if engine == EngineValue::ENGINE_MODULE_ACTION {
        Ok(EngineTarget::Action)
    } else if engine == EngineValue::ENGINE_MODULE_TEMPLATE {
        Ok(EngineTarget::Template)
    } else {
        Err(ServiceError::HTTPRequestInternalServerError(ServerError::TemplateModuleError))
    }
}

impl Template {
    /// The engine that runs this template.
    pub fn engine_target(&self) -> (r: Result<EngineTarget, ServiceError>)
        ensures
            r == target_of(self.engine),
    {
        if self.engine == EngineValue::ENGINE_TEMPLATE_REQUEST {
            Ok(EngineTarget::Request)
        } else if self.engine == EngineValue::ENGINE_MODULE_PAGE {
            Ok(EngineTarget::Page)
        } else if self.engine == EngineValue::ENGINE_MODULE_ACTION {
            Ok(EngineTarget::Action)
        } else if self.engine == EngineValue::ENGINE_MODULE_TEMPLATE {
            Ok(EngineTarget::Template)
        } else {
            Err(ServiceError::from(ServerError::TemplateModuleError))
        }
    }
}

} // verus!
