//! Logical routers.
use vstd::prelude::*;

use crate::cluster::ovn::common::{OvnBasicType, OvnCommon, OvnNamed};
use crate::cluster::ovn::deserialization::{
    deserialize_object, deserialize_string, deserialize_uuid, spec_row_string, spec_row_uuid,
};
use crate::cluster::ovn::logicalrouterport::LogicalRouterPortBuilder;
use crate::cluster::ovn::lowlevel::TYPE_LOGICAL_ROUTER;
use crate::errors::Error;
use crate::json::{JsonData, JsonValue};

verus! {

broadcast use crate::json::data::group_json_view;

/// A row of `Logical_Router`.
pub struct LogicalRouter {
    pub uuid: String,
    pub name: String,
}

/// The view of a logical router.
pub struct LogicalRouterView {
    pub uuid: Seq<char>,
    pub name: Seq<char>,
}

impl View for LogicalRouter {
    type V = LogicalRouterView;

    open spec fn view(&self) -> LogicalRouterView {
        LogicalRouterView { uuid: self.uuid@, name: self.name@ }
    }
}

impl LogicalRouter {
    /// A builder of ports on this router.
    pub fn lrp(&self) -> (r: LogicalRouterPortBuilder)
        ensures
            r.lr_uuid@ == self.uuid@,
    {
        LogicalRouterPortBuilder { lr_uuid: self.uuid.clone() }
    }
}

impl OvnCommon for LogicalRouter {
    open spec fn spec_uuid(v: LogicalRouterView) -> Seq<char> {
        v.uuid
    }

    open spec fn spec_ovn_type() -> Seq<char> {
        TYPE_LOGICAL_ROUTER@
    }

    open spec fn spec_deserialize(row: JsonData) -> Option<LogicalRouterView> {
        match row {
            JsonData::Object(o) => match (spec_row_uuid(o), spec_row_string(o, "name"@)) {
                (Some(u), Some(n)) => Some(LogicalRouterView { uuid: u, name: n }),
                _ => None,
            },
            _ => None,
        }
    }

    fn uuid(&self) -> (r: String) {
        self.uuid.clone()
    }

    fn ovn_type() -> (r: String) {
        TYPE_LOGICAL_ROUTER.to_owned()
    }

    fn deserialize(value: &JsonValue) -> (r: Result<Self, Error>) {
        let object = deserialize_object(value)?;
        let uuid = deserialize_uuid(object)?;
        let name = deserialize_string(object, "name")?;
        Ok(LogicalRouter { uuid, name })
    }
}

impl OvnNamed for LogicalRouter {
    open spec fn spec_name(v: LogicalRouterView) -> Seq<char> {
        v.name
    }

    fn name(&self) -> (r: String) {
        self.name.clone()
    }
}

impl OvnBasicType for LogicalRouter {}

} // verus!
