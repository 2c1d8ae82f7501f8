//! Static routes of logical routers.
use vstd::prelude::*;

use crate::cluster::ovn::common::OvnCommon;
use crate::cluster::ovn::deserialization::{
    deserialize_object, deserialize_string, deserialize_uuid, spec_row_string, spec_row_uuid,
};
use crate::cluster::ovn::lowlevel::TYPE_LOGICAL_ROUTER_STATIC_ROUTE;
use crate::errors::Error;
use crate::json::{entries_view, JsonData, JsonValue};

verus! {

broadcast use crate::json::data::group_json_view;

/// A row of `Logical_Router_Static_Route`.
pub struct StaticRoute {
    pub uuid: String,
    pub ip_prefix: String,
    pub nexthop: String,
}

/// The view of a static route.
pub struct StaticRouteView {
    pub uuid: Seq<char>,
    pub ip_prefix: Seq<char>,
    pub nexthop: Seq<char>,
}

impl View for StaticRoute {
    type V = StaticRouteView;

    open spec fn view(&self) -> StaticRouteView {
        StaticRouteView { uuid: self.uuid@, ip_prefix: self.ip_prefix@, nexthop: self.nexthop@ }
    }
}

impl StaticRoute {
    /// A copy of the route.
    pub fn copy(&self) -> (r: StaticRoute)
        ensures
            r@ == self@,
    {
        StaticRoute {
            uuid: self.uuid.clone(),
            ip_prefix: self.ip_prefix.clone(),
            nexthop: self.nexthop.clone(),
        }
    }
}

impl OvnCommon for StaticRoute {
    open spec fn spec_uuid(v: StaticRouteView) -> Seq<char> {
        v.uuid
    }

    open spec fn spec_ovn_type() -> Seq<char> {
        TYPE_LOGICAL_ROUTER_STATIC_ROUTE@
    }

    open spec fn spec_deserialize(row: JsonData) -> Option<StaticRouteView> {
        match row {
            JsonData::Object(o) => match (
                spec_row_uuid(o),
                spec_row_string(o, "ip_prefix"@),
                spec_row_string(o, "nexthop"@),
            ) {
                (Some(u), Some(p), Some(n)) => Some(
                    StaticRouteView { uuid: u, ip_prefix: p, nexthop: n },
                ),
                _ => None,
            },
            _ => None,
        }
    }

    fn uuid(&self) -> (r: String) {
        self.uuid.clone()
    }

    fn ovn_type() -> (r: String) {
        TYPE_LOGICAL_ROUTER_STATIC_ROUTE.to_owned()
    }

    fn deserialize(value: &JsonValue) -> (r: Result<Self, Error>) {
        let object = deserialize_object(value)?;
        let uuid = deserialize_uuid(object)?;
        let ip_prefix = deserialize_string(object, "ip_prefix")?;
        let nexthop = deserialize_string(object, "nexthop")?;
        Ok(StaticRoute { uuid, ip_prefix, nexthop })
    }
}

} // verus!
