//! Routers.
use vstd::prelude::*;

verus! {

/// A static route of a router.
#[derive(Debug, PartialEq, Eq, Default)]
pub struct Route {
    pub cidr: String,
    pub nexthop: String,
}

/// The spec of a router.
#[derive(Debug, PartialEq, Eq, Default)]
pub struct RouterSpec {
    pub routes: Option<Vec<Route>>,
    pub metadata_service: Option<bool>,
}

/// The status of a router.
#[derive(Debug, PartialEq, Eq)]
pub struct RouterStatus {
    pub is_created: bool,
}

} // verus!
