//! Rows of the OVN tables in the form `[_uuid, name]` that a generic reader fills.
use vstd::prelude::*;

use crate::text::string_views;

verus! {

/// A row with its `_uuid` column `["uuid", UUID]` and its name.
pub struct NamedRow {
    pub _uuid: Vec<String>,
    pub name: String,
}

/// A row of `DHCP_Options` with its `_uuid` column and its CIDR.
pub struct DhcpOptions {
    pub _uuid: Vec<String>,
    pub cidr: String,
}

/// The UUID in a `_uuid` column, which has exactly two items.
pub fn uuid_of(uuid_column: &Vec<String>) -> (r: String)
    requires
        uuid_column.len() == 2,
    ensures
        r@ == string_views(uuid_column@)[1],
{
    uuid_column[1].clone()
}

impl NamedRow {
    /// The UUID of the row.
    pub fn uuid(&self) -> (r: String)
        requires
            self._uuid.len() == 2,
        ensures
            r@ == self._uuid@[1]@,
    {
        uuid_of(&self._uuid)
    }
}

impl DhcpOptions {
    /// The UUID of the row.
    pub fn uuid(&self) -> (r: String)
        requires
            self._uuid.len() == 2,
        ensures
            r@ == self._uuid@[1]@,
    {
        uuid_of(&self._uuid)
    }
}

} // verus!
