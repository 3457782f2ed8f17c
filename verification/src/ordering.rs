//! Ordering fields of the service-surface list endpoints: the columns a
//! caller may sort or group by, and the SQL each maps to.

use vstd::prelude::*;

verus! {

/// Fields that services can be ordered or grouped by.
#[derive(Clone, Copy, PartialEq, Eq, Structural, Debug)]
pub enum ServiceOrderField {
    CreatedAt,
    Name,
    UpdatedAt,
    /// Sort by host name; needs a join to the hosts table.
    Host,
    NetworkId,
    Position,
}

impl Default for ServiceOrderField {
    fn default() -> (r: Self)
        ensures
            r is CreatedAt,
    {
        ServiceOrderField::CreatedAt
    }
}

impl ServiceOrderField {
    /// The ORDER BY column the field maps to.
    pub fn to_sql(&self) -> (r: &'static str)
        ensures
            self is CreatedAt ==> r@ == "services.created_at"@,
            self is Name ==> r@ == "services.name"@,
            self is UpdatedAt ==> r@ == "services.updated_at"@,
            self is NetworkId ==> r@ == "services.network_id"@,
            self is Position ==> r@ == "services.position"@,
            self is Host ==> r@ == "COALESCE(service_host.name, '')"@,
    {
        match self {
            ServiceOrderField::CreatedAt => "services.created_at",
            ServiceOrderField::Name => "services.name",
            ServiceOrderField::UpdatedAt => "services.updated_at",
            ServiceOrderField::NetworkId => "services.network_id",
            ServiceOrderField::Position => "services.position",
            ServiceOrderField::Host => "COALESCE(service_host.name, '')",
        }
    }

    /// The JOIN the ordering needs, if any: only the host column sorts
    /// through another table.
    pub fn join_sql(&self) -> (r: Option<&'static str>)
        ensures
            self is Host ==> (r matches Some(s) && s@
                == "LEFT JOIN hosts AS service_host ON services.host_id = service_host.id"@),
            !(self is Host) ==> r is None,
    {
        match self {
            ServiceOrderField::Host => Some(
                "LEFT JOIN hosts AS service_host ON services.host_id = service_host.id",
            ),
            _ => None,
        }
    }
}

/// Fields that subnets can be ordered or grouped by.
#[derive(Clone, Copy, PartialEq, Eq, Structural, Debug)]
pub enum SubnetOrderField {
    CreatedAt,
    Name,
    Cidr,
    SubnetType,
    UpdatedAt,
    NetworkId,
}

impl Default for SubnetOrderField {
    fn default() -> (r: Self)
        ensures
            r is CreatedAt,
    {
        SubnetOrderField::CreatedAt
    }
}

impl SubnetOrderField {
    /// The ORDER BY column the field maps to.
    pub fn to_sql(&self) -> (r: &'static str)
        ensures
            self is CreatedAt ==> r@ == "subnets.created_at"@,
            self is Name ==> r@ == "subnets.name"@,
            self is Cidr ==> r@ == "subnets.cidr"@,
            self is SubnetType ==> r@ == "subnets.subnet_type"@,
            self is UpdatedAt ==> r@ == "subnets.updated_at"@,
            self is NetworkId ==> r@ == "subnets.network_id"@,
    {
        match self {
            SubnetOrderField::CreatedAt => "subnets.created_at",
            SubnetOrderField::Name => "subnets.name",
            SubnetOrderField::Cidr => "subnets.cidr",
            SubnetOrderField::SubnetType => "subnets.subnet_type",
            SubnetOrderField::UpdatedAt => "subnets.updated_at",
            SubnetOrderField::NetworkId => "subnets.network_id",
        }
    }
}

} // verus!
