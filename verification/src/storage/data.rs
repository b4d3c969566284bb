//! The identifiers under which objects are stored.

use crate::ip::{Cidr, IpAddr};
use vstd::prelude::*;

verus! {

/// Identifies a domain.
#[derive(Debug, Clone, PartialEq, Eq)]
pub struct DomainId {
    pub ldh_name: String,
    pub unicode_name: Option<String>,
}

/// Identifies a name server.
#[derive(Debug, Clone, PartialEq, Eq)]
pub struct NameserverId {
    pub ldh_name: String,
    pub unicode_name: Option<String>,
}

/// Identifies an entity.
#[derive(Debug, Clone, PartialEq, Eq)]
pub struct EntityId {
    pub handle: String,
}

/// Identifies a range of autonomous system numbers, both ends included.
#[derive(Debug, Clone, Copy, PartialEq, Eq, Structural)]
pub struct AutnumId {
    pub start_autnum: u32,
    pub end_autnum: u32,
}

/// A network, given as a CIDR block or as a range of addresses.
#[derive(Debug, Clone, Copy, PartialEq, Eq, Structural)]
pub enum NetworkIdType {
    /// A CIDR block.
    Cidr(Cidr),
    /// The addresses from `start_address` to `end_address`, both included.
    Range { start_address: IpAddr, end_address: IpAddr },
}

/// Identifies a network.
#[derive(Debug, Clone, Copy, PartialEq, Eq, Structural)]
pub struct NetworkId {
    pub network_id: NetworkIdType,
}

} // verus!
