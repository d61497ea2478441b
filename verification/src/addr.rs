//! Identities and service addresses.
//!
//! A [`PackageId`] names the tenant on whose behalf a call is made: the
//! package name together with the node that published it. An [`Address`] is
//! the fixed logical destination of one of the three services; the substrate
//! resolves it, the client never addresses a shard or replica directly.

use vstd::prelude::*;
use vstd::string::StringExecFns;

verus! {

/// The tenant identifier carried in every request envelope.
#[derive(Debug, PartialEq, Eq)]
pub struct PackageId {
    pub package_name: String,
    pub publisher_node: String,
}

pub struct PackageIdV {
    pub package_name: Seq<char>,
    pub publisher_node: Seq<char>,
}

impl View for PackageId {
    type V = PackageIdV;

    open spec fn view(&self) -> PackageIdV {
        PackageIdV { package_name: self.package_name@, publisher_node: self.publisher_node@ }
    }
}

impl PackageId {
    pub fn new(package_name: String, publisher_node: String) -> (r: PackageId)
        ensures
            r@ == (PackageIdV { package_name: package_name@, publisher_node: publisher_node@ }),
    {
        PackageId { package_name, publisher_node }
    }

    /// An owned copy with the same contents.
    pub fn dup(&self) -> (r: PackageId)
        ensures
            r@ == self@,
    {
        PackageId {
            package_name: self.package_name.clone(),
            publisher_node: self.publisher_node.clone(),
        }
    }
}

/// The fixed logical destination of a service: node, process, package, and
/// publisher. The substrate routes on it; selecting one of the three services
/// is the only variation the client ever makes.
#[derive(Debug, PartialEq, Eq)]
pub struct Address {
    pub node: String,
    pub process: String,
    pub package: String,
    pub publisher: String,
}

pub struct AddressV {
    pub node: Seq<char>,
    pub process: Seq<char>,
    pub package: Seq<char>,
    pub publisher: Seq<char>,
}

impl View for Address {
    type V = AddressV;

    open spec fn view(&self) -> AddressV {
        AddressV {
            node: self.node@,
            process: self.process@,
            package: self.package@,
            publisher: self.publisher@,
        }
    }
}

pub open spec fn kv_address() -> AddressV {
    AddressV { node: "our"@, process: "kv"@, package: "sys"@, publisher: "uqbar"@ }
}

pub open spec fn graphdb_address() -> AddressV {
    AddressV { node: "our"@, process: "graphdb"@, package: "distro"@, publisher: "sys"@ }
}

pub open spec fn python_address() -> AddressV {
    AddressV { node: "our"@, process: "python"@, package: "distro"@, publisher: "sys"@ }
}

/// The destination of the key-value store service.
pub fn kv_target() -> (r: Address)
    ensures
        r@ == kv_address(),
{
    Address {
        node: String::from_str("our"),
        process: String::from_str("kv"),
        package: String::from_str("sys"),
        publisher: String::from_str("uqbar"),
    }
}

/// The destination of the graph database service.
pub fn graphdb_target() -> (r: Address)
    ensures
        r@ == graphdb_address(),
{
    Address {
        node: String::from_str("our"),
        process: String::from_str("graphdb"),
        package: String::from_str("distro"),
        publisher: String::from_str("sys"),
    }
}

/// The destination of the script runner service.
pub fn python_target() -> (r: Address)
    ensures
        r@ == python_address(),
{
    Address {
        node: String::from_str("our"),
        process: String::from_str("python"),
        package: String::from_str("distro"),
        publisher: String::from_str("sys"),
    }
}

} // verus!
