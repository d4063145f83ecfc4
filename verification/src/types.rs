//! Plain data-transfer records of the service's JSON payloads: catalog
//! entries, agent service registrations, and KV pairs. They carry no
//! behavior; the transport side encodes and decodes them.

use std::collections::BTreeMap;

use vstd::prelude::*;

verus! {

/// One entry of the catalog: a service instance and its location.
#[derive(Debug)]
pub struct CatalogService {
    pub service_id: String,
    pub service_name: String,
    pub service_address: String,
    pub service_port: i32,
    pub service_tags: Vec<String>,
    pub service_meta: Option<BTreeMap<String, String>>,
    pub create_index: u64,
    pub modify_index: u64,
}

/// The health check registered along with a service: a time-to-live and
/// how long a critical service lingers before deregistration.
#[derive(Debug)]
pub struct AgentServiceCheck {
    pub ttl: String,
    pub deregister_critical_service_after: String,
}

/// A service registration handed to the agent.
#[derive(Debug)]
pub struct AgentService {
    pub id: String,
    pub name: String,
    pub address: String,
    pub port: i32,
    pub tags: Vec<String>,
    pub meta: Option<BTreeMap<String, String>>,
    pub check: AgentServiceCheck,
}

/// One stored key/value pair as the KV endpoints report it.
#[derive(Debug)]
pub struct KVPair {
    pub lock_index: u64,
    pub key: String,
    pub flags: u64,
    pub value: String,
    pub create_index: u64,
    pub modify_index: u64,
}

} // verus!
