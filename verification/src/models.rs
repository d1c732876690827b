use vstd::prelude::*;

verus! {

/// An arbitrary JSON value, carried through unchanged.
#[verifier::external_type_specification]
#[verifier::external_body]
pub struct ExJsonValue(serde_json::Value);

/// `Clone` of a JSON value: it produces a value that callers here only carry
/// along, so nothing is stated of it.
pub assume_specification[ <serde_json::Value as std::clone::Clone>::clone ](
    v: &serde_json::Value,
) -> serde_json::Value;

/// A point in time in UTC: whole seconds since the Unix epoch and the
/// nanoseconds within that second.
#[derive(Debug, Clone, Copy, PartialEq, Eq)]
pub struct Timestamp {
    pub secs: i64,
    pub nanos: u32,
}

/// Structure for error responses
#[derive(Debug, Clone, PartialEq)]
pub struct ErrorResponse {
    pub message: String,
}

/// Structure representing Realm information
#[derive(Debug, Clone, PartialEq)]
pub struct Realm {
    pub name: String,
    pub title: String,
    pub created_at: Timestamp,
    pub description: Option<String>,
    pub urn: Option<String>,
    pub cacert: String,
    pub signing_key: String,
    pub session_timeout: Option<i64>,
    pub administrators: Option<Vec<String>>,
    pub expired_at: Option<String>,
    pub disabled: bool,
    pub updated_at: Timestamp,
}

/// Structure used as a request body when creating a new Realm
#[derive(Debug)]
pub struct NewRealm {
    pub name: String,
    pub title: String,
    pub description: Option<String>,
    pub cacert: String,
    pub signing_key: String,
    pub session_timeout: Option<i64>,
    pub administrators: Option<Vec<String>>,
    pub expired_at: Option<String>,
    pub disabled: bool,
    pub created_at: Option<Timestamp>,
    pub updated_at: Option<Timestamp>,
}

/// Structure used as a request body when updating a Realm
#[derive(Debug)]
pub struct UpdateRealm {
    pub title: String,
    pub description: Option<String>,
    pub cacert: String,
    pub signing_key: String,
    pub session_timeout: Option<i64>,
    pub administrators: Option<Vec<String>>,
    pub expired_at: Option<String>,
    pub disabled: bool,
    pub created_at: Option<Timestamp>,
    pub updated_at: Option<Timestamp>,
}

/// Structure representing Zone information
#[derive(Debug, Clone, PartialEq)]
pub struct Zone {
    pub name: String,
    pub title: String,
    pub description: Option<String>,
    pub urn: Option<String>,
    pub dns_provider: Option<String>,
    pub realm: Option<String>,
    pub acme_certificate_provider: Option<String>,
    pub created_at: Timestamp,
    pub updated_at: Timestamp,
}

/// Structure used as a request body when creating a new Zone
#[derive(Debug)]
pub struct NewZone {
    pub name: String,
    pub title: String,
    pub description: Option<String>,
    pub dns_provider: Option<String>,
    pub acme_certificate_provider: Option<String>,
    pub created_at: Option<Timestamp>,
    pub updated_at: Option<Timestamp>,
}

/// Structure used as a request body when updating a Zone
#[derive(Debug)]
pub struct UpdateZone {
    pub title: String,
    pub description: Option<String>,
    pub dns_provider: Option<String>,
    pub acme_certificate_provider: Option<String>,
    pub created_at: Option<Timestamp>,
    pub updated_at: Option<Timestamp>,
}

/// Structure representing Subdomain information for storage and full response
#[derive(Debug, Clone, PartialEq)]
pub struct Subdomain {
    pub name: String,
    pub title: String,
    pub description: Option<String>,
    pub realm: Option<String>,
    pub destination_realm: Option<String>,
    pub share_cookie: bool,
    // Read-only fields, populated on retrieval
    pub fqdn: Option<String>,
    pub zone: Option<String>,
    pub urn: Option<String>,
    pub created_at: Timestamp,
    pub updated_at: Timestamp,
}

/// Structure for creating a new Subdomain
#[derive(Debug)]
pub struct NewSubdomain {
    pub name: String,
    pub title: String,
    pub description: Option<String>,
    pub realm: Option<String>,
    pub destination_realm: Option<String>,
    pub share_cookie: bool,
    pub created_at: Option<Timestamp>,
    pub updated_at: Option<Timestamp>,
}

/// Structure for updating a Subdomain. Note: `name` is immutable.
#[derive(Debug)]
pub struct UpdateSubdomain {
    pub title: String,
    pub description: Option<String>,
    pub realm: Option<String>,
    pub destination_realm: Option<String>,
    pub share_cookie: bool,
    pub created_at: Option<Timestamp>,
    pub updated_at: Option<Timestamp>,
}

/// Structure representing VirtualHost information
#[derive(Debug, Clone, PartialEq)]
pub struct VirtualHost {
    pub name: String,
    pub title: String,
    pub description: Option<String>,
    pub realm: Option<String>,
    pub urn: Option<String>,
    pub subdomain: String,
    pub routing_chain: String,
    pub access_log_recorder: Option<String>,
    pub access_log_max_value_length: Option<i32>,
    pub access_log_format: Option<serde_json::Value>,
    pub certificate: Option<Vec<String>>,
    pub key: Option<String>,
    pub disabled: Option<bool>,
    pub created_at: Timestamp,
    pub updated_at: Timestamp,
}

/// Structure representing VirtualHost information for API responses, including derived fields.
#[derive(Debug, Clone, PartialEq)]
pub struct VirtualHostResponse {
    pub name: String,
    pub title: String,
    pub description: Option<String>,
    pub realm: Option<String>,
    pub urn: Option<String>,
    pub fqdn: Option<String>,
    pub subdomain: String,
    pub routing_chain: String,
    pub access_log_recorder: Option<String>,
    pub access_log_max_value_length: Option<i32>,
    pub access_log_format: Option<serde_json::Value>,
    pub certificate: Option<Vec<String>>,
    pub key: Option<String>,
    pub disabled: Option<bool>,
    pub created_at: Timestamp,
    pub updated_at: Timestamp,
}

/// Structure used as a request body when creating a VirtualHost
#[derive(Debug)]
pub struct NewVirtualHost {
    pub name: String,
    pub title: String,
    pub description: Option<String>,
    pub subdomain: String,
    pub routing_chain: String,
    pub access_log_recorder: Option<String>,
    pub access_log_max_value_length: Option<i32>,
    pub access_log_format: Option<serde_json::Value>,
    pub certificate: Option<Vec<String>>,
    pub key: Option<String>,
    pub disabled: Option<bool>,
    pub created_at: Option<Timestamp>,
    pub updated_at: Option<Timestamp>,
}

/// Structure used as a request body when updating a VirtualHost
#[derive(Debug)]
pub struct UpdateVirtualHost {
    pub title: String,
    pub description: Option<String>,
    pub subdomain: String,
    pub routing_chain: String,
    pub access_log_recorder: Option<String>,
    pub access_log_max_value_length: Option<i32>,
    pub access_log_format: Option<serde_json::Value>,
    pub certificate: Option<Vec<String>>,
    pub key: Option<String>,
    pub disabled: Option<bool>,
    pub created_at: Option<Timestamp>,
    pub updated_at: Option<Timestamp>,
}

// --- RoutingChain related structures ---

#[derive(Debug, Clone, PartialEq)]
pub struct SetDeviceId {
    pub expiration: Option<i64>,
}

#[derive(Debug, Clone, PartialEq)]
pub struct CheckoutServices {}

#[derive(Debug, Clone, PartialEq)]
pub struct Proxy {
    pub target: String,
    pub no_body: bool,
}

#[derive(Debug, Clone, PartialEq)]
pub struct Redirect {}

#[derive(Debug, Clone, PartialEq)]
pub struct Jump {}

#[derive(Debug, Clone, PartialEq)]
pub struct SetVariables {}

#[derive(Debug, Clone, PartialEq)]
pub struct SetHeaders {}

#[derive(Debug, Clone, PartialEq)]
pub struct Authentication {}

#[derive(Debug, Clone, PartialEq)]
pub enum Action {
    SetDeviceId(SetDeviceId),
    CheckoutServices(CheckoutServices),
    Proxy(Proxy),
    Redirect(Redirect),
    Jump(Jump),
    SetVariables(SetVariables),
    SetHeaders(SetHeaders),
    Authentication(Authentication),
}

#[derive(Debug, Clone, PartialEq)]
pub struct Rule {
    pub match_condition: String,
    pub action: Action,
}

/// Structure representing RoutingChain information
#[derive(Debug, Clone, PartialEq)]
pub struct RoutingChain {
    pub name: String,
    pub title: String,
    pub description: Option<String>,
    pub urn: Option<String>,
    pub rules: Vec<Rule>,
    pub realm: Option<String>,
    pub created_at: Timestamp,
    pub updated_at: Timestamp,
}

/// Structure used for creating and updating a RoutingChain
#[derive(Debug)]
pub struct NewRoutingChain {
    pub name: String,
    pub title: String,
    pub description: Option<String>,
    pub rules: Vec<Rule>,
    pub created_at: Option<Timestamp>,
    pub updated_at: Option<Timestamp>,
}

/// Structure used for updating a RoutingChain
#[derive(Debug)]
pub struct UpdateRoutingChain {
    pub title: String,
    pub description: Option<String>,
    pub rules: Vec<Rule>,
    pub created_at: Option<Timestamp>,
    pub updated_at: Option<Timestamp>,
}

/// Structure representing Hub information
#[derive(Debug, Clone, PartialEq)]
pub struct Hub {
    pub name: String,
    pub title: String,
    pub fqdn: String,
    pub server_port: Option<u16>,
    pub server_cert: String,
    pub server_cert_key: String,
    pub description: Option<String>,
    pub realm: Option<String>,
    pub urn: Option<String>,
    pub attributes: serde_json::Value,
    pub created_at: Timestamp,
    pub updated_at: Timestamp,
}

/// Structure used as a request body when creating a new Hub
#[derive(Debug)]
pub struct NewHub {
    pub name: String,
    pub title: String,
    pub fqdn: String,
    pub server_port: Option<u16>,
    pub server_cert: String,
    pub server_cert_key: String,
    pub description: Option<String>,
    pub attributes: serde_json::Value,
    pub created_at: Option<Timestamp>,
    pub updated_at: Option<Timestamp>,
}

/// Structure used as a request body when updating a Hub
#[derive(Debug)]
pub struct UpdateHub {
    pub title: String,
    pub fqdn: String,
    pub server_port: Option<u16>,
    pub server_cert: String,
    pub server_cert_key: String,
    pub description: Option<String>,
    pub attributes: serde_json::Value,
    pub created_at: Option<Timestamp>,
    pub updated_at: Option<Timestamp>,
}

/// Structure representing Service information
#[derive(Debug, Clone, PartialEq)]
pub struct Service {
    pub name: String,
    pub title: String,
    pub description: Option<String>,
    pub realm: String,
    pub provider: Vec<String>,
    pub consumers: Vec<String>,
    pub availability_management: Option<AvailabilityManagement>,
    pub singleton: Option<bool>,
    // Read-only fields
    pub hub: String,
    pub urn: String,
    pub created_at: Timestamp,
    pub updated_at: Timestamp,
}

/// Structure representing AvailabilityManagement information
#[derive(Debug, Clone, PartialEq)]
pub struct AvailabilityManagement {
    pub cluster_manager_urn: String,
    pub service_id: String,
    pub start_at: Option<String>,
    pub stop_at: Option<String>,
    pub ondemand_start: Option<bool>,
    pub idle_timeout: Option<i32>,
    pub image: Option<String>,
    pub command: Option<Vec<String>>,
    pub env: Option<Vec<EnvVar>>,
    pub mount_points: Option<Vec<MountPoint>>,
}

#[derive(Debug, Clone, PartialEq)]
pub struct EnvVar {
    pub name: String,
    pub value: String,
}

#[derive(Debug, Clone, PartialEq)]
pub struct MountPoint {
    pub volume_size: i32,
    pub target: String,
}

/// Structure used as a request body when creating a new Service
#[derive(Debug)]
pub struct NewService {
    pub name: String,
    pub title: String,
    pub description: Option<String>,
    pub provider: Vec<String>,
    pub consumers: Vec<String>,
    pub availability_management: Option<AvailabilityManagement>,
    pub singleton: Option<bool>,
    pub created_at: Option<Timestamp>,
    pub updated_at: Option<Timestamp>,
}

/// Structure used as a request body when updating a Service
#[derive(Debug)]
pub struct UpdateService {
    pub title: String,
    pub description: Option<String>,
    pub provider: Vec<String>,
    pub consumers: Vec<String>,
    pub availability_management: Option<AvailabilityManagement>,
    pub singleton: Option<bool>,
    pub created_at: Option<Timestamp>,
    pub updated_at: Option<Timestamp>,
}

} // verus!
