//! Inventory store: the data model of realms, zones, subdomains, virtual hosts,
//! routing chains, hubs and services, the key layout under which each is stored
//! in a key-value store, and the rules that turn the store's replies into results.

pub mod keys;
pub mod models;
pub mod store;
pub mod laws;
