# inventory_store

A verified library for an inventory of realms, zones, subdomains, virtual
hosts, routing chains, hubs and services kept in etcd.

- `src/models.rs` — the records.
- `src/keys.rs` — the key layout (`realms/{realm}/zones/{zone}/...`), each key
  builder proved to produce exactly its layout.
- `src/store.rs` — how replies of the store are read: which entries of a prefix
  read are direct members of a collection, what a point read and a delete yield.
- `src/laws.rs` — proved properties of the layout: an item is listed with its
  collection exactly when its name holds no `/`, nested resources are never
  listed with their parents, and resources whose names hold no `/` never share
  a key.
- `app/` — the JSON encodings and the asynchronous etcd repository around the
  library.
