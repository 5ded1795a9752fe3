use mac_control::address::SocketAddress;
use mac_control::cache::Lookup;
use mac_control::cache::MacControlMap;
use mac_control::cache::RecordHandle;
use mac_control::cache::RegisterResult;
use mac_control::store::LookupReply;
use mac_control::store::ReadRequest;
use mac_control::store::StorageError;
use mac_control::store::StoredBinding;
use mac_control::store::WriteReply;
use mac_control::store::WriteRequest;
use std::collections::HashMap;

/// A store in memory that counts what it is asked and can be switched off.
struct Store {
    rows: HashMap<String, String>,
    down: bool,
    lookups: usize,
    inserts: usize,
    updates: usize,
}

impl Store {
    fn new() -> Store {
        Store { rows: HashMap::new(), down: false, lookups: 0, inserts: 0, updates: 0 }
    }

    fn with(rows: &[(&str, &str)]) -> Store {
        let mut store = Store::new();
        for (mac_id, allowed_id) in rows {
            store.rows.insert(mac_id.to_string(), allowed_id.to_string());
        }
        store
    }

    fn failure() -> StorageError {
        StorageError { message: "connection refused".to_string() }
    }

    fn read(&mut self, request: &ReadRequest) -> LookupReply {
        self.lookups += 1;
        if self.down {
            return Err(Store::failure());
        }
        let (mac_id, wanted) = match request {
            ReadRequest::FindByMacId { mac_id } => (mac_id, None),
            ReadRequest::FindByMacAndAllowedId { mac_id, allowed_id } => (mac_id, Some(allowed_id)),
        };
        Ok(match self.rows.get(mac_id) {
            Some(allowed_id) if wanted.is_none() || wanted == Some(allowed_id) => {
                Some(StoredBinding { mac_id: mac_id.clone(), allowed_id: allowed_id.clone() })
            }
            _ => None,
        })
    }

    fn write(&mut self, request: &WriteRequest) -> WriteReply {
        match request {
            WriteRequest::InsertBinding { mac_id, allowed_id } => {
                self.inserts += 1;
                if self.down || self.rows.contains_key(mac_id) {
                    return Err(Store::failure());
                }
                self.rows.insert(mac_id.clone(), allowed_id.clone());
            }
            WriteRequest::UpdateBinding { mac_id, allowed_id } => {
                self.updates += 1;
                if self.down {
                    return Err(Store::failure());
                }
                if let Some(row) = self.rows.get_mut(mac_id) {
                    *row = allowed_id.clone();
                }
            }
        }
        Ok(())
    }
}

fn get(cache: &mut MacControlMap, store: &mut Store, mac_id: &str) -> Option<RecordHandle> {
    let mac_id = mac_id.to_string();
    match cache.get(&mac_id) {
        Lookup::Cached(handle) => Some(handle),
        Lookup::Ask(request) => {
            let reply = store.read(&request);
            cache.finish_get(&mac_id, reply)
        }
    }
}

fn get_by_allowed_id(
    cache: &mut MacControlMap,
    store: &mut Store,
    mac_id: &str,
    allowed_id: &str,
) -> Option<RecordHandle> {
    let mac_id = mac_id.to_string();
    let request = cache.get_allowed_id_with_mac_id(&mac_id, &allowed_id.to_string());
    let reply = store.read(&request);
    cache.finish_get(&mac_id, reply)
}

fn get_or(cache: &mut MacControlMap, store: &mut Store, mac_id: &str) -> RecordHandle {
    let mac_id = mac_id.to_string();
    match cache.get_or(&mac_id) {
        Lookup::Cached(handle) => handle,
        Lookup::Ask(request) => {
            let reply = store.read(&request);
            cache.finish_get_or(&mac_id, reply)
        }
    }
}

fn register(
    cache: &mut MacControlMap,
    store: &mut Store,
    mac_id: &str,
    allowed_id: &str,
    port: u16,
) -> RegisterResult {
    let handle = get_or(cache, store, mac_id);
    assert!(cache.holds(handle));
    let addr = SocketAddress::V4 { octets: 0x0A00_0001, port };
    let request = cache.update_pk(mac_id.to_string(), allowed_id.to_string(), handle, addr);
    let reply = store.write(&request);
    cache.finish_update_pk(handle, &request, reply)
}

fn peer_of(cache: &MacControlMap, handle: Option<RecordHandle>) -> Option<String> {
    handle.and_then(|handle| cache.record(handle)).map(|record| record.allowed_id.clone())
}

#[test]
fn what_was_registered_is_what_get_returns() {
    let mut cache = MacControlMap::new();
    let mut store = Store::with(&[("old-1", "peer-0"), ("old-2", "peer-0")]);
    let registrations = [
        ("new-1", "peer-1"),
        ("old-1", "peer-2"),
        ("new-1", "peer-3"),
        ("new-2", "peer-3"),
        ("old-1", "peer-4"),
        ("new-1", "peer-1"),
    ];
    for (mac_id, allowed_id) in registrations {
        assert_eq!(register(&mut cache, &mut store, mac_id, allowed_id, 1), RegisterResult::OK);
        let found = get(&mut cache, &mut store, mac_id);
        assert_eq!(peer_of(&cache, found).as_deref(), Some(allowed_id));
        assert_eq!(store.rows.get(mac_id).map(String::as_str), Some(allowed_id));
    }
    let untouched = get(&mut cache, &mut store, "old-2");
    assert_eq!(peer_of(&cache, untouched).as_deref(), Some("peer-0"));
}

#[test]
fn what_was_registered_is_found_by_a_cache_that_starts_anew() {
    let mut store = Store::new();
    let mut cache = MacControlMap::new();
    assert_eq!(register(&mut cache, &mut store, "dev-1", "peer-9", 1), RegisterResult::OK);
    let mut restarted = MacControlMap::new();
    assert!(!restarted.is_in_memory(&"dev-1".to_string()));
    let found = get(&mut restarted, &mut store, "dev-1");
    assert_eq!(peer_of(&restarted, found).as_deref(), Some("peer-9"));
    assert_eq!(restarted.record(found.unwrap()).unwrap().mac_id, "dev-1");
    // the record came from a row: the next registration updates
    assert_eq!(register(&mut restarted, &mut store, "dev-1", "peer-10", 1), RegisterResult::OK);
    assert_eq!((store.inserts, store.updates), (1, 1));
}

#[test]
fn a_device_costs_one_round_trip_however_often_it_is_looked_up() {
    let mut cache = MacControlMap::new();
    let mut store = Store::with(&[("dev-1", "peer-9"), ("dev-2", "peer-9")]);
    let first = get(&mut cache, &mut store, "dev-1");
    assert!(first.is_some());
    assert_eq!(store.lookups, 1);
    for _ in 0..10 {
        assert_eq!(get(&mut cache, &mut store, "dev-1"), first);
        assert_eq!(get_or(&mut cache, &mut store, "dev-1"), first.unwrap());
    }
    assert_eq!(store.lookups, 1);
    get(&mut cache, &mut store, "dev-2");
    assert_eq!(store.lookups, 2);
    assert_eq!(get(&mut cache, &mut store, "dev-1"), first);
    assert_eq!(store.lookups, 2);
}

#[test]
fn a_device_the_store_does_not_know_is_asked_for_each_time() {
    let mut cache = MacControlMap::new();
    let mut store = Store::new();
    for asked in 1..4 {
        assert_eq!(get(&mut cache, &mut store, "nobody"), None);
        assert_eq!(store.lookups, asked);
        assert!(!cache.is_in_memory(&"nobody".to_string()));
    }
}

#[test]
fn a_pairing_is_found_only_if_the_store_has_it() {
    let mut cache = MacControlMap::new();
    let mut store = Store::with(&[("dev-1", "peer-1")]);
    // memory gets to hold (dev-1, peer-1)
    let cached = get(&mut cache, &mut store, "dev-1").unwrap();
    // somebody else changes the row behind the cache's back
    store.rows.insert("dev-1".to_string(), "peer-2".to_string());

    // memory still says peer-1, but the store does not confirm it
    assert_eq!(cache.record(cached).unwrap().allowed_id, "peer-1");
    assert_eq!(get_by_allowed_id(&mut cache, &mut store, "dev-1", "peer-1"), None);
    assert_eq!(get_by_allowed_id(&mut cache, &mut store, "dev-1", "peer-3"), None);
    assert_eq!(get_by_allowed_id(&mut cache, &mut store, "nobody", "peer-2"), None);
    assert_eq!(cache.get_in_memory(&"dev-1".to_string()), Some(cached));

    // the pairing that the store has is found, and memory follows the store
    let confirmed = get_by_allowed_id(&mut cache, &mut store, "dev-1", "peer-2");
    assert_eq!(peer_of(&cache, confirmed).as_deref(), Some("peer-2"));
    assert_eq!(cache.record(confirmed.unwrap()).unwrap().mac_id, "dev-1");
    assert_eq!(get(&mut cache, &mut store, "dev-1"), confirmed);
    assert_eq!(store.lookups, 5);
}

#[test]
fn a_first_registration_inserts_and_a_second_one_updates() {
    let mut cache = MacControlMap::new();
    let mut store = Store::new();
    assert_eq!(register(&mut cache, &mut store, "dev-1", "peer-9", 1), RegisterResult::OK);
    assert_eq!((store.inserts, store.updates), (1, 0));
    assert_eq!(register(&mut cache, &mut store, "dev-1", "peer-42", 2), RegisterResult::OK);
    assert_eq!((store.inserts, store.updates), (1, 1));
    let found = get(&mut cache, &mut store, "dev-1");
    assert_eq!(peer_of(&cache, found).as_deref(), Some("peer-42"));
    assert_eq!(store.rows.get("dev-1").map(String::as_str), Some("peer-42"));
}

#[test]
fn a_store_that_is_down_fails_the_registration_but_not_the_lookup() {
    let mut cache = MacControlMap::new();
    let mut store = Store::with(&[("dev-1", "peer-1")]);
    let cached = get(&mut cache, &mut store, "dev-1");
    store.down = true;

    assert_eq!(register(&mut cache, &mut store, "dev-1", "peer-2", 1), RegisterResult::SERVER_ERROR);
    // memory and the store now disagree, and nothing hides it
    assert_eq!(peer_of(&cache, cached).as_deref(), Some("peer-2"));
    assert_eq!(store.rows.get("dev-1").map(String::as_str), Some("peer-1"));

    // a lookup treats the failure as "not there"
    assert_eq!(get(&mut cache, &mut store, "dev-2"), None);
    assert_eq!(get_by_allowed_id(&mut cache, &mut store, "dev-1", "peer-1"), None);

    // a new device is still given a record, and its registration fails
    assert_eq!(register(&mut cache, &mut store, "dev-3", "peer-3", 1), RegisterResult::SERVER_ERROR);
    assert!(cache.is_in_memory(&"dev-3".to_string()));
    assert!(store.rows.get("dev-3").is_none());

    // once the store is back the same registrations go through
    store.down = false;
    assert_eq!(register(&mut cache, &mut store, "dev-1", "peer-2", 1), RegisterResult::OK);
    assert_eq!(register(&mut cache, &mut store, "dev-3", "peer-3", 1), RegisterResult::OK);
    assert_eq!(store.rows.get("dev-1").map(String::as_str), Some("peer-2"));
    assert_eq!(store.rows.get("dev-3").map(String::as_str), Some("peer-3"));
    assert_eq!((store.inserts, store.updates), (2, 2));
}
