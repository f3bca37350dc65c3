use nft_events::resolver::{record_collection, resolve_step, ResolveStep};
use nft_events::store::MetadataStore;

fn s(text: &str) -> String {
    String::from(text)
}

#[test]
fn test_collection_created_once_for_two_tokens() {
    // The same collection address sighted twice with differing token ids:
    // exactly one collection row and two token rows.
    let mut store = MetadataStore::new();
    let address = s("0xaaaa");

    // First sighting: (address, token 1).
    let step = resolve_step(&store, &address, &s("1"));
    assert!(matches!(step, ResolveStep::NeedCollection));
    let id = record_collection(&mut store, &address, Some((s("Kitties"), s("KIT"))));
    let step = resolve_step(&store, &address, &s("1"));
    match step {
        ResolveStep::NeedToken { collection_id } => assert_eq!(collection_id, id),
        _ => panic!("expected a token fetch for the first sighting"),
    }
    store.create_token(s("1"), id, Some(s("ipfs://one")));

    // Second sighting: (address, token 2). The collection is not re-created.
    let step = resolve_step(&store, &address, &s("2"));
    match step {
        ResolveStep::NeedToken { collection_id } => assert_eq!(collection_id, id),
        _ => panic!("an existing collection must not be fetched again"),
    }
    store.create_token(s("2"), id, Some(s("ipfs://two")));

    assert_eq!(store.collection_count(), 1);
    assert_eq!(store.token_count(), 2);
}

#[test]
fn test_ready_when_all_metadata_present() {
    let mut store = MetadataStore::new();
    let address = s("0xbbbb");
    let id = record_collection(&mut store, &address, Some((s("Punks"), s("PNK"))));
    store.create_token(s("7"), id, Some(s("https://meta/7")));

    match resolve_step(&store, &address, &s("7")) {
        ResolveStep::Ready { name, symbol, token_uri } => {
            assert_eq!(name, "Punks");
            assert_eq!(symbol, "PNK");
            assert_eq!(token_uri, "https://meta/7");
        }
        _ => panic!("complete metadata must resolve as ready"),
    }
}

#[test]
fn test_pending_when_name_symbol_unset() {
    // A contract that exposes neither name nor symbol still gets its row,
    // marking the address as attempted; the event stays pending.
    let mut store = MetadataStore::new();
    let address = s("0xcccc");
    let id = record_collection(&mut store, &address, None);
    store.create_token(s("3"), id, Some(s("u3")));

    let step = resolve_step(&store, &address, &s("3"));
    assert!(matches!(step, ResolveStep::Pending));
    // And the collection is still not fetched again.
    assert_eq!(store.collection_count(), 1);
}

#[test]
fn test_pending_when_uri_unset() {
    let mut store = MetadataStore::new();
    let address = s("0xdddd");
    let id = record_collection(&mut store, &address, Some((s("N"), s("S"))));
    store.create_token(s("9"), id, None);
    let step = resolve_step(&store, &address, &s("9"));
    assert!(matches!(step, ResolveStep::Pending));
}

#[test]
fn test_distinct_addresses_get_distinct_rows() {
    let mut store = MetadataStore::new();
    let first = record_collection(&mut store, &s("0x01"), None);
    let second = record_collection(&mut store, &s("0x02"), Some((s("A"), s("B"))));
    assert_ne!(first, second);
    assert_eq!(store.collection_count(), 2);
    assert!(store.get_collection(&s("0x01")).is_some());
    assert!(store.get_collection(&s("0x02")).is_some());
    assert!(store.get_collection(&s("0x03")).is_none());
}

#[test]
fn test_token_lookup_keyed_by_collection_and_id() {
    let mut store = MetadataStore::new();
    let a = record_collection(&mut store, &s("0x0a"), None);
    let b = record_collection(&mut store, &s("0x0b"), None);
    store.create_token(s("5"), a, Some(s("u5")));
    assert!(store.get_token(a, &s("5")).is_some());
    assert!(store.get_token(b, &s("5")).is_none());
    assert!(store.get_token(a, &s("6")).is_none());
}
