use nft_events::dispatch::{dispatch_events, Enrichment, Erc721EventCallback};
use nft_events::event::Erc721Event;

fn s(text: &str) -> String {
    String::from(text)
}

fn event(token_id: &str, block_number: u64, log_index: u64) -> Erc721Event {
    Erc721Event {
        address: s("0xaaaa"),
        token_id: s(token_id),
        from: s("0x01"),
        to: s("0x02"),
        block_number,
        transaction_hash: s("0xhash"),
        log_index,
    }
}

fn ready(name: &str, symbol: &str, uri: &str) -> Enrichment {
    Enrichment::Ready { name: s(name), symbol: s(symbol), token_uri: s(uri) }
}

/// Collects what it is handed; fails on the token ids it was told to.
struct CollectingCallback {
    seen: Vec<(String, String, String, Option<u128>, String)>,
    fail_on: Vec<String>,
}

impl Erc721EventCallback for CollectingCallback {
    fn on_erc721_event(
        &mut self,
        event: Erc721Event,
        name: String,
        symbol: String,
        total_supply: Option<u128>,
        token_uri: String,
    ) -> Result<(), String> {
        let token_id = event.token_id.clone();
        self.seen.push((event.token_id, name, symbol, total_supply, token_uri));
        if self.fail_on.contains(&token_id) {
            Err(format!("cannot use {}", token_id))
        } else {
            Ok(())
        }
    }
}

#[test]
fn test_delivery_preserves_fetch_order() {
    let events = vec![event("1", 10, 0), event("2", 10, 1), event("3", 11, 0)];
    let enrichments = vec![
        ready("N", "S", "u1"),
        Enrichment::Pending,
        ready("N", "S", "u3"),
    ];
    let mut callback = CollectingCallback { seen: vec![], fail_on: vec![] };
    let (delivered, failed) = dispatch_events(&events, &enrichments, &mut callback);
    assert_eq!(delivered, vec![0, 2]);
    assert!(failed.is_empty());
    // The callback saw the ready events, once each, in fetch order, with the
    // placeholder total supply.
    assert_eq!(callback.seen.len(), 2);
    assert_eq!(callback.seen[0], (s("1"), s("N"), s("S"), Some(0), s("u1")));
    assert_eq!(callback.seen[1], (s("3"), s("N"), s("S"), Some(0), s("u3")));
}

#[test]
fn test_callback_error_does_not_stop_later_events() {
    let events = vec![event("1", 10, 0), event("2", 10, 1), event("3", 11, 0)];
    let enrichments = vec![
        ready("N", "S", "u1"),
        ready("N", "S", "u2"),
        ready("N", "S", "u3"),
    ];
    let mut callback = CollectingCallback { seen: vec![], fail_on: vec![s("1")] };
    let (delivered, failed) = dispatch_events(&events, &enrichments, &mut callback);
    // The failure on the first event is isolated: all three were delivered.
    assert_eq!(delivered, vec![0, 1, 2]);
    assert_eq!(failed, vec![0]);
    assert_eq!(callback.seen.len(), 3);
}

#[test]
fn test_resolution_failure_is_isolated_and_reported() {
    let events = vec![event("1", 10, 0), event("2", 10, 1)];
    let enrichments = vec![
        Enrichment::Failed { message: s("provider timed out") },
        ready("N", "S", "u2"),
    ];
    let mut callback = CollectingCallback { seen: vec![], fail_on: vec![] };
    let (delivered, failed) = dispatch_events(&events, &enrichments, &mut callback);
    assert_eq!(delivered, vec![1]);
    assert_eq!(failed, vec![0]);
    assert_eq!(callback.seen.len(), 1);
    assert_eq!(callback.seen[0].0, "2");
}

#[test]
fn test_empty_batch_delivers_nothing() {
    let events: Vec<Erc721Event> = vec![];
    let enrichments: Vec<Enrichment> = vec![];
    let mut callback = CollectingCallback { seen: vec![], fail_on: vec![] };
    let (delivered, failed) = dispatch_events(&events, &enrichments, &mut callback);
    assert!(delivered.is_empty());
    assert!(failed.is_empty());
    assert!(callback.seen.is_empty());
}
