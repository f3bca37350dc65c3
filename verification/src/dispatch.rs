use vstd::prelude::*;
use crate::event::Erc721Event;

verus! {

/// When an ERC721 event has been fetched and enriched, it is exposed to the
/// caller through this trait. The caller implements it and decides what to
/// do with the event; the metadata is passed along with it. A returned
/// error is confined to that one event: the scan goes on with the next.
pub trait Erc721EventCallback {
    /// The callback function.
    fn on_erc721_event(
        &mut self,
        event: Erc721Event,
        name: String,
        symbol: String,
        total_supply: Option<u128>,
        token_uri: String,
    ) -> Result<(), String>;
}

/// How the resolution of one fetched event ended.
pub enum Enrichment {
    /// Both metadata rows exist and are complete: deliver the event with
    /// this metadata.
    Ready {
        /// The collection name.
        name: String,
        /// The collection symbol.
        symbol: String,
        /// The token URI.
        token_uri: String,
    },
    /// Metadata is not fully available yet: the event is not delivered.
    Pending,
    /// Resolution failed for this event alone; the message says how.
    Failed {
        /// What went wrong, for the caller's log.
        message: String,
    },
}

/// Delivers one fetched batch to the callback. Exactly the events whose
/// enrichment is `Ready` are handed over, each once, in fetch order; a
/// callback or resolution failure is confined to its own event and never
/// keeps a later event from being delivered. The total supply is passed as
/// a constant placeholder; it is not yet queried from the chain. Returns
/// the positions of the delivered events, in delivery order, and the
/// positions of the events whose delivery or resolution failed.
pub fn dispatch_events<C: Erc721EventCallback>(
    events: &Vec<Erc721Event>,
    enrichments: &Vec<Enrichment>,
    callback: &mut C,
) -> (report: (Vec<usize>, Vec<usize>))
    requires
        events@.len() == enrichments@.len(),
    ensures
        forall|k: int| 0 <= k < report.0@.len() ==> #[trigger] report.0@[k] < events@.len(),
        forall|k: int|
            0 < k < report.0@.len() ==> #[trigger] report.0@[k - 1] < #[trigger] report.0@[k],
        forall|k: int|
            0 <= k < report.0@.len() ==> #[trigger] enrichments@[report.0@[k] as int] is Ready,
        forall|i: int|
            0 <= i < events@.len() && #[trigger] enrichments@[i] is Ready ==> exists|k: int|
                0 <= k < report.0@.len() && #[trigger] report.0@[k] == i,
        forall|k: int| 0 <= k < report.1@.len() ==> #[trigger] report.1@[k] < events@.len(),
        forall|i: int|
            0 <= i < events@.len() && #[trigger] enrichments@[i] is Failed ==> exists|k: int|
                0 <= k < report.1@.len() && #[trigger] report.1@[k] == i,
        forall|k: int|
            0 <= k < report.1@.len() ==> !(#[trigger] enrichments@[report.1@[k] as int] is Pending),
{
    let n = events.len();
    let mut delivered: Vec<usize> = Vec::new();
    let mut failed: Vec<usize> = Vec::new();
    let mut i: usize = 0;
    while i < n
        invariant
            events@.len() == enrichments@.len(),
            n == events@.len(),
            0 <= i <= n,
            forall|k: int| 0 <= k < delivered@.len() ==> #[trigger] delivered@[k] < i,
            forall|k: int|
                0 < k < delivered@.len() ==> #[trigger] delivered@[k - 1] < #[trigger] delivered@[k],
            forall|k: int|
                0 <= k < delivered@.len() ==> #[trigger] enrichments@[delivered@[k] as int] is Ready,
            forall|j: int|
                0 <= j < i && #[trigger] enrichments@[j] is Ready ==> exists|k: int|
                    0 <= k < delivered@.len() && #[trigger] delivered@[k] == j,
            forall|k: int| 0 <= k < failed@.len() ==> #[trigger] failed@[k] < i,
            forall|j: int|
                0 <= j < i && #[trigger] enrichments@[j] is Failed ==> exists|k: int|
                    0 <= k < failed@.len() && #[trigger] failed@[k] == j,
            forall|k: int|
                0 <= k < failed@.len() ==> !(#[trigger] enrichments@[failed@[k] as int] is Pending),
        decreases n - i,
    {
        let ghost pre_delivered = delivered@;
        let ghost pre_failed = failed@;
        match &enrichments[i] {
            Enrichment::Ready { name, symbol, token_uri } => {
                delivered.push(i);
                let outcome = callback.on_erc721_event(
                    events[i].clone(),
                    name.clone(),
                    symbol.clone(),
                    Some(0u128),
                    token_uri.clone(),
                );
                if outcome.is_err() {
                    failed.push(i);
                }
            },
            Enrichment::Pending => {},
            Enrichment::Failed { message: _ } => {
                failed.push(i);
            },
        }
        proof {
            assert forall|j: int|
                0 <= j < i + 1 && #[trigger] enrichments@[j] is Ready implies exists|k: int|
                    0 <= k < delivered@.len() && #[trigger] delivered@[k] == j by {
                if j < i {
                    let k = choose|k: int|
                        0 <= k < pre_delivered.len() && #[trigger] pre_delivered[k] == j;
                    assert(delivered@[k] == j);
                } else {
                    assert(delivered@[pre_delivered.len() as int] == i);
                }
            }
            assert forall|j: int|
                0 <= j < i + 1 && #[trigger] enrichments@[j] is Failed implies exists|k: int|
                    0 <= k < failed@.len() && #[trigger] failed@[k] == j by {
                if j < i {
                    let k = choose|k: int| 0 <= k < pre_failed.len() && #[trigger] pre_failed[k] == j;
                    assert(failed@[k] == j);
                } else {
                    assert(failed@[pre_failed.len() as int] == i);
                }
            }
        }
        i = i + 1;
    }
    (delivered, failed)
}

} // verus!
