use vstd::prelude::*;
use crate::store::{Collection, MetadataStore};

verus! {

/// What the resolver needs next for one event, judged from the store alone.
/// Row existence is the sole source of truth: a remote fetch is asked for
/// only while the corresponding row is absent.
pub enum ResolveStep {
    /// No collection row for the event's address yet: fetch name and symbol
    /// from the chain, then record the collection.
    NeedCollection,
    /// The collection row exists, but no token row for this token yet:
    /// fetch the token URI from the chain, then record the token.
    NeedToken {
        /// Id of the existing collection row.
        collection_id: u64,
    },
    /// Both rows exist and carry name, symbol and URI: the event can be
    /// delivered with this metadata.
    Ready {
        /// The collection name.
        name: String,
        /// The collection symbol.
        symbol: String,
        /// The token URI.
        token_uri: String,
    },
    /// Both rows exist, but some metadata field stayed unset: the event is
    /// not delivered, and nothing is re-fetched.
    Pending,
}

/// Plans the next resolution step for the event with this collection
/// address and token id. A fetch is requested exactly while the
/// corresponding row is missing; once both rows exist, the outcome is
/// `Ready` exactly when name, symbol and URI are all set.
pub fn resolve_step(store: &MetadataStore, address: &String, token_id: &String) -> (step: ResolveStep)
    requires
        store.wf(),
    ensures
        step is NeedCollection <==> !store.has_collection(address@),
        step is NeedToken <==> store.has_collection(address@) && !store.has_token(
            store.collection_for(address@).id,
            token_id@,
        ),
        step matches ResolveStep::NeedToken { collection_id } ==> collection_id
            == store.collection_for(address@).id,
        step is Ready <==> {
            &&& store.has_collection(address@)
            &&& store.has_token(store.collection_for(address@).id, token_id@)
            &&& store.collection_for(address@).name is Some
            &&& store.collection_for(address@).symbol is Some
            &&& store.token_for(store.collection_for(address@).id, token_id@).uri is Some
        },
        step matches ResolveStep::Ready { name, symbol, token_uri } ==> {
            &&& store.collection_for(address@).name == Some(name)
            &&& store.collection_for(address@).symbol == Some(symbol)
            &&& store.token_for(store.collection_for(address@).id, token_id@).uri == Some(
                token_uri,
            )
        },
{
    match store.get_collection(address) {
        None => ResolveStep::NeedCollection,
        Some(ci) => {
            let collection = store.collection(ci);
            let collection_id = collection.id;
            match store.get_token(collection_id, token_id) {
                None => ResolveStep::NeedToken { collection_id },
                Some(ti) => {
                    let token = store.token(ti);
                    match (&collection.name, &collection.symbol, &token.uri) {
                        (Some(name), Some(symbol), Some(uri)) => ResolveStep::Ready {
                            name: name.clone(),
                            symbol: symbol.clone(),
                            token_uri: uri.clone(),
                        },
                        _ => ResolveStep::Pending,
                    }
                },
            }
        },
    }
}

/// The name stored for a first-sighted collection: the fetched one, if the
/// contract exposed any.
pub open spec fn spec_fetched_name(fetched: Option<(String, String)>) -> Option<String> {
    match fetched {
        Some(ns) => Some(ns.0),
        None => None,
    }
}

/// The symbol stored for a first-sighted collection.
pub open spec fn spec_fetched_symbol(fetched: Option<(String, String)>) -> Option<String> {
    match fetched {
        Some(ns) => Some(ns.1),
        None => None,
    }
}

/// Records a first-sighted collection with what the chain answered:
/// name and symbol when the contract exposed them, an empty-but-present row
/// otherwise, so that the address is marked as already attempted and is
/// never fetched again.
pub fn record_collection(store: &mut MetadataStore, address: &String, fetched: Option<(String, String)>) -> (id: u64)
    requires
        old(store).wf(),
        !old(store).has_collection(address@),
        old(store).collections().len() < u64::MAX,
    ensures
        final(store).wf(),
        id == old(store).collections().len(),
        final(store).collections() == old(store).collections().push(
            (Collection {
                id,
                address: *address,
                name: spec_fetched_name(fetched),
                symbol: spec_fetched_symbol(fetched),
            }),
        ),
        final(store).tokens() == old(store).tokens(),
        final(store).has_collection(address@),
        final(store).collection_for(address@).id == id,
        final(store).collection_for(address@).name == spec_fetched_name(fetched),
        final(store).collection_for(address@).symbol == spec_fetched_symbol(fetched),
{
    match fetched {
        Some((name, symbol)) => store.create_collection(address.clone(), Some(name), Some(symbol)),
        None => store.create_collection(address.clone(), None, None),
    }
}

} // verus!
