use vstd::prelude::*;

verus! {

/// A collection row: one per contract address ever sighted. `name` and
/// `symbol` stay unset when the contract does not expose them; the row still
/// exists, marking the address as already attempted.
pub struct Collection {
    /// Row id; also the row's position in the store.
    pub id: u64,
    /// The contract address, the row's unique key.
    pub address: String,
    /// The collection name, if the contract exposed one.
    pub name: Option<String>,
    /// The collection symbol, if the contract exposed one.
    pub symbol: Option<String>,
}

/// A token row: one per `(collection, token id)` pair ever resolved.
pub struct Token {
    /// Id of the owning collection row.
    pub collection_id: u64,
    /// The token id within the collection; with the collection id, the
    /// row's unique key.
    pub token_id: String,
    /// The token URI, if one was resolved.
    pub uri: Option<String>,
}

/// The metadata store: collection and token rows with get-or-create
/// semantics. Row existence is the sole source of truth for whether a
/// remote metadata fetch is still needed: a row, once created, is never
/// created again for the same key.
pub struct MetadataStore {
    collections: Vec<Collection>,
    tokens: Vec<Token>,
}

impl MetadataStore {
    /// The collection rows, in creation order.
    pub closed spec fn collections(self) -> Seq<Collection> {
        self.collections@
    }

    /// The token rows, in creation order.
    pub closed spec fn tokens(self) -> Seq<Token> {
        self.tokens@
    }

    /// A collection row with this address exists.
    pub open spec fn has_collection(self, address: Seq<char>) -> bool {
        exists|i: int|
            0 <= i < self.collections().len() && self.collections()[i].address@ == address
    }

    /// Position of the collection row with this address (meaningful only
    /// under `has_collection`; unique under `wf`).
    pub open spec fn collection_index(self, address: Seq<char>) -> int {
        choose|i: int|
            0 <= i < self.collections().len() && self.collections()[i].address@ == address
    }

    /// The collection row with this address.
    pub open spec fn collection_for(self, address: Seq<char>) -> Collection {
        self.collections()[self.collection_index(address)]
    }

    /// A token row with this key exists.
    pub open spec fn has_token(self, collection_id: u64, token_id: Seq<char>) -> bool {
        exists|i: int|
            0 <= i < self.tokens().len() && #[trigger] self.tokens()[i].collection_id
                == collection_id && self.tokens()[i].token_id@ == token_id
    }

    /// Position of the token row with this key (meaningful only under
    /// `has_token`; unique under `wf`).
    pub open spec fn token_index(self, collection_id: u64, token_id: Seq<char>) -> int {
        choose|i: int|
            0 <= i < self.tokens().len() && #[trigger] self.tokens()[i].collection_id
                == collection_id && self.tokens()[i].token_id@ == token_id
    }

    /// The token row with this key.
    pub open spec fn token_for(self, collection_id: u64, token_id: Seq<char>) -> Token {
        self.tokens()[self.token_index(collection_id, token_id)]
    }

    /// Store invariant: collection addresses are unique, each collection
    /// row's id is its position, and token keys are unique.
    pub open spec fn wf(self) -> bool {
        &&& forall|i: int, j: int|
            0 <= i < j < self.collections().len() ==> #[trigger] self.collections()[i].address@
                != #[trigger] self.collections()[j].address@
        &&& forall|i: int|
            0 <= i < self.collections().len() ==> #[trigger] self.collections()[i].id == i as u64
        &&& forall|i: int, j: int|
            0 <= i < j < self.tokens().len() ==> !(#[trigger] self.tokens()[i].collection_id
                == #[trigger] self.tokens()[j].collection_id && self.tokens()[i].token_id@
                == self.tokens()[j].token_id@)
    }

    /// An empty store.
    pub fn new() -> (store: MetadataStore)
        ensures
            store.wf(),
            store.collections().len() == 0,
            store.tokens().len() == 0,
    {
        MetadataStore { collections: Vec::new(), tokens: Vec::new() }
    }

    /// Number of collection rows.
    pub fn collection_count(&self) -> (n: usize)
        ensures
            n == self.collections().len(),
    {
        self.collections.len()
    }

    /// Number of token rows.
    pub fn token_count(&self) -> (n: usize)
        ensures
            n == self.tokens().len(),
    {
        self.tokens.len()
    }

    /// The collection row at position `i`.
    pub fn collection(&self, i: usize) -> (row: &Collection)
        requires
            i < self.collections().len(),
        ensures
            *row == self.collections()[i as int],
    {
        &self.collections[i]
    }

    /// The token row at position `i`.
    pub fn token(&self, i: usize) -> (row: &Token)
        requires
            i < self.tokens().len(),
        ensures
            *row == self.tokens()[i as int],
    {
        &self.tokens[i]
    }

    /// Looks a collection up by address: the position of its row, or `None`
    /// when the address has never been sighted.
    pub fn get_collection(&self, address: &String) -> (r: Option<usize>)
        requires
            self.wf(),
        ensures
            match r {
                Some(i) => {
                    &&& i < self.collections().len()
                    &&& self.collections()[i as int].address@ == address@
                    &&& self.has_collection(address@)
                    &&& i as int == self.collection_index(address@)
                },
                None => !self.has_collection(address@),
            },
    {
        let n = self.collections.len();
        let mut i: usize = 0;
        while i < n
            invariant
                self.wf(),
                n == self.collections().len(),
                0 <= i <= n,
                forall|k: int| 0 <= k < i ==> #[trigger] self.collections()[k].address@ != address@,
            decreases n - i,
        {
            if self.collections[i].address == *address {
                proof {
                    let w = self.collection_index(address@);
                    assert(0 <= w < self.collections().len()
                        && self.collections()[w].address@ == address@);
                    assert(w == i as int);
                }
                return Some(i);
            }
            i = i + 1;
        }
        None
    }

    /// Looks a token up by its `(collection, token id)` key.
    pub fn get_token(&self, collection_id: u64, token_id: &String) -> (r: Option<usize>)
        requires
            self.wf(),
        ensures
            match r {
                Some(i) => {
                    &&& i < self.tokens().len()
                    &&& self.tokens()[i as int].collection_id == collection_id
                    &&& self.tokens()[i as int].token_id@ == token_id@
                    &&& self.has_token(collection_id, token_id@)
                    &&& i as int == self.token_index(collection_id, token_id@)
                },
                None => !self.has_token(collection_id, token_id@),
            },
    {
        let n = self.tokens.len();
        let mut i: usize = 0;
        while i < n
            invariant
                self.wf(),
                n == self.tokens().len(),
                0 <= i <= n,
                forall|k: int|
                    0 <= k < i ==> !(#[trigger] self.tokens()[k].collection_id == collection_id
                        && self.tokens()[k].token_id@ == token_id@),
            decreases n - i,
        {
            if self.tokens[i].collection_id == collection_id && self.tokens[i].token_id == *token_id {
                proof {
                    let w = self.token_index(collection_id, token_id@);
                    assert(0 <= w < self.tokens().len() && self.tokens()[w].collection_id
                        == collection_id && self.tokens()[w].token_id@ == token_id@);
                    assert(w == i as int);
                }
                return Some(i);
            }
            i = i + 1;
        }
        None
    }

    /// Creates the collection row for a first-sighted address and returns
    /// its id. The address must not have a row yet: creation happens at
    /// most once per address.
    pub fn create_collection(&mut self, address: String, name: Option<String>, symbol: Option<String>) -> (id: u64)
        requires
            old(self).wf(),
            !old(self).has_collection(address@),
            old(self).collections().len() < u64::MAX,
        ensures
            final(self).wf(),
            id == old(self).collections().len(),
            final(self).collections() == old(self).collections().push(
                (Collection { id, address, name, symbol }),
            ),
            final(self).tokens() == old(self).tokens(),
            final(self).has_collection(address@),
            final(self).collection_for(address@) == (Collection { id, address, name, symbol }),
    {
        let id = self.collections.len() as u64;
        let ghost addr_view = address@;
        let row = Collection { id, address, name, symbol };
        self.collections.push(row);
        proof {
            let s = self.collections();
            let n = s.len() - 1;
            assert(forall|i: int| 0 <= i < n ==> s[i] == old(self).collections()[i]);
            assert forall|i: int, j: int| 0 <= i < j < s.len() implies #[trigger] s[i].address@
                != #[trigger] s[j].address@ by {
                if j == n {
                    assert(!old(self).has_collection(addr_view));
                    assert(old(self).collections()[i].address@ != addr_view);
                }
            }
            assert(s[n].address@ == addr_view);
            assert(self.has_collection(addr_view));
            let w = self.collection_index(addr_view);
            assert(0 <= w < s.len() && s[w].address@ == addr_view);
            assert(w == n);
        }
        id
    }

    /// Creates the token row for a first-sighted `(collection, token id)`
    /// pair. The pair must not have a row yet: creation happens at most
    /// once per pair.
    pub fn create_token(&mut self, token_id: String, collection_id: u64, uri: Option<String>)
        requires
            old(self).wf(),
            !old(self).has_token(collection_id, token_id@),
        ensures
            final(self).wf(),
            final(self).tokens() == old(self).tokens().push(
                (Token { collection_id, token_id, uri }),
            ),
            final(self).collections() == old(self).collections(),
            final(self).has_token(collection_id, token_id@),
            final(self).token_for(collection_id, token_id@) == (Token { collection_id, token_id, uri }),
    {
        let ghost tid_view = token_id@;
        let row = Token { collection_id, token_id, uri };
        self.tokens.push(row);
        proof {
            let s = self.tokens();
            let n = s.len() - 1;
            assert(forall|i: int| 0 <= i < n ==> s[i] == old(self).tokens()[i]);
            assert forall|i: int, j: int| 0 <= i < j < s.len() implies !(#[trigger] s[i].collection_id
                == #[trigger] s[j].collection_id && s[i].token_id@ == s[j].token_id@) by {
                if j == n {
                    assert(!old(self).has_token(collection_id, tid_view));
                }
            }
            assert(s[n].collection_id == collection_id && s[n].token_id@ == tid_view);
            assert(self.has_token(collection_id, tid_view));
            let w = self.token_index(collection_id, tid_view);
            assert(0 <= w < s.len() && s[w].collection_id == collection_id && s[w].token_id@
                == tid_view);
            assert(w == n);
        }
    }
}

/// Number of collection rows carrying this address.
pub open spec fn count_with_address(rows: Seq<Collection>, address: Seq<char>) -> nat
    decreases rows.len(),
{
    if rows.len() == 0 {
        0
    } else {
        count_with_address(rows.drop_last(), address) + if rows.last().address@ == address {
            1nat
        } else {
            0nat
        }
    }
}

/// Number of token rows carrying this `(collection, token id)` key.
pub open spec fn count_with_token_key(rows: Seq<Token>, collection_id: u64, token_id: Seq<char>) -> nat
    decreases rows.len(),
{
    if rows.len() == 0 {
        0
    } else {
        count_with_token_key(rows.drop_last(), collection_id, token_id) + if rows.last().collection_id
            == collection_id && rows.last().token_id@ == token_id {
            1nat
        } else {
            0nat
        }
    }
}

proof fn lemma_count_address_zero(rows: Seq<Collection>, address: Seq<char>)
    requires
        forall|i: int| 0 <= i < rows.len() ==> #[trigger] rows[i].address@ != address,
    ensures
        count_with_address(rows, address) == 0,
    decreases rows.len(),
{
    if rows.len() > 0 {
        lemma_count_address_zero(rows.drop_last(), address);
    }
}

proof fn lemma_count_token_zero(rows: Seq<Token>, collection_id: u64, token_id: Seq<char>)
    requires
        forall|i: int|
            0 <= i < rows.len() ==> !(#[trigger] rows[i].collection_id == collection_id
                && rows[i].token_id@ == token_id),
    ensures
        count_with_token_key(rows, collection_id, token_id) == 0,
    decreases rows.len(),
{
    if rows.len() > 0 {
        lemma_count_token_zero(rows.drop_last(), collection_id, token_id);
    }
}

/// A collection row is created at most once per unique address: however
/// many sightings a well-formed store has absorbed, it holds at most one
/// row with any given address.
pub proof fn lemma_collection_created_at_most_once(store: MetadataStore, address: Seq<char>)
    requires
        store.wf(),
    ensures
        count_with_address(store.collections(), address) <= 1,
{
    lemma_count_at_most_one_address(store.collections(), address);
}

proof fn lemma_count_at_most_one_address(rows: Seq<Collection>, address: Seq<char>)
    requires
        forall|i: int, j: int|
            0 <= i < j < rows.len() ==> #[trigger] rows[i].address@ != #[trigger] rows[j].address@,
    ensures
        count_with_address(rows, address) <= 1,
    decreases rows.len(),
{
    if rows.len() > 0 {
        let prefix = rows.drop_last();
        if rows.last().address@ == address {
            assert(forall|i: int| 0 <= i < prefix.len() ==> #[trigger] prefix[i].address@
                != address);
            lemma_count_address_zero(prefix, address);
        } else {
            lemma_count_at_most_one_address(prefix, address);
        }
    }
}

/// A token row is created at most once per unique `(collection, token id)`
/// pair: a well-formed store holds at most one row with any given key.
pub proof fn lemma_token_created_at_most_once(store: MetadataStore, collection_id: u64, token_id: Seq<char>)
    requires
        store.wf(),
    ensures
        count_with_token_key(store.tokens(), collection_id, token_id) <= 1,
{
    lemma_count_at_most_one_token(store.tokens(), collection_id, token_id);
}

proof fn lemma_count_at_most_one_token(rows: Seq<Token>, collection_id: u64, token_id: Seq<char>)
    requires
        forall|i: int, j: int|
            0 <= i < j < rows.len() ==> !(#[trigger] rows[i].collection_id
                == #[trigger] rows[j].collection_id && rows[i].token_id@ == rows[j].token_id@),
    ensures
        count_with_token_key(rows, collection_id, token_id) <= 1,
    decreases rows.len(),
{
    if rows.len() > 0 {
        let prefix = rows.drop_last();
        if rows.last().collection_id == collection_id && rows.last().token_id@ == token_id {
            assert(forall|i: int|
                0 <= i < prefix.len() ==> !(#[trigger] prefix[i].collection_id == collection_id
                    && prefix[i].token_id@ == token_id));
            lemma_count_token_zero(prefix, collection_id, token_id);
        } else {
            lemma_count_at_most_one_token(prefix, collection_id, token_id);
        }
    }
}

/// At-most-once creation of collection rows, as a structural fact: in a
/// well-formed store, two collection rows with the same address are the
/// same row.
pub proof fn lemma_collection_row_unique(store: MetadataStore, i: int, j: int)
    requires
        store.wf(),
        0 <= i < store.collections().len(),
        0 <= j < store.collections().len(),
        store.collections()[i].address@ == store.collections()[j].address@,
    ensures
        i == j,
{
}

/// At-most-once creation of token rows: in a well-formed store, two token
/// rows with the same `(collection, token id)` key are the same row.
pub proof fn lemma_token_row_unique(store: MetadataStore, i: int, j: int)
    requires
        store.wf(),
        0 <= i < store.tokens().len(),
        0 <= j < store.tokens().len(),
        store.tokens()[i].collection_id == store.tokens()[j].collection_id,
        store.tokens()[i].token_id@ == store.tokens()[j].token_id@,
    ensures
        i == j,
{
}

} // verus!
