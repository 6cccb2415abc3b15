//! The token ledger: tokens by identifier, the counter that numbers them,
//! and the collection they belong to. The model lists the tokens in
//! ascending order of their identifiers.

use std::collections::HashMap;
use vstd::prelude::*;
use vstd::string::*;

use crate::store::{is_first_at, lemma_position_absent, lemma_position_is, lookup, position};
use crate::types::nft::{
    CollectionMetadata, CollectionMetadataView, Token, TokenView,
};

verus! {

/// Model of [`TokenLedger`].
pub struct TokenLedgerView {
    /// The tokens in ascending order of identifier, which is the order in
    /// which they were minted.
    pub tokens: Seq<TokenView>,
    /// The identifier that the next token gets.
    pub next_token_id: u64,
    pub collection: CollectionMetadataView,
}

/// The tokens with their identifiers as keys.
pub open spec fn by_id(tokens: Seq<TokenView>) -> Seq<(u64, TokenView)> {
    Seq::new(tokens.len(), |i: int| (tokens[i].id, tokens[i]))
}

/// The token with the identifier `token_id`.
pub open spec fn token_with(tokens: Seq<TokenView>, token_id: u64) -> Option<TokenView> {
    lookup(by_id(tokens), token_id)
}

/// The invariant of the ledger: identifiers start at one, grow strictly
/// along the tokens and lie below the counter, and the supply counts the
/// tokens.
pub open spec fn well_formed(ledger: TokenLedgerView) -> bool {
    &&& ledger.next_token_id >= 1
    &&& ledger.collection.total_supply == ledger.tokens.len()
    &&& forall|i: int|
        0 <= i < ledger.tokens.len() ==> i < (#[trigger] ledger.tokens[i]).id
            < ledger.next_token_id
    &&& forall|i: int, j: int|
        0 <= i < j < ledger.tokens.len() ==> (#[trigger] ledger.tokens[i]).id < (
        #[trigger] ledger.tokens[j]).id
}

/// The ledger before any token was minted.
pub open spec fn initial_ledger() -> TokenLedgerView {
    TokenLedgerView {
        tokens: Seq::empty(),
        next_token_id: 1,
        collection: CollectionMetadataView {
            name: "Origin Stamp Art NFTs"@,
            description: Some(
                "NFTs representing physical art pieces authenticated through Origin Stamp"@,
            ),
            image: None,
            total_supply: 0,
            max_supply: None,
        },
    }
}

/// The ledger after its counter handed out one identifier.
pub open spec fn allocated(ledger: TokenLedgerView) -> TokenLedgerView {
    TokenLedgerView { next_token_id: (ledger.next_token_id + 1) as u64, ..ledger }
}

/// The ledger with one more token at the end and the supply raised by one.
pub open spec fn recorded(ledger: TokenLedgerView, token: TokenView) -> TokenLedgerView {
    TokenLedgerView {
        tokens: ledger.tokens.push(token),
        collection: CollectionMetadataView {
            total_supply: (ledger.collection.total_supply + 1) as u64,
            ..ledger.collection
        },
        ..ledger
    }
}

/// `supply` lowered by one, and zero where it is zero.
pub open spec fn lowered(supply: u64) -> u64 {
    if supply > 0 {
        (supply - 1) as u64
    } else {
        0
    }
}

/// The ledger without the token `token_id` and with the supply lowered by
/// one; the ledger itself where it holds no such token.
pub open spec fn retracted(ledger: TokenLedgerView, token_id: u64) -> TokenLedgerView {
    match position(by_id(ledger.tokens), token_id) {
        Some(i) => TokenLedgerView {
            tokens: ledger.tokens.remove(i),
            collection: CollectionMetadataView {
                total_supply: lowered(ledger.collection.total_supply),
                ..ledger.collection
            },
            ..ledger
        },
        None => ledger,
    }
}

/// A token with `token_id` may be recorded: the counter has handed the
/// identifier out, and every recorded token is older.
pub open spec fn is_fresh(ledger: TokenLedgerView, token_id: u64) -> bool {
    &&& 1 <= token_id < ledger.next_token_id
    &&& forall|i: int| 0 <= i < ledger.tokens.len() ==> (#[trigger] ledger.tokens[i]).id < token_id
}

/// Retracting the token that was recorded last undoes the recording.
pub proof fn lemma_retract_undoes_record(ledger: TokenLedgerView, token: TokenView)
    requires
        well_formed(ledger),
        is_fresh(ledger, token.id),
    ensures
        retracted(recorded(ledger, token), token.id) == ledger,
{
    let after = recorded(ledger, token);
    let n = ledger.tokens.len() as int;
    assert forall|j: int| 0 <= j < n implies (#[trigger] by_id(after.tokens)[j]).0 != token.id by {
        assert(ledger.tokens[j].id < token.id);
    }
    assert(is_first_at(by_id(after.tokens), token.id, n));
    lemma_position_is(by_id(after.tokens), token.id, n);
    assert(after.tokens.remove(n) =~= ledger.tokens);
    if n > 0 {
        assert(ledger.tokens[n - 1].id < token.id);
    }
}

/// The tokens with identifiers below `bound`, in ascending order of
/// identifier.
pub open spec fn listed(tokens: Map<u64, Token>, bound: u64) -> Seq<TokenView>
    decreases bound,
{
    if bound == 0 {
        Seq::empty()
    } else {
        let id = (bound - 1) as u64;
        if tokens.contains_key(id) {
            listed(tokens, (bound - 1) as u64).push(tokens[id]@)
        } else {
            listed(tokens, (bound - 1) as u64)
        }
    }
}

/// Every token is stored under its own identifier, and none under zero.
pub open spec fn keyed(tokens: Map<u64, Token>) -> bool {
    forall|k: u64| #[trigger] tokens.contains_key(k) ==> k >= 1 && tokens[k].id == k
}

/// What the list holds: tokens of the map below the bound, each once, in
/// strictly ascending order of identifier.
proof fn lemma_listed_shape(tokens: Map<u64, Token>, bound: u64)
    requires
        keyed(tokens),
    ensures
        forall|i: int|
            0 <= i < listed(tokens, bound).len() ==> {
                let t = #[trigger] listed(tokens, bound)[i];
                t.id < bound && tokens.contains_key(t.id) && tokens[t.id]@ == t
            },
        forall|i: int, j: int|
            0 <= i < j < listed(tokens, bound).len() ==> (#[trigger] listed(tokens, bound)[i]).id
                < (#[trigger] listed(tokens, bound)[j]).id,
        bound > 0 ==> listed(tokens, bound).len() < bound,
        bound == 0 ==> listed(tokens, bound).len() == 0,
    decreases bound,
{
    if bound > 0 {
        let before = (bound - 1) as u64;
        lemma_listed_shape(tokens, before);
        let id = before;
        let shorter = listed(tokens, before);
        let longer = listed(tokens, bound);
        if tokens.contains_key(id) {
            assert(longer == shorter.push(tokens[id]@));
            assert forall|i: int| 0 <= i < longer.len() implies {
                let t = #[trigger] longer[i];
                t.id < bound && tokens.contains_key(t.id) && tokens[t.id]@ == t
            } by {
                if i < shorter.len() {
                    assert(longer[i] == shorter[i]);
                }
            }
            assert forall|i: int, j: int| 0 <= i < j < longer.len() implies (
            #[trigger] longer[i]).id < (#[trigger] longer[j]).id by {
                assert(longer[i] == shorter[i]);
                if j < shorter.len() {
                    assert(longer[j] == shorter[j]);
                }
            }
        }
    }
}

/// A list up to a lower bound is the beginning of the list up to a higher
/// one.
proof fn lemma_listed_prefix(tokens: Map<u64, Token>, low: u64, high: u64)
    requires
        low <= high,
    ensures
        listed(tokens, low).len() <= listed(tokens, high).len(),
        forall|i: int|
            0 <= i < listed(tokens, low).len() ==> listed(tokens, high)[i] == listed(
                tokens,
                low,
            )[i],
    decreases high,
{
    if low < high {
        lemma_listed_prefix(tokens, low, (high - 1) as u64);
    }
}

/// Where the list holds a token of the map, and that it is found there by
/// its identifier.
proof fn lemma_listed_at(tokens: Map<u64, Token>, id: u64, bound: u64)
    requires
        keyed(tokens),
        tokens.contains_key(id),
        id < bound,
    ensures
        listed(tokens, id).len() < listed(tokens, bound).len(),
        listed(tokens, bound)[listed(tokens, id).len() as int] == tokens[id]@,
        position(by_id(listed(tokens, bound)), id) == Some(listed(tokens, id).len() as int),
{
    let rank = listed(tokens, id).len() as int;
    let upto = listed(tokens, (id + 1) as u64);
    assert(upto == listed(tokens, id).push(tokens[id]@));
    assert(upto[rank] == tokens[id]@);
    lemma_listed_prefix(tokens, (id + 1) as u64, bound);
    let all = listed(tokens, bound);
    assert(all[rank] == upto[rank]);
    lemma_listed_shape(tokens, bound);
    let keys = by_id(all);
    assert(keys[rank].0 == id);
    assert forall|j: int| 0 <= j < rank implies (#[trigger] keys[j]).0 != id by {
        assert(all[j].id < all[rank].id);
    }
    lemma_position_is(keys, id, rank);
}

/// An identifier that the map does not hold is not found in the list.
proof fn lemma_listed_without(tokens: Map<u64, Token>, id: u64, bound: u64)
    requires
        keyed(tokens),
        !tokens.contains_key(id),
    ensures
        position(by_id(listed(tokens, bound)), id) is None,
{
    lemma_listed_shape(tokens, bound);
    let all = listed(tokens, bound);
    let keys = by_id(all);
    assert forall|j: int| 0 <= j < keys.len() implies (#[trigger] keys[j]).0 != id by {
        assert(tokens.contains_key(all[j].id));
    }
    lemma_position_absent(keys, id);
}

/// Maps that agree below the bound have the same list.
proof fn lemma_listed_agree(a: Map<u64, Token>, b: Map<u64, Token>, bound: u64)
    requires
        forall|k: u64|
            k < bound ==> (#[trigger] a.contains_key(k) == b.contains_key(k)) && (a.contains_key(k)
                ==> a[k]@ == b[k]@),
    ensures
        listed(a, bound) == listed(b, bound),
    decreases bound,
{
    if bound > 0 {
        lemma_listed_agree(a, b, (bound - 1) as u64);
        let id = (bound - 1) as u64;
        assert(a.contains_key(id) == b.contains_key(id));
    }
}

/// Bounds between which the map holds nothing give the same list.
proof fn lemma_listed_gap(tokens: Map<u64, Token>, low: u64, high: u64)
    requires
        low <= high,
        forall|k: u64| low <= k < high ==> !#[trigger] tokens.contains_key(k),
    ensures
        listed(tokens, high) == listed(tokens, low),
    decreases high,
{
    if low < high {
        lemma_listed_gap(tokens, low, (high - 1) as u64);
        let id = (high - 1) as u64;
        assert(!tokens.contains_key(id));
    }
}

/// Taking a token out of the map takes it out of the list.
proof fn lemma_listed_remove(tokens: Map<u64, Token>, id: u64, bound: u64)
    requires
        keyed(tokens),
        tokens.contains_key(id),
        id < bound,
    ensures
        listed(tokens.remove(id), bound) == listed(tokens, bound).remove(
            listed(tokens, id).len() as int,
        ),
    decreases bound,
{
    let rest = tokens.remove(id);
    let rank = listed(tokens, id).len() as int;
    let before = (bound - 1) as u64;
    if bound == id + 1 {
        lemma_listed_agree(rest, tokens, id);
        assert(listed(tokens, bound) == listed(tokens, id).push(tokens[id]@));
        assert(listed(rest, bound) == listed(rest, id));
        assert(listed(tokens, id).push(tokens[id]@).remove(rank) =~= listed(
            tokens,
            id,
        ));
    } else {
        lemma_listed_remove(tokens, id, before);
        lemma_listed_at(tokens, id, before);
        let last = before;
        assert(rest.contains_key(last) == tokens.contains_key(last));
        if tokens.contains_key(last) {
            assert(rest[last] == tokens[last]);
            assert(listed(tokens, before).push(tokens[last]@).remove(rank) =~= listed(
                tokens,
                before,
            ).remove(rank).push(tokens[last]@));
        }
    }
}

/// Putting another token under an identifier that the map holds puts it in
/// the same place of the list.
proof fn lemma_listed_update(tokens: Map<u64, Token>, id: u64, token: Token, bound: u64)
    requires
        keyed(tokens),
        tokens.contains_key(id),
        id < bound,
    ensures
        listed(tokens.insert(id, token), bound) == listed(tokens, bound).update(
            listed(tokens, id).len() as int,
            token@,
        ),
    decreases bound,
{
    let changed = tokens.insert(id, token);
    let rank = listed(tokens, id).len() as int;
    let before = (bound - 1) as u64;
    if bound == id + 1 {
        lemma_listed_agree(changed, tokens, id);
        assert(listed(tokens, bound) == listed(tokens, id).push(tokens[id]@));
        assert(listed(changed, bound) == listed(changed, id).push(token@));
        assert(listed(tokens, id).push(tokens[id]@).update(rank, token@) =~= listed(
            tokens,
            id,
        ).push(token@));
    } else {
        lemma_listed_update(tokens, id, token, before);
        lemma_listed_at(tokens, id, before);
        let last = before;
        assert(changed.contains_key(last) == tokens.contains_key(last));
        if tokens.contains_key(last) {
            assert(changed[last] == tokens[last]);
            assert(listed(tokens, before).push(tokens[last]@).update(rank, token@) =~= listed(
                tokens,
                before,
            ).update(rank, token@).push(tokens[last]@));
        }
    }
}

/// A list of tokens stored under their identifiers, all below the counter,
/// meets the invariant of the model but for the supply.
proof fn lemma_listed_well_formed(tokens: Map<u64, Token>, next_token_id: u64)
    requires
        keyed(tokens),
        next_token_id >= 1,
    ensures
        forall|i: int|
            0 <= i < listed(tokens, next_token_id).len() ==> i < (#[trigger] listed(
                tokens,
                next_token_id,
            )[i]).id < next_token_id,
        forall|i: int, j: int|
            0 <= i < j < listed(tokens, next_token_id).len() ==> (#[trigger] listed(
                tokens,
                next_token_id,
            )[i]).id < (#[trigger] listed(tokens, next_token_id)[j]).id,
{
    let all = listed(tokens, next_token_id);
    lemma_listed_shape(tokens, next_token_id);
    assert forall|i: int| 0 <= i < all.len() implies i < (#[trigger] all[i]).id
        < next_token_id by {
        let id = all[i].id;
        lemma_listed_at(tokens, id, next_token_id);
        let rank = listed(tokens, id).len() as int;
        lemma_listed_shape(tokens, id);
        if rank < i {
            assert(all[rank].id < all[i].id);
        }
        if i < rank {
            assert(all[i].id < all[rank].id);
        }
    }
}

/// The tokens of the collection and the counter that numbers them.
pub struct TokenLedger {
    tokens: HashMap<u64, Token>,
    next_token_id: u64,
    collection: CollectionMetadata,
}

impl View for TokenLedger {
    type V = TokenLedgerView;

    closed spec fn view(&self) -> TokenLedgerView {
        TokenLedgerView {
            tokens: listed(self.tokens@, self.next_token_id),
            next_token_id: self.next_token_id,
            collection: self.collection@,
        }
    }
}

impl TokenLedger {
    /// The invariant of the ledger: every token is stored under its own
    /// identifier, identifiers start at one and lie below the counter, and
    /// the supply counts the tokens.
    pub closed spec fn wf(&self) -> bool {
        &&& keyed(self.tokens@)
        &&& self.next_token_id >= 1
        &&& forall|k: u64| #[trigger] self.tokens@.contains_key(k) ==> k < self.next_token_id
        &&& self.collection.total_supply == listed(self.tokens@, self.next_token_id).len()
    }

    /// A ledger that meets its invariant has a model that meets the model's:
    /// the tokens are listed in strictly ascending order of identifier.
    pub proof fn lemma_wf_model(&self)
        requires
            self.wf(),
        ensures
            well_formed(self@),
    {
        lemma_listed_well_formed(self.tokens@, self.next_token_id);
    }

    /// A ledger without tokens, whose first token will be number one.
    pub fn new() -> (ledger: TokenLedger)
        ensures
            ledger@ == initial_ledger(),
            ledger.wf(),
            well_formed(ledger@),
    {
        broadcast use vstd::std_specs::hash::group_hash_axioms;

        let ledger = TokenLedger {
            tokens: HashMap::new(),
            next_token_id: 1,
            collection: CollectionMetadata {
                name: String::from_str("Origin Stamp Art NFTs"),
                description: Some(
                    String::from_str(
                        "NFTs representing physical art pieces authenticated through Origin Stamp",
                    ),
                ),
                image: None,
                total_supply: 0,
                max_supply: None,
            },
        };
        proof {
            reveal_with_fuel(listed, 2);
            assert(ledger@.tokens =~= Seq::<TokenView>::empty());
        }
        ledger
    }

    /// Number of tokens.
    pub fn len(&self) -> (n: u64)
        requires
            self.wf(),
        ensures
            n == self@.tokens.len(),
    {
        self.collection.total_supply
    }

    /// The identifier that the next token gets.
    pub fn next_token_id(&self) -> (id: u64)
        ensures
            id == self@.next_token_id,
    {
        self.next_token_id
    }

    /// The collection's metadata.
    pub fn collection(&self) -> (c: &CollectionMetadata)
        ensures
            c@ == self@.collection,
    {
        &self.collection
    }

    /// The tokens in ascending order of identifier.
    pub fn in_order(&self) -> (tokens: Vec<&Token>)
        ensures
            tokens@.len() == self@.tokens.len(),
            forall|i: int| 0 <= i < tokens@.len() ==> (#[trigger] tokens@[i])@ == self@.tokens[i],
    {
        broadcast use vstd::std_specs::hash::group_hash_axioms;

        let mut out: Vec<&Token> = Vec::new();
        let mut id: u64 = 0;
        while id < self.next_token_id
            invariant
                id <= self.next_token_id,
                out@.len() == listed(self.tokens@, id).len(),
                forall|i: int|
                    0 <= i < out@.len() ==> (#[trigger] out@[i])@ == listed(
                        self.tokens@,
                        id,
                    )[i],
            decreases self.next_token_id - id,
        {
            let ghost before = listed(self.tokens@, id);
            match self.tokens.get(&id) {
                Some(token) => {
                    out.push(token);
                    assert(listed(self.tokens@, (id + 1) as u64) == before.push(token@));
                },
                None => {
                    assert(listed(self.tokens@, (id + 1) as u64) == before);
                },
            }
            id = id + 1;
        }
        out
    }

    /// The token `token_id`.
    pub fn get(&self, token_id: u64) -> (r: Option<&Token>)
        requires
            self.wf(),
        ensures
            match r {
                Some(t) => token_with(self@.tokens, token_id) == Some(t@),
                None => token_with(self@.tokens, token_id) is None,
            },
    {
        broadcast use vstd::std_specs::hash::group_hash_axioms;

        let r = self.tokens.get(&token_id);
        proof {
            if self.tokens@.contains_key(token_id) {
                lemma_listed_at(self.tokens@, token_id, self.next_token_id);
                let rank = listed(self.tokens@, token_id).len() as int;
                assert(by_id(self@.tokens)[rank].1 == self@.tokens[rank]);
            } else {
                lemma_listed_without(self.tokens@, token_id, self.next_token_id);
            }
        }
        r
    }

    /// Hands out the next identifier. The counter never goes back: an
    /// identifier that was handed out is not handed out again, whatever
    /// becomes of its token.
    pub fn allocate_token_id(&mut self) -> (token_id: u64)
        requires
            old(self).wf(),
            old(self)@.next_token_id < u64::MAX,
        ensures
            token_id == old(self)@.next_token_id,
            final(self)@ == allocated(old(self)@),
            final(self).wf(),
            well_formed(final(self)@),
            is_fresh(final(self)@, token_id),
    {
        let token_id = self.next_token_id;
        proof {
            lemma_listed_gap(self.tokens@, token_id, (token_id + 1) as u64);
            lemma_listed_well_formed(self.tokens@, token_id);
        }
        self.next_token_id = token_id + 1;
        proof {
            lemma_listed_well_formed(self.tokens@, self.next_token_id);
        }
        token_id
    }

    /// Records a token whose identifier the counter has handed out, and
    /// raises the supply by one.
    pub fn record(&mut self, token: Token)
        requires
            old(self).wf(),
            is_fresh(old(self)@, token.id),
        ensures
            final(self)@ == recorded(old(self)@, token@),
            final(self).wf(),
            well_formed(final(self)@),
    {
        broadcast use vstd::std_specs::hash::group_hash_axioms;

        let ghost before = self.tokens@;
        let ghost next = self.next_token_id;
        let ghost id = token.id;
        proof {
            assert forall|k: u64| #[trigger] before.contains_key(k) implies k < id by {
                lemma_listed_at(before, k, next);
                let rank = listed(before, k).len() as int;
                assert(self@.tokens[rank].id == k);
            }
            lemma_listed_gap(before, id, next);
            lemma_listed_shape(before, id);
        }
        self.tokens.insert(token.id, token);
        self.collection.total_supply = self.collection.total_supply + 1;
        proof {
            let after = self.tokens@;
            assert(after == before.insert(id, token));
            lemma_listed_gap(after, (id + 1) as u64, next);
            lemma_listed_agree(after, before, id);
            assert(listed(after, (id + 1) as u64) == listed(after, id).push(token@));
            lemma_listed_well_formed(after, self.next_token_id);
        }
    }

    /// Takes the token `token_id` out again and lowers the supply by one.
    /// A ledger without such a token stays as it is.
    pub fn retract(&mut self, token_id: u64)
        requires
            old(self).wf(),
        ensures
            final(self)@ == retracted(old(self)@, token_id),
            final(self).wf(),
            well_formed(final(self)@),
    {
        broadcast use vstd::std_specs::hash::group_hash_axioms;

        let ghost before = self.tokens@;
        let ghost next = self.next_token_id;
        proof {
            lemma_listed_well_formed(before, self.next_token_id);
        }
        if self.tokens.contains_key(&token_id) {
            proof {
                lemma_listed_at(before, token_id, next);
                lemma_listed_remove(before, token_id, next);
            }
            self.tokens.remove(&token_id);
            self.collection.total_supply = if self.collection.total_supply > 0 {
                self.collection.total_supply - 1
            } else {
                0
            };
            proof {
                assert(self.tokens@ == before.remove(token_id));
                lemma_listed_well_formed(self.tokens@, self.next_token_id);
            }
        } else {
            proof {
                lemma_listed_without(before, token_id, next);
            }
        }
    }

    /// Puts `token` in the place of the token with the same identifier.
    pub fn put(&mut self, token: Token)
        requires
            old(self).wf(),
            token_with(old(self)@.tokens, token.id) is Some,
        ensures
            final(self)@ == (TokenLedgerView {
                tokens: old(self)@.tokens.update(
                    position(by_id(old(self)@.tokens), token.id)->0,
                    token@,
                ),
                ..old(self)@
            }),
            final(self).wf(),
            well_formed(final(self)@),
    {
        broadcast use vstd::std_specs::hash::group_hash_axioms;

        let ghost before = self.tokens@;
        let ghost next = self.next_token_id;
        let ghost id = token.id;
        proof {
            if !before.contains_key(id) {
                lemma_listed_without(before, id, next);
            }
            lemma_listed_at(before, id, next);
            lemma_listed_update(before, id, token, next);
        }
        self.tokens.insert(token.id, token);
        proof {
            assert(self.tokens@ == before.insert(id, token));
            lemma_listed_well_formed(self.tokens@, self.next_token_id);
        }
    }

    /// Sets what describes the collection; the supply stays.
    pub fn describe(
        &mut self,
        name: String,
        description: Option<String>,
        image: Option<String>,
        max_supply: Option<u64>,
    )
        ensures
            final(self)@ == (TokenLedgerView {
                collection: CollectionMetadataView {
                    name: name@,
                    description: description.deep_view(),
                    image: image.deep_view(),
                    total_supply: old(self)@.collection.total_supply,
                    max_supply,
                },
                ..old(self)@
            }),
            old(self).wf() ==> final(self).wf(),
    {
        self.collection.name = name;
        self.collection.description = description;
        self.collection.image = image;
        self.collection.max_supply = max_supply;
    }
}

} // verus!
