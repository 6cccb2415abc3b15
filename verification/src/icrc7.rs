//! Reading the token ledger: the collection, pages of token identifiers,
//! owners, balances and metadata; and handing tokens on.

use vstd::prelude::*;
use vstd::string::*;

use crate::certificates::CertificateLedger;
use crate::error::NotFound;
use crate::identity::PrincipalId;
use crate::minting::{attribute, generate_token_hash, photo_attributes, push_photo_attributes, token_hash_text};
use crate::nft::{
    allocated, by_id, recorded, token_with, well_formed, TokenLedger, TokenLedgerView,
};
use crate::physical_art::SessionStore;
use crate::store::{lemma_position_sound, lookup, position};
use crate::text::{clone_optional_text, decimal, u64_to_decimal};
use crate::types::certificate::CertificateView;
use crate::types::nft::{
    clone_attributes, Account, AccountView, CollectionMetadata, Token, TokenMetadata,
    TokenMetadataView, TokenView, TransferError, TransferRequest, TransferRequestView,
    TransferResponse,
};
use crate::types::physical_art::PhysicalArtSessionView;

verus! {

/// Identifiers on a page where the caller names no size.
pub const DEFAULT_PAGE_SIZE: u64 = 100;

/// Most identifiers on a page.
pub const MAX_PAGE_SIZE: u64 = 1000;

/// The collection's metadata.
pub fn icrc7_collection_metadata(ledger: &TokenLedger) -> (r: CollectionMetadata)
    ensures
        r@ == ledger@.collection,
{
    ledger.collection().clone()
}

/// The collection's name.
pub fn icrc7_name(ledger: &TokenLedger) -> (r: String)
    ensures
        r@ == ledger@.collection.name,
{
    ledger.collection().name.clone()
}

/// The collection's description.
pub fn icrc7_description(ledger: &TokenLedger) -> (r: Option<String>)
    ensures
        r.deep_view() == ledger@.collection.description,
{
    clone_optional_text(&ledger.collection().description)
}

/// Number of tokens in the ledger.
pub fn icrc7_total_supply(ledger: &TokenLedger) -> (r: u64)
    requires
        ledger.wf(),
    ensures
        r == ledger@.tokens.len(),
{
    ledger.len()
}

/// Most tokens that the collection may hold, if it is capped.
pub fn icrc7_supply_cap(ledger: &TokenLedger) -> (r: Option<u64>)
    ensures
        r == ledger@.collection.max_supply,
{
    ledger.collection().max_supply
}

/// Size of a page: what the caller asks for, at most [`MAX_PAGE_SIZE`], and
/// [`DEFAULT_PAGE_SIZE`] where the caller asks for nothing.
pub open spec fn page_limit(take: Option<u64>) -> nat {
    match take {
        Some(t) => if t < MAX_PAGE_SIZE {
            t as nat
        } else {
            MAX_PAGE_SIZE as nat
        },
        None => DEFAULT_PAGE_SIZE as nat,
    }
}

/// At most the first `n` items of `s`.
pub open spec fn first_n<T>(s: Seq<T>, n: nat) -> Seq<T> {
    if s.len() <= n {
        s
    } else {
        s.subrange(0, n as int)
    }
}

/// Each identifier is smaller than the next.
pub open spec fn strictly_ascending(ids: Seq<u64>) -> bool {
    forall|i: int, j: int| 0 <= i < j < ids.len() ==> ids[i] < ids[j]
}

/// The identifiers of the tokens, in order.
pub open spec fn ids_of(tokens: Seq<TokenView>) -> Seq<u64> {
    Seq::new(tokens.len(), |i: int| tokens[i].id)
}

/// The tokens that come after the token `prev`, as a predicate; all tokens
/// where no `prev` is named.
pub open spec fn after(prev: Option<u64>) -> spec_fn(TokenView) -> bool {
    |t: TokenView|
        match prev {
            Some(p) => t.id > p,
            None => true,
        }
}

/// The tokens of `account` that come after the token `prev`, as a predicate.
pub open spec fn of_account_after(account: AccountView, prev: Option<u64>) -> spec_fn(TokenView) -> bool {
    |t: TokenView|
        t.owner == account && match prev {
            Some(p) => t.id > p,
            None => true,
        }
}

/// The tokens of `account`, as a predicate.
pub open spec fn of_account(account: AccountView) -> spec_fn(TokenView) -> bool {
    |t: TokenView| t.owner == account
}

/// The tokens of the principal `owner`, as a predicate.
pub open spec fn of_principal(owner: Seq<u8>) -> spec_fn(TokenView) -> bool {
    |t: TokenView| t.owner.owner == owner
}

/// The tokens minted for the session `session_id`, as a predicate.
pub open spec fn of_session(session_id: Seq<char>) -> spec_fn(TokenView) -> bool {
    |t: TokenView| t.session_id == Some(session_id)
}

/// Taking one more item into a page changes the page only while it is not
/// full.
proof fn lemma_first_n_push<T>(s: Seq<T>, x: T, n: nat)
    ensures
        first_n(s.push(x), n) == if s.len() < n {
            first_n(s, n).push(x)
        } else {
            first_n(s, n)
        },
{
    if s.len() < n {
        assert(first_n(s.push(x), n) =~= first_n(s, n).push(x));
    } else {
        assert(first_n(s.push(x), n) =~= first_n(s, n));
    }
}

/// The page size for `take`.
fn limit_of(take: Option<u64>) -> (limit: usize)
    ensures
        limit == page_limit(take),
{
    match take {
        Some(t) => if t < MAX_PAGE_SIZE {
            t as usize
        } else {
            MAX_PAGE_SIZE as usize
        },
        None => DEFAULT_PAGE_SIZE as usize,
    }
}

/// Whether `token_id` comes after `prev`.
fn comes_after(token_id: u64, prev: Option<u64>) -> (r: bool)
    ensures
        r == match prev {
            Some(p) => token_id > p,
            None => true,
        },
{
    match prev {
        Some(p) => token_id > p,
        None => true,
    }
}

/// One page of token identifiers in ascending order: those after `prev`, at
/// most `take` of them. The ledger lists its tokens by ascending identifier,
/// so the page is ascending too.
pub fn icrc7_tokens(ledger: &TokenLedger, prev: Option<u64>, take: Option<u64>) -> (r: Vec<u64>)
    ensures
        r@ == ids_of(first_n(ledger@.tokens.filter(after(prev)), page_limit(take))),
        well_formed(ledger@) ==> strictly_ascending(r@),
        ledger.wf() ==> strictly_ascending(r@),
{
    proof {
        if ledger.wf() {
            ledger.lemma_wf_model();
        }
    }
    let limit = limit_of(take);
    let mut out: Vec<u64> = Vec::new();
    let mut i: usize = 0;
    let tokens = ledger.in_order();
    let ghost all = ledger@.tokens;
    assert(all.subrange(0, 0) =~= Seq::<TokenView>::empty());
    assert(out@ =~= ids_of(first_n(all.subrange(0, 0).filter(after(prev)), limit as nat)));
    while i < tokens.len()
        invariant
            i <= ledger@.tokens.len(),
            tokens@.len() == ledger@.tokens.len(),
            forall|k: int| 0 <= k < tokens@.len() ==> (#[trigger] tokens@[k])@ == ledger@.tokens[k],
            all == ledger@.tokens,
            limit == page_limit(take),
            out@ == ids_of(first_n(all.subrange(0, i as int).filter(after(prev)), limit as nat)),
            well_formed(ledger@) ==> strictly_ascending(out@),
            well_formed(ledger@) ==> forall|j: int|
                0 <= j < out@.len() ==> i > 0 && #[trigger] out@[j] <= all[i - 1].id,
        decreases ledger@.tokens.len() - i,
    {
        let t = tokens[i];
        proof {
            let a = all.subrange(0, i as int);
            let b = all.subrange(0, i as int + 1);
            assert(b =~= a.push(t@));
            assert(b.drop_last() =~= a);
            reveal(Seq::filter);
            lemma_first_n_push(a.filter(after(prev)), t@, limit as nat);
        }
        if comes_after(t.id, prev) && out.len() < limit {
            let ghost page = first_n(all.subrange(0, i as int).filter(after(prev)), limit as nat);
            out.push(t.id);
            assert(out@ =~= ids_of(page.push(t@)));
        }
        proof {
            if well_formed(ledger@) && i > 0 {
                assert(all[i - 1].id < all[i as int].id);
            }
        }
        i = i + 1;
    }
    assert(all.subrange(0, ledger@.tokens.len() as int) =~= all);
    out
}

/// One page of the identifiers of the tokens of `account` in ascending
/// order: those after `prev`, at most `take` of them.
pub fn icrc7_tokens_of(
    ledger: &TokenLedger,
    account: &Account,
    prev: Option<u64>,
    take: Option<u64>,
) -> (r: Vec<u64>)
    ensures
        r@ == ids_of(
            first_n(ledger@.tokens.filter(of_account_after(account@, prev)), page_limit(take)),
        ),
        well_formed(ledger@) ==> strictly_ascending(r@),
        ledger.wf() ==> strictly_ascending(r@),
{
    proof {
        if ledger.wf() {
            ledger.lemma_wf_model();
        }
    }
    let limit = limit_of(take);
    let mut out: Vec<u64> = Vec::new();
    let mut i: usize = 0;
    let tokens = ledger.in_order();
    let ghost all = ledger@.tokens;
    let ghost pred = of_account_after(account@, prev);
    assert(all.subrange(0, 0) =~= Seq::<TokenView>::empty());
    assert(out@ =~= ids_of(first_n(all.subrange(0, 0).filter(pred), limit as nat)));
    while i < tokens.len()
        invariant
            i <= ledger@.tokens.len(),
            tokens@.len() == ledger@.tokens.len(),
            forall|k: int| 0 <= k < tokens@.len() ==> (#[trigger] tokens@[k])@ == ledger@.tokens[k],
            all == ledger@.tokens,
            pred == of_account_after(account@, prev),
            limit == page_limit(take),
            out@ == ids_of(first_n(all.subrange(0, i as int).filter(pred), limit as nat)),
            well_formed(ledger@) ==> strictly_ascending(out@),
            well_formed(ledger@) ==> forall|j: int|
                0 <= j < out@.len() ==> i > 0 && #[trigger] out@[j] <= all[i - 1].id,
        decreases ledger@.tokens.len() - i,
    {
        let t = tokens[i];
        proof {
            let a = all.subrange(0, i as int);
            let b = all.subrange(0, i as int + 1);
            assert(b =~= a.push(t@));
            assert(b.drop_last() =~= a);
            reveal(Seq::filter);
            lemma_first_n_push(a.filter(pred), t@, limit as nat);
        }
        if t.owner.equals(account) && comes_after(t.id, prev) && out.len() < limit {
            let ghost page = first_n(all.subrange(0, i as int).filter(pred), limit as nat);
            out.push(t.id);
            assert(out@ =~= ids_of(page.push(t@)));
        }
        proof {
            if well_formed(ledger@) && i > 0 {
                assert(all[i - 1].id < all[i as int].id);
            }
        }
        i = i + 1;
    }
    assert(all.subrange(0, ledger@.tokens.len() as int) =~= all);
    out
}

/// The owner of each of the tokens `token_ids`, in their order; nothing for
/// an identifier that no token has.
pub fn icrc7_owner_of(ledger: &TokenLedger, token_ids: &Vec<u64>) -> (r: Vec<Option<Account>>)
    requires
        ledger.wf(),
    ensures
        r@.len() == token_ids@.len(),
        forall|i: int|
            0 <= i < r@.len() ==> match token_with(ledger@.tokens, token_ids@[i]) {
                Some(t) => (#[trigger] r@[i]) is Some && r@[i]->0@ == t.owner,
                None => r@[i] is None,
            },
{
    let mut out: Vec<Option<Account>> = Vec::new();
    let mut i: usize = 0;
    while i < token_ids.len()
        invariant
            i <= token_ids.len(),
            out@.len() == i,
            ledger.wf(),
            forall|j: int|
                0 <= j < i ==> match token_with(ledger@.tokens, token_ids@[j]) {
                    Some(t) => (#[trigger] out@[j]) is Some && out@[j]->0@ == t.owner,
                    None => out@[j] is None,
                },
        decreases token_ids.len() - i,
    {
        let owner = match ledger.get(token_ids[i]) {
            Some(t) => Some(t.owner.clone()),
            None => None,
        };
        out.push(owner);
        i = i + 1;
    }
    out
}

/// The metadata of each of the tokens `token_ids`, in their order; nothing
/// for an identifier that no token has.
pub fn icrc7_token_metadata(ledger: &TokenLedger, token_ids: &Vec<u64>) -> (r: Vec<
    Option<TokenMetadata>,
>)
    requires
        ledger.wf(),
    ensures
        r@.len() == token_ids@.len(),
        forall|i: int|
            0 <= i < r@.len() ==> match token_with(ledger@.tokens, token_ids@[i]) {
                Some(t) => (#[trigger] r@[i]) is Some && r@[i]->0@ == t.metadata,
                None => r@[i] is None,
            },
{
    let mut out: Vec<Option<TokenMetadata>> = Vec::new();
    let mut i: usize = 0;
    while i < token_ids.len()
        invariant
            i <= token_ids.len(),
            out@.len() == i,
            ledger.wf(),
            forall|j: int|
                0 <= j < i ==> match token_with(ledger@.tokens, token_ids@[j]) {
                    Some(t) => (#[trigger] out@[j]) is Some && out@[j]->0@ == t.metadata,
                    None => out@[j] is None,
                },
        decreases token_ids.len() - i,
    {
        let metadata = match ledger.get(token_ids[i]) {
            Some(t) => Some(t.metadata.clone()),
            None => None,
        };
        out.push(metadata);
        i = i + 1;
    }
    out
}

/// Number of tokens of `account`.
fn balance(ledger: &TokenLedger, account: &Account) -> (n: u64)
    ensures
        n == ledger@.tokens.filter(of_account(account@)).len(),
{
    let mut n: u64 = 0;
    let mut i: usize = 0;
    let tokens = ledger.in_order();
    let ghost all = ledger@.tokens;
    let ghost pred = of_account(account@);
    assert(all.subrange(0, 0) =~= Seq::<TokenView>::empty());
    while i < tokens.len()
        invariant
            i <= ledger@.tokens.len(),
            tokens@.len() == ledger@.tokens.len(),
            forall|k: int| 0 <= k < tokens@.len() ==> (#[trigger] tokens@[k])@ == ledger@.tokens[k],
            all == ledger@.tokens,
            pred == of_account(account@),
            n == all.subrange(0, i as int).filter(pred).len(),
            n <= i,
        decreases ledger@.tokens.len() - i,
    {
        let t = tokens[i];
        proof {
            let a = all.subrange(0, i as int);
            let b = all.subrange(0, i as int + 1);
            assert(b =~= a.push(t@));
            assert(b.drop_last() =~= a);
            reveal(Seq::filter);
        }
        if t.owner.equals(account) {
            n = n + 1;
        }
        i = i + 1;
    }
    assert(all.subrange(0, ledger@.tokens.len() as int) =~= all);
    n
}

/// Number of tokens of each of the accounts, in their order.
pub fn icrc7_balance_of(ledger: &TokenLedger, accounts: &Vec<Account>) -> (r: Vec<u64>)
    ensures
        r@.len() == accounts@.len(),
        forall|i: int|
            0 <= i < r@.len() ==> (#[trigger] r@[i]) == ledger@.tokens.filter(
                of_account(accounts@[i]@),
            ).len(),
{
    let mut out: Vec<u64> = Vec::new();
    let mut i: usize = 0;
    while i < accounts.len()
        invariant
            i <= accounts.len(),
            out@.len() == i,
            forall|j: int|
                0 <= j < i ==> (#[trigger] out@[j]) == ledger@.tokens.filter(
                    of_account(accounts@[j]@),
                ).len(),
        decreases accounts.len() - i,
    {
        out.push(balance(ledger, &accounts[i]));
        i = i + 1;
    }
    out
}

/// Why a transfer is refused, if it is: the caller is not the principal of
/// the `from` account, no such token exists, or the token belongs to
/// another account.
pub open spec fn transfer_fault(
    tokens: Seq<TokenView>,
    caller: Seq<u8>,
    request: TransferRequestView,
) -> Option<TransferError> {
    if request.from.owner != caller {
        Some(TransferError::Unauthorized)
    } else {
        match position(by_id(tokens), request.token_id) {
            None => Some(TransferError::TokenNotFound),
            Some(i) => if tokens[i].owner != request.from {
                Some(TransferError::NotOwner)
            } else {
                None
            },
        }
    }
}

/// The tokens after one transfer request: the token has its new owner where
/// the transfer is granted, and nothing has changed where it is refused.
pub open spec fn transferred(
    tokens: Seq<TokenView>,
    caller: Seq<u8>,
    request: TransferRequestView,
) -> Seq<TokenView> {
    if transfer_fault(tokens, caller, request) is None {
        let i = position(by_id(tokens), request.token_id)->0;
        tokens.update(i, TokenView { owner: request.to, ..tokens[i] })
    } else {
        tokens
    }
}

/// The answer to one transfer request.
pub open spec fn transfer_response(
    tokens: Seq<TokenView>,
    caller: Seq<u8>,
    request: TransferRequestView,
) -> TransferResponse {
    TransferResponse {
        token_id: request.token_id,
        result: match transfer_fault(tokens, caller, request) {
            Some(e) => Err(e),
            None => Ok(()),
        },
    }
}

/// The tokens after the requests were served one after the other, and the
/// answers to them in the same order.
pub open spec fn transfer_all(
    tokens: Seq<TokenView>,
    caller: Seq<u8>,
    requests: Seq<TransferRequestView>,
) -> (Seq<TokenView>, Seq<TransferResponse>)
    decreases requests.len(),
{
    if requests.len() == 0 {
        (tokens, Seq::empty())
    } else {
        let before = transfer_all(tokens, caller, requests.drop_last());
        (
            transferred(before.0, caller, requests.last()),
            before.1.push(transfer_response(before.0, caller, requests.last())),
        )
    }
}

/// Serves one transfer request.
fn transfer_one(ledger: &mut TokenLedger, caller: &PrincipalId, request: &TransferRequest) -> (r:
    TransferResponse)
    requires
        old(ledger).wf(),
    ensures
        final(ledger).wf(),
        well_formed(final(ledger)@),
        r == transfer_response(old(ledger)@.tokens, caller@, request@),
        final(ledger)@ == (TokenLedgerView {
            tokens: transferred(old(ledger)@.tokens, caller@, request@),
            ..old(ledger)@
        }),
{
    proof {
        ledger.lemma_wf_model();
    }
    if !request.from.owner.same_as(caller) {
        return TransferResponse {
            token_id: request.token_id,
            result: Err(TransferError::Unauthorized),
        };
    }
    let token = match ledger.get(request.token_id) {
        None => {
            return TransferResponse {
                token_id: request.token_id,
                result: Err(TransferError::TokenNotFound),
            };
        },
        Some(t) => t,
    };
    proof {
        lemma_position_sound(by_id(ledger@.tokens), request.token_id);
    }
    if !token.owner.equals(&request.from) {
        return TransferResponse {
            token_id: request.token_id,
            result: Err(TransferError::NotOwner),
        };
    }
    let moved = Token {
        id: token.id,
        owner: request.to.clone(),
        metadata: token.metadata.clone(),
        created_at: token.created_at,
        session_id: clone_optional_text(&token.session_id),
    };
    ledger.put(moved);
    TransferResponse { token_id: request.token_id, result: Ok(()) }
}

/// Hands tokens on, one request after the other. A request is granted where
/// the caller is the principal of the `from` account and that account owns
/// the token; a refused request changes nothing.
pub fn icrc7_transfer(ledger: &mut TokenLedger, caller: &PrincipalId, requests: &Vec<TransferRequest>) -> (r:
    Vec<TransferResponse>)
    requires
        old(ledger).wf(),
    ensures
        final(ledger).wf(),
        well_formed(final(ledger)@),
        r@ == transfer_all(old(ledger)@.tokens, caller@, requests.deep_view()).1,
        final(ledger)@ == (TokenLedgerView {
            tokens: transfer_all(old(ledger)@.tokens, caller@, requests.deep_view()).0,
            ..old(ledger)@
        }),
{
    proof {
        ledger.lemma_wf_model();
    }
    let mut out: Vec<TransferResponse> = Vec::new();
    let mut i: usize = 0;
    let ghost all = requests.deep_view();
    let ghost start = ledger@;
    assert(all.subrange(0, 0) =~= Seq::<TransferRequestView>::empty());
    while i < requests.len()
        invariant
            i <= requests.len(),
            all == requests.deep_view(),
            ledger.wf(),
            well_formed(ledger@),
            out@ == transfer_all(start.tokens, caller@, all.subrange(0, i as int)).1,
            ledger@ == (TokenLedgerView {
                tokens: transfer_all(start.tokens, caller@, all.subrange(0, i as int)).0,
                ..start
            }),
        decreases requests.len() - i,
    {
        proof {
            let next = all.subrange(0, i as int + 1);
            assert(next.drop_last() =~= all.subrange(0, i as int));
            assert(next.last() == requests@[i as int]@);
        }
        let response = transfer_one(ledger, caller, &requests[i]);
        out.push(response);
        i = i + 1;
    }
    assert(all.subrange(0, requests.len() as int) =~= all);
    out
}

/// The attributes of a token minted straight from a session: what
/// identifies the session, then what the caller adds, then each photo.
pub open spec fn session_attributes(
    session: PhysicalArtSessionView,
    session_id: Seq<char>,
    token_hash: Seq<char>,
    now: u64,
    additional: Seq<(Seq<char>, Seq<char>)>,
) -> Seq<(Seq<char>, Seq<char>)> {
    seq![
        ("session_id"@, session_id),
        ("artist"@, session.username),
        ("art_title"@, session.art_title),
        ("created_at"@, decimal(now as nat)),
        ("token_hash"@, token_hash),
        ("photo_count"@, decimal(session.uploaded_photos.len())),
    ] + additional + photo_attributes(
        "photo_"@,
        session.uploaded_photos,
        session.uploaded_photos.len(),
    )
}

/// The photo uploaded first.
pub open spec fn first_photo(photos: Seq<Seq<char>>) -> Option<Seq<char>> {
    if photos.len() > 0 {
        Some(photos[0])
    } else {
        None
    }
}

/// The token that is minted from the session `session_id` for `recipient`
/// at `now` under the identifier `token_id`.
pub open spec fn session_token(
    session: PhysicalArtSessionView,
    session_id: Seq<char>,
    token_id: u64,
    recipient: AccountView,
    now: u64,
    additional: Seq<(Seq<char>, Seq<char>)>,
) -> TokenView {
    TokenView {
        id: token_id,
        owner: recipient,
        metadata: TokenMetadataView {
            name: session.art_title + " - #"@ + decimal(token_id as nat),
            description: Some(session.description),
            image: first_photo(session.uploaded_photos),
            attributes: session_attributes(
                session,
                session_id,
                token_hash_text(token_id, session_id, now),
                now,
                additional,
            ),
        },
        created_at: now,
        session_id: Some(session_id),
    }
}

/// Mints a token straight from the session `session_id` for `recipient`,
/// with the caller's own attributes between those of the session and those
/// of its photos. Without such a session nothing changes.
pub fn mint_nft_from_session(
    ledger: &mut TokenLedger,
    sessions: &SessionStore,
    now: u64,
    session_id: String,
    recipient: Account,
    additional_attributes: &Vec<(String, String)>,
) -> (r: Result<u64, NotFound>)
    requires
        old(ledger).wf(),
        old(ledger)@.next_token_id < u64::MAX,
    ensures
        final(ledger).wf(),
        well_formed(final(ledger)@),
        match lookup(sessions@, session_id@) {
            None => r is Err && final(ledger)@ == old(ledger)@,
            Some(s) => r == Ok::<u64, NotFound>(old(ledger)@.next_token_id) && final(ledger)@
                == recorded(
                allocated(old(ledger)@),
                session_token(
                    s,
                    session_id@,
                    old(ledger)@.next_token_id,
                    recipient@,
                    now,
                    additional_attributes.deep_view(),
                ),
            ),
        },
{
    proof {
        ledger.lemma_wf_model();
    }
    let session = match sessions.get(&session_id) {
        None => {
            return Err(NotFound);
        },
        Some(s) => s,
    };
    let token_id = ledger.allocate_token_id();
    let token_hash = generate_token_hash(token_id, session_id.as_str(), now);

    let mut attributes: Vec<(String, String)> = Vec::new();
    attributes.push(attribute("session_id", session_id.clone()));
    attributes.push(attribute("artist", session.username.clone()));
    attributes.push(attribute("art_title", session.art_title.clone()));
    attributes.push(attribute("created_at", u64_to_decimal(now)));
    attributes.push(attribute("token_hash", token_hash));
    attributes.push(
        attribute("photo_count", u64_to_decimal(session.uploaded_photos.len() as u64)),
    );
    let ghost fixed = seq![
        ("session_id"@, session_id@),
        ("artist"@, session@.username),
        ("art_title"@, session@.art_title),
        ("created_at"@, decimal(now as nat)),
        ("token_hash"@, token_hash_text(token_id, session_id@, now)),
        ("photo_count"@, decimal(session@.uploaded_photos.len())),
    ];
    assert(attributes.deep_view() =~= fixed);
    let mut extra = clone_attributes(additional_attributes);
    let ghost before = attributes.deep_view();
    let ghost added = extra.deep_view();
    attributes.append(&mut extra);
    assert(attributes.deep_view() =~= before + added);
    push_photo_attributes(&mut attributes, "photo_", &session.uploaded_photos);

    let image = if session.uploaded_photos.len() > 0 {
        assert(session@.uploaded_photos[0] == session.uploaded_photos@[0]@);
        Some(session.uploaded_photos[0].clone())
    } else {
        None
    };
    let mut name = session.art_title.clone();
    name.append(" - #");
    name.append(u64_to_decimal(token_id).as_str());

    let token = Token {
        id: token_id,
        owner: recipient,
        metadata: TokenMetadata {
            name,
            description: Some(session.description.clone()),
            image,
            attributes,
        },
        created_at: now,
        session_id: Some(session_id),
    };
    ledger.record(token);
    Ok(token_id)
}

/// The tokens minted for the session `session_id`, oldest first.
pub fn get_session_nfts(ledger: &TokenLedger, session_id: &String) -> (r: Vec<Token>)
    ensures
        r.deep_view() == ledger@.tokens.filter(of_session(session_id@)),
{
    let mut out: Vec<Token> = Vec::new();
    let mut i: usize = 0;
    let tokens = ledger.in_order();
    let ghost all = ledger@.tokens;
    let ghost pred = of_session(session_id@);
    assert(all.subrange(0, 0) =~= Seq::<TokenView>::empty());
    assert(out.deep_view() =~= Seq::<TokenView>::empty());
    while i < tokens.len()
        invariant
            i <= ledger@.tokens.len(),
            tokens@.len() == ledger@.tokens.len(),
            forall|k: int| 0 <= k < tokens@.len() ==> (#[trigger] tokens@[k])@ == ledger@.tokens[k],
            all == ledger@.tokens,
            pred == of_session(session_id@),
            out.deep_view() == all.subrange(0, i as int).filter(pred),
        decreases ledger@.tokens.len() - i,
    {
        let t = tokens[i];
        proof {
            let a = all.subrange(0, i as int);
            let b = all.subrange(0, i as int + 1);
            assert(b =~= a.push(t@));
            assert(b.drop_last() =~= a);
            reveal(Seq::filter);
        }
        let matches = match &t.session_id {
            Some(s) => *s == *session_id,
            None => false,
        };
        if matches {
            let ghost before = out.deep_view();
            out.push(t.clone());
            assert(out.deep_view() =~= before.push(t@));
        }
        i = i + 1;
    }
    assert(all.subrange(0, ledger@.tokens.len() as int) =~= all);
    out
}

/// The tokens of the principal `owner`, whatever the subaccount, oldest
/// first.
pub fn get_user_nfts(ledger: &TokenLedger, owner: &PrincipalId) -> (r: Vec<Token>)
    ensures
        r.deep_view() == ledger@.tokens.filter(of_principal(owner@)),
{
    let mut out: Vec<Token> = Vec::new();
    let mut i: usize = 0;
    let tokens = ledger.in_order();
    let ghost all = ledger@.tokens;
    let ghost pred = of_principal(owner@);
    assert(all.subrange(0, 0) =~= Seq::<TokenView>::empty());
    assert(out.deep_view() =~= Seq::<TokenView>::empty());
    while i < tokens.len()
        invariant
            i <= ledger@.tokens.len(),
            tokens@.len() == ledger@.tokens.len(),
            forall|k: int| 0 <= k < tokens@.len() ==> (#[trigger] tokens@[k])@ == ledger@.tokens[k],
            all == ledger@.tokens,
            pred == of_principal(owner@),
            out.deep_view() == all.subrange(0, i as int).filter(pred),
        decreases ledger@.tokens.len() - i,
    {
        let t = tokens[i];
        proof {
            let a = all.subrange(0, i as int);
            let b = all.subrange(0, i as int + 1);
            assert(b =~= a.push(t@));
            assert(b.drop_last() =~= a);
            reveal(Seq::filter);
        }
        if t.owner.owner.same_as(owner) {
            let ghost before = out.deep_view();
            out.push(t.clone());
            assert(out.deep_view() =~= before.push(t@));
        }
        i = i + 1;
    }
    assert(all.subrange(0, ledger@.tokens.len() as int) =~= all);
    out
}

/// Sets what describes the collection; tokens, counter and supply stay.
pub fn update_collection_metadata(
    ledger: &mut TokenLedger,
    name: String,
    description: Option<String>,
    image: Option<String>,
    max_supply: Option<u64>,
) -> (r: Result<bool, String>)
    ensures
        r is Ok && r->Ok_0,
        final(ledger)@.tokens == old(ledger)@.tokens,
        final(ledger)@.next_token_id == old(ledger)@.next_token_id,
        final(ledger)@.collection.total_supply == old(ledger)@.collection.total_supply,
        final(ledger)@.collection.name == name@,
        final(ledger)@.collection.description == description.deep_view(),
        final(ledger)@.collection.image == image.deep_view(),
        final(ledger)@.collection.max_supply == max_supply,
        old(ledger).wf() ==> final(ledger).wf(),
        well_formed(old(ledger)@) ==> well_formed(final(ledger)@),
{
    ledger.describe(name, description, image, max_supply);
    Ok(true)
}

/// The token `token_id`.
pub fn get_token_details(ledger: &TokenLedger, token_id: u64) -> (r: Option<Token>)
    requires
        ledger.wf(),
    ensures
        match token_with(ledger@.tokens, token_id) {
            Some(t) => r is Some && r->0@ == t,
            None => r is None,
        },
{
    match ledger.get(token_id) {
        Some(t) => Some(t.clone()),
        None => None,
    }
}

/// The metadata of the token that was minted from the certificate
/// `certificate_id`, if the certificate exists, has a token, and the ledger
/// holds it.
pub open spec fn certificate_token_metadata(
    certificates: Seq<(Seq<char>, CertificateView)>,
    tokens: Seq<TokenView>,
    certificate_id: Seq<char>,
) -> Option<TokenMetadataView> {
    match lookup(certificates, certificate_id) {
        None => None,
        Some(c) => match c.nft_link {
            None => None,
            Some(link) => match token_with(tokens, link.token_id) {
                None => None,
                Some(t) => Some(t.metadata),
            },
        },
    }
}

/// The metadata of the token that was minted from the certificate
/// `certificate_id`.
pub fn get_certificate_nft_metadata(
    certificates: &CertificateLedger,
    ledger: &TokenLedger,
    certificate_id: &String,
) -> (r: Option<TokenMetadata>)
    requires
        ledger.wf(),
    ensures
        match certificate_token_metadata(certificates@, ledger@.tokens, certificate_id@) {
            Some(m) => r is Some && r->0@ == m,
            None => r is None,
        },
{
    let certificate = match certificates.get(certificate_id) {
        None => {
            return None;
        },
        Some(c) => c,
    };
    let token_id = match &certificate.nft_link {
        None => {
            return None;
        },
        Some(link) => link.token_id,
    };
    match ledger.get(token_id) {
        None => None,
        Some(t) => Some(t.metadata.clone()),
    }
}

} // verus!
