//! Tokens, their owners and the collection they belong to.

use vstd::prelude::*;
use vstd::string::*;

use crate::identity::PrincipalId;
use crate::text::clone_optional_text;

verus! {

/// A copy of a byte string.
pub fn clone_bytes(bytes: &Vec<u8>) -> (out: Vec<u8>)
    ensures
        out@ == bytes@,
{
    let mut out: Vec<u8> = Vec::new();
    let mut i: usize = 0;
    while i < bytes.len()
        invariant
            i <= bytes.len(),
            out@ == bytes@.subrange(0, i as int),
        decreases bytes.len() - i,
    {
        out.push(bytes[i]);
        assert(bytes@.subrange(0, i as int + 1) =~= bytes@.subrange(0, i as int).push(
            bytes@[i as int],
        ));
        i = i + 1;
    }
    assert(bytes@.subrange(0, bytes.len() as int) =~= bytes@);
    out
}

/// Whether two byte strings are equal.
pub fn bytes_eq(a: &Vec<u8>, b: &Vec<u8>) -> (r: bool)
    ensures
        r == (a@ == b@),
{
    if a.len() != b.len() {
        return false;
    }
    let mut i: usize = 0;
    while i < a.len()
        invariant
            i <= a.len(),
            a.len() == b.len(),
            forall|j: int| 0 <= j < i ==> a@[j] == b@[j],
        decreases a.len() - i,
    {
        if a[i] != b[i] {
            return false;
        }
        i = i + 1;
    }
    assert(a@ =~= b@);
    true
}

/// A copy of a list of attributes.
pub fn clone_attributes(attributes: &Vec<(String, String)>) -> (out: Vec<(String, String)>)
    ensures
        out.deep_view() == attributes.deep_view(),
{
    let mut out: Vec<(String, String)> = Vec::new();
    let mut i: usize = 0;
    while i < attributes.len()
        invariant
            i <= attributes.len(),
            out.len() == i,
            forall|j: int|
                0 <= j < i ==> (#[trigger] out@[j]).0@ == attributes@[j].0@ && out@[j].1@
                    == attributes@[j].1@,
        decreases attributes.len() - i,
    {
        out.push((attributes[i].0.clone(), attributes[i].1.clone()));
        i = i + 1;
    }
    assert(out.deep_view() =~= attributes.deep_view());
    out
}

/// Model of an optional byte string.
pub open spec fn optional_bytes(bytes: Option<Vec<u8>>) -> Option<Seq<u8>> {
    match bytes {
        Some(b) => Some(b@),
        None => None,
    }
}

/// Who owns a token: a principal and, optionally, one of its subaccounts.
#[derive(Debug, PartialEq, Eq)]
pub struct Account {
    pub owner: PrincipalId,
    pub subaccount: Option<Vec<u8>>,
}

/// Model of [`Account`].
pub struct AccountView {
    pub owner: Seq<u8>,
    pub subaccount: Option<Seq<u8>>,
}

impl View for Account {
    type V = AccountView;

    open spec fn view(&self) -> AccountView {
        AccountView { owner: self.owner@, subaccount: optional_bytes(self.subaccount) }
    }
}

impl Clone for Account {
    fn clone(&self) -> (r: Account)
        ensures
            r@ == self@,
    {
        let subaccount = match &self.subaccount {
            Some(s) => Some(clone_bytes(s)),
            None => None,
        };
        Account { owner: self.owner.clone(), subaccount }
    }
}

impl Account {
    /// Whether both accounts name the same principal and subaccount.
    pub fn equals(&self, other: &Account) -> (r: bool)
        ensures
            r == (self@ == other@),
    {
        if !self.owner.same_as(&other.owner) {
            return false;
        }
        match (&self.subaccount, &other.subaccount) {
            (Some(a), Some(b)) => bytes_eq(a, b),
            (None, None) => true,
            _ => false,
        }
    }
}

/// What a token shows.
#[derive(Debug, PartialEq, Eq)]
pub struct TokenMetadata {
    pub name: String,
    pub description: Option<String>,
    pub image: Option<String>,
    /// `(key, value)` pairs in a fixed order.
    pub attributes: Vec<(String, String)>,
}

/// Model of [`TokenMetadata`].
pub struct TokenMetadataView {
    pub name: Seq<char>,
    pub description: Option<Seq<char>>,
    pub image: Option<Seq<char>>,
    pub attributes: Seq<(Seq<char>, Seq<char>)>,
}

impl View for TokenMetadata {
    type V = TokenMetadataView;

    open spec fn view(&self) -> TokenMetadataView {
        TokenMetadataView {
            name: self.name@,
            description: self.description.deep_view(),
            image: self.image.deep_view(),
            attributes: self.attributes.deep_view(),
        }
    }
}

impl Clone for TokenMetadata {
    fn clone(&self) -> (r: TokenMetadata)
        ensures
            r@ == self@,
    {
        TokenMetadata {
            name: self.name.clone(),
            description: clone_optional_text(&self.description),
            image: clone_optional_text(&self.image),
            attributes: clone_attributes(&self.attributes),
        }
    }
}

/// A uniquely numbered collectible.
#[derive(Debug, PartialEq, Eq)]
pub struct Token {
    pub id: u64,
    pub owner: Account,
    pub metadata: TokenMetadata,
    /// Nanoseconds since the epoch.
    pub created_at: u64,
    pub session_id: Option<String>,
}

/// Model of [`Token`].
pub struct TokenView {
    pub id: u64,
    pub owner: AccountView,
    pub metadata: TokenMetadataView,
    pub created_at: u64,
    pub session_id: Option<Seq<char>>,
}

impl View for Token {
    type V = TokenView;

    open spec fn view(&self) -> TokenView {
        TokenView {
            id: self.id,
            owner: self.owner@,
            metadata: self.metadata@,
            created_at: self.created_at,
            session_id: self.session_id.deep_view(),
        }
    }
}

impl DeepView for Token {
    type V = TokenView;

    open spec fn deep_view(&self) -> TokenView {
        self@
    }
}

impl Clone for Token {
    fn clone(&self) -> (r: Token)
        ensures
            r@ == self@,
    {
        Token {
            id: self.id,
            owner: self.owner.clone(),
            metadata: self.metadata.clone(),
            created_at: self.created_at,
            session_id: clone_optional_text(&self.session_id),
        }
    }
}

/// A request to hand a token from one account to another.
#[derive(Debug, PartialEq, Eq)]
pub struct TransferRequest {
    pub from: Account,
    pub to: Account,
    pub token_id: u64,
    pub memo: Option<Vec<u8>>,
    pub created_at_time: Option<u64>,
}

/// Model of [`TransferRequest`].
pub struct TransferRequestView {
    pub from: AccountView,
    pub to: AccountView,
    pub token_id: u64,
    pub memo: Option<Seq<u8>>,
    pub created_at_time: Option<u64>,
}

impl View for TransferRequest {
    type V = TransferRequestView;

    open spec fn view(&self) -> TransferRequestView {
        TransferRequestView {
            from: self.from@,
            to: self.to@,
            token_id: self.token_id,
            memo: optional_bytes(self.memo),
            created_at_time: self.created_at_time,
        }
    }
}

impl DeepView for TransferRequest {
    type V = TransferRequestView;

    open spec fn deep_view(&self) -> TransferRequestView {
        self@
    }
}

impl DeepView for Account {
    type V = AccountView;

    open spec fn deep_view(&self) -> AccountView {
        self@
    }
}

/// Why a transfer was refused.
#[derive(Clone, Copy, Debug, PartialEq, Eq, Structural)]
pub enum TransferError {
    /// The caller is not the principal of the `from` account.
    Unauthorized,
    /// The token belongs to another account than `from`.
    NotOwner,
    /// No token has this identifier.
    TokenNotFound,
}

/// Outcome of one transfer request.
#[derive(Clone, Copy, Debug, PartialEq, Eq)]
pub struct TransferResponse {
    pub token_id: u64,
    pub result: Result<(), TransferError>,
}

/// What is known of the collection as a whole.
#[derive(Debug, PartialEq, Eq)]
pub struct CollectionMetadata {
    pub name: String,
    pub description: Option<String>,
    pub image: Option<String>,
    pub total_supply: u64,
    pub max_supply: Option<u64>,
}

/// Model of [`CollectionMetadata`].
pub struct CollectionMetadataView {
    pub name: Seq<char>,
    pub description: Option<Seq<char>>,
    pub image: Option<Seq<char>>,
    pub total_supply: u64,
    pub max_supply: Option<u64>,
}

impl View for CollectionMetadata {
    type V = CollectionMetadataView;

    open spec fn view(&self) -> CollectionMetadataView {
        CollectionMetadataView {
            name: self.name@,
            description: self.description.deep_view(),
            image: self.image.deep_view(),
            total_supply: self.total_supply,
            max_supply: self.max_supply,
        }
    }
}

impl Clone for CollectionMetadata {
    fn clone(&self) -> (r: CollectionMetadata)
        ensures
            r@ == self@,
    {
        CollectionMetadata {
            name: self.name.clone(),
            description: clone_optional_text(&self.description),
            image: clone_optional_text(&self.image),
            total_supply: self.total_supply,
            max_supply: self.max_supply,
        }
    }
}

} // verus!
