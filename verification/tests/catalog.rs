use origin_stamp::error::NotFound;
use origin_stamp::icrc7::{
    get_session_nfts, get_token_details, get_user_nfts, icrc7_balance_of,
    icrc7_collection_metadata, icrc7_description, icrc7_name, icrc7_owner_of, icrc7_supply_cap,
    icrc7_token_metadata, icrc7_tokens, icrc7_tokens_of, icrc7_total_supply, icrc7_transfer,
    mint_nft_from_session, update_collection_metadata,
};
use origin_stamp::identity::PrincipalId;
use origin_stamp::nft::TokenLedger;
use origin_stamp::physical_art::SessionStore;
use origin_stamp::store::Registry;
use origin_stamp::types::{
    Account, CollectionMetadata, PhysicalArtSession, SessionStatus, TransferError,
    TransferRequest, TransferResponse,
};

fn principal(b: u8) -> PrincipalId {
    PrincipalId::from_bytes(vec![b]).unwrap()
}

fn account(b: u8) -> Account {
    Account { owner: principal(b), subaccount: None }
}

fn sub(b: u8, s: u8) -> Account {
    Account { owner: principal(b), subaccount: Some(vec![s]) }
}

fn sessions() -> SessionStore {
    let mut sessions = Registry::new();
    for (id, photos) in [("s1", 2usize), ("s2", 0)] {
        sessions.insert(
            id.to_string(),
            PhysicalArtSession {
                session_id: id.to_string(),
                username: "alice".to_string(),
                art_title: "Sunset".to_string(),
                description: "Oil on canvas".to_string(),
                uploaded_photos: (1..=photos).map(|i| format!("p{i}.jpg")).collect(),
                status: SessionStatus::Active,
                created_at: 1,
                updated_at: 2,
            },
        );
    }
    sessions
}

fn mint(ledger: &mut TokenLedger, session: &str, to: Account) -> u64 {
    mint_nft_from_session(ledger, &sessions(), 50, session.to_string(), to, &vec![]).unwrap()
}

fn filled() -> TokenLedger {
    let mut ledger = TokenLedger::new();
    assert_eq!(mint(&mut ledger, "s1", account(1)), 1);
    assert_eq!(mint(&mut ledger, "s2", account(2)), 2);
    assert_eq!(mint(&mut ledger, "s1", account(1)), 3);
    assert_eq!(mint(&mut ledger, "s1", sub(1, 8)), 4);
    assert_eq!(mint(&mut ledger, "s2", account(1)), 5);
    ledger
}

#[test]
fn new_collection() {
    let ledger = TokenLedger::new();
    assert_eq!(
        icrc7_collection_metadata(&ledger),
        CollectionMetadata {
            name: "Origin Stamp Art NFTs".to_string(),
            description: Some(
                "NFTs representing physical art pieces authenticated through Origin Stamp"
                    .to_string()
            ),
            image: None,
            total_supply: 0,
            max_supply: None,
        }
    );
    assert_eq!(icrc7_name(&ledger), "Origin Stamp Art NFTs");
    assert_eq!(
        icrc7_description(&ledger),
        Some("NFTs representing physical art pieces authenticated through Origin Stamp".to_string())
    );
    assert_eq!(icrc7_total_supply(&ledger), 0);
    assert_eq!(icrc7_supply_cap(&ledger), None);
    assert_eq!(ledger.next_token_id(), 1);
    assert_eq!(icrc7_tokens(&ledger, None, None), Vec::<u64>::new());
}

#[test]
fn collection_metadata_can_be_replaced() {
    let mut ledger = filled();
    assert_eq!(
        update_collection_metadata(
            &mut ledger,
            "New".to_string(),
            None,
            Some("img".to_string()),
            Some(10)
        ),
        Ok(true)
    );
    assert_eq!(
        icrc7_collection_metadata(&ledger),
        CollectionMetadata {
            name: "New".to_string(),
            description: None,
            image: Some("img".to_string()),
            total_supply: 5,
            max_supply: Some(10),
        }
    );
    assert_eq!(icrc7_supply_cap(&ledger), Some(10));
    assert_eq!(icrc7_total_supply(&ledger), 5);
    assert_eq!(ledger.next_token_id(), 6);
}

#[test]
fn token_from_session() {
    let mut ledger = TokenLedger::new();
    let extra = vec![("medium".to_string(), "oil".to_string())];
    let id = mint_nft_from_session(&mut ledger, &sessions(), 50, "s1".to_string(), account(1), &extra);
    assert_eq!(id, Ok(1));
    let token = get_token_details(&ledger, 1).unwrap();
    assert_eq!(token.owner, account(1));
    assert_eq!(token.created_at, 50);
    assert_eq!(token.session_id, Some("s1".to_string()));
    assert_eq!(token.metadata.name, "Sunset - #1");
    assert_eq!(token.metadata.description, Some("Oil on canvas".to_string()));
    assert_eq!(token.metadata.image, Some("p1.jpg".to_string()));
    let p = |k: &str, v: &str| (k.to_string(), v.to_string());
    assert_eq!(
        token.metadata.attributes,
        vec![
            p("session_id", "s1"),
            p("artist", "alice"),
            p("art_title", "Sunset"),
            p("created_at", "50"),
            p("token_hash", &origin_stamp::minting::generate_token_hash(1, "s1", 50)),
            p("photo_count", "2"),
            p("medium", "oil"),
            p("photo_1", "p1.jpg"),
            p("photo_2", "p2.jpg"),
        ]
    );
    assert_eq!(icrc7_total_supply(&ledger), 1);
}

#[test]
fn token_from_unknown_session() {
    let mut ledger = TokenLedger::new();
    assert_eq!(
        mint_nft_from_session(&mut ledger, &sessions(), 50, "zz".to_string(), account(1), &vec![]),
        Err(NotFound)
    );
    assert_eq!(ledger.next_token_id(), 1);
    assert_eq!(icrc7_total_supply(&ledger), 0);
}

#[test]
fn pages_of_tokens() {
    let ledger = filled();
    assert_eq!(icrc7_tokens(&ledger, None, None), vec![1, 2, 3, 4, 5]);
    assert_eq!(icrc7_tokens(&ledger, None, Some(2)), vec![1, 2]);
    assert_eq!(icrc7_tokens(&ledger, Some(2), Some(2)), vec![3, 4]);
    assert_eq!(icrc7_tokens(&ledger, Some(4), Some(2)), vec![5]);
    assert_eq!(icrc7_tokens(&ledger, Some(5), None), Vec::<u64>::new());
    assert_eq!(icrc7_tokens(&ledger, Some(0), Some(0)), Vec::<u64>::new());
    assert_eq!(icrc7_tokens(&ledger, Some(0), Some(5000)), vec![1, 2, 3, 4, 5]);
}

#[test]
fn pages_skip_retracted_tokens() {
    let mut ledger = filled();
    ledger.retract(3);
    assert_eq!(icrc7_tokens(&ledger, None, None), vec![1, 2, 4, 5]);
    assert_eq!(icrc7_tokens(&ledger, Some(3), None), vec![4, 5]);
    assert_eq!(icrc7_tokens(&ledger, Some(2), Some(1)), vec![4]);
    assert_eq!(icrc7_total_supply(&ledger), 4);
    ledger.retract(3);
    assert_eq!(icrc7_total_supply(&ledger), 4);
    assert_eq!(icrc7_collection_metadata(&ledger).total_supply, 4);
}

#[test]
fn page_size_defaults_to_hundred_and_is_capped_at_thousand() {
    let mut ledger = TokenLedger::new();
    for _ in 0..1005 {
        mint(&mut ledger, "s2", account(1));
    }
    assert_eq!(icrc7_tokens(&ledger, None, None).len(), 100);
    assert_eq!(icrc7_tokens(&ledger, None, Some(5000)).len(), 1000);
    assert_eq!(icrc7_tokens(&ledger, None, Some(1000)).len(), 1000);
    assert_eq!(icrc7_tokens(&ledger, None, Some(999)).len(), 999);
    assert_eq!(icrc7_tokens(&ledger, Some(1000), Some(5000)), vec![1001, 1002, 1003, 1004, 1005]);
    assert_eq!(icrc7_tokens_of(&ledger, &account(1), None, None).len(), 100);
}

#[test]
fn tokens_of_an_account() {
    let ledger = filled();
    assert_eq!(icrc7_tokens_of(&ledger, &account(1), None, None), vec![1, 3, 5]);
    assert_eq!(icrc7_tokens_of(&ledger, &account(1), Some(1), Some(1)), vec![3]);
    assert_eq!(icrc7_tokens_of(&ledger, &sub(1, 8), None, None), vec![4]);
    assert_eq!(icrc7_tokens_of(&ledger, &account(3), None, None), Vec::<u64>::new());
}

#[test]
fn owners_balances_and_metadata() {
    let ledger = filled();
    assert_eq!(
        icrc7_owner_of(&ledger, &vec![2, 9, 4]),
        vec![Some(account(2)), None, Some(sub(1, 8))]
    );
    assert_eq!(
        icrc7_balance_of(&ledger, &vec![account(1), account(2), account(3), sub(1, 8), sub(1, 9)]),
        vec![3, 1, 0, 1, 0]
    );
    let metadata = icrc7_token_metadata(&ledger, &vec![9, 2]);
    assert_eq!(metadata.len(), 2);
    assert_eq!(metadata[0], None);
    assert_eq!(metadata[1].as_ref().unwrap().name, "Sunset - #2");
    assert_eq!(metadata[1].as_ref().unwrap().image, None);
    assert_eq!(get_token_details(&ledger, 9), None);
}

#[test]
fn tokens_by_session_and_by_principal() {
    let ledger = filled();
    let ids = |tokens: Vec<origin_stamp::types::Token>| -> Vec<u64> {
        tokens.iter().map(|t| t.id).collect()
    };
    assert_eq!(ids(get_session_nfts(&ledger, &"s1".to_string())), vec![1, 3, 4]);
    assert_eq!(ids(get_session_nfts(&ledger, &"s2".to_string())), vec![2, 5]);
    assert_eq!(ids(get_session_nfts(&ledger, &"s3".to_string())), Vec::<u64>::new());
    assert_eq!(ids(get_user_nfts(&ledger, &principal(1))), vec![1, 3, 4, 5]);
    assert_eq!(ids(get_user_nfts(&ledger, &principal(2))), vec![2]);
    assert_eq!(ids(get_user_nfts(&ledger, &principal(3))), Vec::<u64>::new());
}

fn transfer(from: Account, to: Account, token_id: u64) -> TransferRequest {
    TransferRequest { from, to, token_id, memo: None, created_at_time: None }
}

#[test]
fn transfers_are_served_in_order() {
    let mut ledger = filled();
    let responses = icrc7_transfer(
        &mut ledger,
        &principal(1),
        &vec![
            transfer(account(1), account(2), 1),
            transfer(account(1), account(3), 1),
            transfer(account(2), account(1), 2),
            transfer(account(1), account(2), 9),
            transfer(account(1), account(2), 4),
            transfer(sub(1, 8), account(1), 4),
            transfer(account(1), sub(1, 7), 4),
        ],
    );
    let ok = |token_id| TransferResponse { token_id, result: Ok(()) };
    let err = |token_id, e| TransferResponse { token_id, result: Err(e) };
    assert_eq!(
        responses,
        vec![
            ok(1),
            err(1, TransferError::NotOwner),
            err(2, TransferError::Unauthorized),
            err(9, TransferError::TokenNotFound),
            err(4, TransferError::NotOwner),
            ok(4),
            ok(4),
        ]
    );
    assert_eq!(
        icrc7_owner_of(&ledger, &vec![1, 2, 3, 4, 5]),
        vec![
            Some(account(2)),
            Some(account(2)),
            Some(account(1)),
            Some(sub(1, 7)),
            Some(account(1))
        ]
    );
    assert_eq!(icrc7_tokens(&ledger, None, None), vec![1, 2, 3, 4, 5]);
    assert_eq!(icrc7_total_supply(&ledger), 5);
    assert_eq!(get_token_details(&ledger, 1).unwrap().metadata.name, "Sunset - #1");
}

#[test]
fn accounts_compare_by_principal_and_subaccount() {
    assert!(account(1).equals(&account(1)));
    assert!(!account(1).equals(&account(2)));
    assert!(!account(1).equals(&sub(1, 0)));
    assert!(sub(1, 0).equals(&sub(1, 0)));
    assert!(!sub(1, 0).equals(&sub(1, 1)));
    assert!(!sub(1, 0).equals(&Account { owner: principal(1), subaccount: Some(vec![]) }));
}

#[test]
fn tokens_come_in_ascending_order_of_identifier() {
    let mut ledger = filled();
    ledger.retract(2);
    let ids: Vec<u64> = ledger.in_order().iter().map(|t| t.id).collect();
    assert_eq!(ids, vec![1, 3, 4, 5]);
    assert_eq!(ledger.len(), 4);
    assert_eq!(mint(&mut ledger, "s1", account(2)), 6);
    assert_eq!(icrc7_tokens(&ledger, None, None), vec![1, 3, 4, 5, 6]);
    assert_eq!(icrc7_tokens_of(&ledger, &account(1), Some(1), None), vec![3, 5]);
    assert_eq!(ledger.get(2), None);
    assert_eq!(ledger.get(6).unwrap().owner, account(2));
}
