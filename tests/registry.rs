use marble_market::marketplace::{CollectionInfo, Marketplace, COLLECTION_REPLY_ID};
use marble_market::random_sale::RandomSale;
use marble_market::types::{ContractError, Transfer};

fn s(x: &str) -> String {
    x.to_string()
}

#[test]
fn collections_are_registered_in_order() {
    let mut m = Marketplace::new(s("owner"), 1, 2);
    assert_eq!(m.register_collection(7, s("c1"), Some(s("n1"))), Err(ContractError::InvalidTokenReplyId {}));
    assert_eq!(m.register_collection(COLLECTION_REPLY_ID, s("c1"), None), Err(ContractError::Uninitialized {}));
    assert_eq!(m.register_collection(COLLECTION_REPLY_ID, s("c1"), Some(s("n1"))), Ok(1));
    assert_eq!(m.register_collection(COLLECTION_REPLY_ID, s("c2"), Some(s("n2"))), Ok(2));
    assert_eq!(m.query_collection(2), CollectionInfo { id: 2, collection_addr: s("c2"), cw721_addr: s("n2") });
    assert_eq!(m.query_collection(9), CollectionInfo { id: 9, collection_addr: s("owner"), cw721_addr: s("owner") });
    assert_eq!(m.remove_collection(&s("x"), 1), Err(ContractError::Unauthorized {}));
    assert_eq!(m.remove_collection(&s("owner"), 1), Ok(()));
    assert_eq!(m.query_list_collections(), vec![CollectionInfo { id: 2, collection_addr: s("c2"), cw721_addr: s("n2") }]);
    assert_eq!(m.remove_all_collection(&s("owner")), Ok(()));
    assert!(m.query_list_collections().is_empty());
    assert_eq!(m.register_collection(COLLECTION_REPLY_ID, s("c3"), Some(s("n3"))), Ok(3));
}

#[test]
fn marketplace_settings() {
    let mut m = Marketplace::new(s("owner"), 1, 2);
    assert_eq!(m.update_constants(&s("x"), 3, 4), Err(ContractError::Unauthorized {}));
    assert_eq!(m.update_constants(&s("owner"), 3, 4), Ok(()));
    assert_eq!((m.config.collection_code_id, m.config.cw721_base_code_id), (3, 4));
    assert_eq!(m.update_config(&s("owner"), s("new")), Ok(()));
    assert_eq!(m.check_owner(&s("owner")), Err(ContractError::Unauthorized {}));
    assert_eq!(m.check_owner(&s("new")), Ok(()));
}

#[test]
fn random_sale_hands_out_inventory() {
    let mut r = RandomSale::new(s("owner"), 50, s("ujuno"), 3, s("nft"));
    assert_eq!(r.unsold, vec![1, 2, 3]);
    assert_eq!(r.execute_buy(&s("b"), 49, 4), Err(ContractError::InsufficientFund {}));
    assert_eq!(r.execute_buy(&s("b"), 50, 4), Ok(vec![
        Transfer::Native { recipient: s("owner"), denom: s("ujuno"), amount: 50 },
        Transfer::Nft { token_id: 2, recipient: s("b") },
    ]));
    assert!(r.query_get_sold_state(2));
    assert_eq!(r.execute_send(&s("x"), 1, &s("f")), Err(ContractError::Unauthorized {}));
    assert_eq!(r.execute_send(&s("owner"), 2, &s("f")), Err(ContractError::AlreadySold {}));
    assert_eq!(r.execute_send(&s("owner"), 3, &s("f")), Ok(vec![Transfer::Nft { token_id: 3, recipient: s("f") }]));
    assert_eq!(r.execute_buy(&s("b"), 60, 9), Ok(vec![
        Transfer::Native { recipient: s("owner"), denom: s("ujuno"), amount: 60 },
        Transfer::Nft { token_id: 1, recipient: s("b") },
    ]));
    assert_eq!(r.execute_buy(&s("b"), 60, 9), Err(ContractError::AlreadyFinished {}));
    assert_eq!(r.config.sold_count, 3);
}
