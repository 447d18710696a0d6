use marble_market::merkle::{bytes_le, leaf_hash, pair_bytes, verify_claim};
use marble_market::presale::{last_coin_of, Presale, ReceiveMsg, TOKEN_REPLY_ID};
use marble_market::types::{BlockInfo, Coin, ContractError, Expiration, PriceInfo, Scheduled, Transfer};
use sha2::Digest;

fn s(x: &str) -> String {
    x.to_string()
}

fn sha(b: &[u8]) -> Vec<u8> {
    sha2::Sha256::digest(b).to_vec()
}

fn presale(pay_native: bool, airdrop: bool, royalty: u32) -> Presale {
    let mut p = Presale::new(s("owner"), pay_native, airdrop, s("ujuno"), 5, s("N"), s("S"), s("cw20"), royalty).unwrap();
    p.link_token_contract(TOKEN_REPLY_ID, s("nft")).unwrap();
    p
}

#[test]
fn minting_sets_prices() {
    let mut p = presale(false, false, 10);
    assert_eq!(p.mint(&s("x"), 10), Err(ContractError::Unauthorized {}));
    assert_eq!(p.mint(&s("owner"), 10), Ok(0));
    assert_eq!(p.batch_mint(&s("owner"), &vec![20, 30], 3), Err(ContractError::CountNotMatch {}));
    assert_eq!(p.batch_mint(&s("owner"), &vec![20, 30], 2), Ok(vec![1, 2]));
    assert_eq!(p.get_price(&vec![2, 0]), Ok(vec![PriceInfo { token_id: 2, price: 30 }, PriceInfo { token_id: 0, price: 10 }]));
    assert_eq!(p.get_price(&vec![3]), Err(ContractError::NotFound {}));
    assert_eq!(p.update_price(&s("owner"), &vec![0, 0], &vec![1]), Err(ContractError::WrongLength {}));
    assert_eq!(p.update_price(&s("owner"), &vec![0, 9, 0], &vec![1, 2, 3]), Ok(3));
    assert_eq!(p.get_price(&vec![0, 9]), Ok(vec![PriceInfo { token_id: 0, price: 3 }, PriceInfo { token_id: 9, price: 2 }]));
    assert_eq!(p.batch_mint(&s("owner"), &vec![1, 1, 1], 3), Ok(vec![3, 4, 5]));
    assert_eq!(p.mint(&s("owner"), 1), Err(ContractError::SoldOut {}));
}

#[test]
fn random_pick_counts_unsold_cyclically() {
    let mut p = presale(false, false, 10);
    assert_eq!(p.batch_mint(&s("owner"), &vec![10, 10, 10, 10, 10], 5), Ok(vec![0, 1, 2, 3, 4]));
    for id in [1u32, 3] {
        let msg = ReceiveMsg::Buy { token_id: Some(id), recipient: s("r") };
        assert!(p.cw20_buy_move(&s("cw20"), 10, msg, &s(""), 0).is_ok());
    }
    assert_eq!(p.get_rand_sell_id(7), Ok(2));
    assert_eq!(p.get_rand_sell_id(5), Ok(0));
    assert_eq!(p.get_rand_sell_id(9), Ok(0));
    assert_eq!(p.get_rand_sell_id(8), Ok(4));
}

#[test]
fn cw20_purchase() {
    let mut p = presale(false, false, 10);
    assert_eq!(p.cw20_buy_move(&s("cw20"), 10, ReceiveMsg::Buy { token_id: None, recipient: s("r") }, &s(""), 0),
        Err(ContractError::NotMinted {}));
    p.mint(&s("owner"), 100).unwrap();
    let buy = ReceiveMsg::Buy { token_id: Some(0), recipient: s("r") };
    assert_eq!(p.cw20_buy_move(&s("other"), 100, buy.clone(), &s(""), 0), Err(ContractError::InvalidCw20Token {}));
    assert_eq!(p.cw20_buy_move(&s("cw20"), 99, buy.clone(), &s(""), 0), Err(ContractError::InsufficientFund {}));
    assert_eq!(p.cw20_buy_move(&s("cw20"), 120, buy.clone(), &s(""), 0), Ok(vec![
        Transfer::Nft { token_id: 0, recipient: s("r") },
        Transfer::Token { recipient: s("owner"), amount: 120 },
    ]));
    assert_eq!(p.config.sold_cnt, 2);
    assert_eq!(p.cw20_buy_move(&s("cw20"), 120, buy, &s(""), 0), Err(ContractError::AlreadySold {}));
    let native = presale(true, false, 10);
    let mut native = native;
    assert_eq!(native.cw20_buy_move(&s("cw20"), 1, ReceiveMsg::Move { token_id: 0, recipient: s("r") }, &s(""), 0),
        Err(ContractError::NotSupported {}));
}

#[test]
fn native_purchase_and_move() {
    let mut p = presale(true, false, 10);
    p.batch_mint(&s("owner"), &vec![100, 200], 2).unwrap();
    let funds = vec![Coin { denom: s("ujuno"), amount: 500 }, Coin { denom: s("ujuno"), amount: 150 }];
    assert_eq!(last_coin_of(&funds, &s("ujuno")), 150);
    assert_eq!(p.native_buy_move(&s("buyer"), &funds, Some(1), true, None, &s(""), 0),
        Err(ContractError::InsufficientFund {}));
    assert_eq!(p.native_buy_move(&s("buyer"), &funds, Some(0), true, None, &s(""), 0), Ok(vec![
        Transfer::Nft { token_id: 0, recipient: s("buyer") },
        Transfer::Native { recipient: s("owner"), denom: s("ujuno"), amount: 150 },
    ]));
    let fee = vec![Coin { denom: s("ujuno"), amount: 20 }];
    assert_eq!(p.native_buy_move(&s("holder"), &fee, Some(1), false, Some(s("friend")), &s("someone"), 0),
        Err(ContractError::Unauthorized {}));
    assert_eq!(p.native_buy_move(&s("holder"), &vec![], Some(1), false, Some(s("friend")), &s("holder"), 0),
        Err(ContractError::InsufficientFund {}));
    assert_eq!(p.native_buy_move(&s("holder"), &fee, Some(1), false, Some(s("friend")), &s("holder"), 0), Ok(vec![
        Transfer::Nft { token_id: 1, recipient: s("friend") },
        Transfer::Native { recipient: s("owner"), denom: s("ujuno"), amount: 20 },
    ]));
    assert_eq!(p.native_buy_move(&s("holder"), &fee, Some(7), true, None, &s(""), 0), Err(ContractError::NotFound {}));
}

#[test]
fn leaf_hash_is_digest_of_address_and_one() {
    assert_eq!(leaf_hash(&s("juno1abc")), sha(b"juno1abc1"));
    assert_ne!(leaf_hash(&s("juno1abc")), b"juno1abc1".to_vec());
}

#[test]
fn proof_step_orders_pair() {
    let a = vec![1u8, 2, 3];
    let b = vec![1u8, 3, 0];
    assert!(bytes_le(&a, &b));
    assert!(!bytes_le(&b, &a));
    assert!(bytes_le(&a, &a));
    assert_eq!(pair_bytes(&b, &a), vec![1, 2, 3, 1, 3, 0]);
    assert_eq!(pair_bytes(&a, &b), vec![1, 2, 3, 1, 3, 0]);
}

fn tree() -> (String, String) {
    let leaf = sha(b"claimer1");
    let other = sha(b"other1");
    let mut pair = if leaf <= other { leaf.clone() } else { other.clone() };
    pair.extend(if leaf <= other { other.clone() } else { leaf.clone() });
    (hex::encode(sha(&pair)), hex::encode(other))
}

#[test]
fn claim_checks_proof() {
    let (root, sibling) = tree();
    assert_eq!(verify_claim(&s("claimer"), &vec![sibling.clone()], &root), Ok(true));
    assert_eq!(verify_claim(&s("claimer"), &vec![sibling.to_uppercase()], &root.to_uppercase()), Ok(true));
    assert_eq!(verify_claim(&s("intruder"), &vec![sibling.clone()], &root), Ok(false));
    assert_eq!(verify_claim(&s("claimer"), &vec![s("zz")], &root), Err(ContractError::InvalidHex {}));
    assert_eq!(verify_claim(&s("claimer"), &vec![sibling], &s("00")), Err(ContractError::InvalidHex {}));
}

#[test]
fn airdrop_claim_flow() {
    let (root, sibling) = tree();
    let mut p = presale(false, true, 0);
    let block = BlockInfo { height: 10, time: 3_000_000_000 };
    assert_eq!(p.claim(&s("claimer"), &vec![sibling.clone()], block), Err(ContractError::NotMinted {}));
    p.batch_mint(&s("owner"), &vec![0, 0], 2).unwrap();
    assert_eq!(p.claim(&s("claimer"), &vec![sibling.clone()], block), Err(ContractError::NotFound {}));
    assert_eq!(p.register_merkle_root(&s("x"), root.clone(), None, None), Err(ContractError::Unauthorized {}));
    assert_eq!(p.register_merkle_root(&s("owner"), s("abc"), None, None), Err(ContractError::InvalidHex {}));
    assert_eq!(p.register_merkle_root(&s("owner"), root.clone(), None, Some(Scheduled::AtHeight(20))), Ok(()));
    assert_eq!(p.claim(&s("claimer"), &vec![sibling.clone()], block),
        Err(ContractError::StageNotBegun { stage: 1, start: Scheduled::AtHeight(20) }));
    let later = BlockInfo { height: 25, time: 3_000_000_000 };
    assert_eq!(p.claim(&s("intruder"), &vec![sibling.clone()], later), Err(ContractError::VerificationFailed {}));
    assert_eq!(p.claim(&s("claimer"), &vec![sibling.clone()], later),
        Ok(vec![Transfer::Nft { token_id: 0, recipient: s("claimer") }]));
    assert!(p.is_claimed(&s("claimer")));
    assert!(!p.is_claimed(&s("intruder")));
    assert_eq!(p.claim(&s("claimer"), &vec![sibling.clone()], later), Err(ContractError::Claimed {}));
    assert_eq!(p.register_merkle_root(&s("owner"), root, Some(Expiration::AtHeight(30)), None), Ok(()));
    let expired = BlockInfo { height: 30, time: 3_000_000_000 };
    assert_eq!(p.claim(&s("claimer2"), &vec![sibling], expired),
        Err(ContractError::StageExpired { stage: 1, expiration: Expiration::AtHeight(30) }));
}

#[test]
fn presale_owner_changes() {
    let mut p = presale(false, false, 0);
    assert_eq!(p.change_owner(&s("x"), s("y")), Err(ContractError::Unauthorized {}));
    assert_eq!(p.change_contract(&s("owner"), s("nft2")), Ok(()));
    assert_eq!(p.change_cw721_owner(&s("owner"), s("new")), Ok(s("nft2")));
    assert_eq!(p.config.owner, s("new"));
    assert_eq!(p.change_owner(&s("new"), s("newer")), Ok(()));
    assert_eq!(p.config.owner, s("newer"));
    assert!(Presale::new(s("o"), true, false, s("d"), 0, s("N"), s("S"), s("c"), 0).is_err());
    assert!(Presale::new(s("o"), true, false, s("d"), 1, s("N"), s("S"), s("c"), 0).is_ok());
}
