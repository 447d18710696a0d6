use marble_market::collection::{check_migrate, sale_is_sound, Collection, TOKEN_REPLY_ID};
use marble_market::royalty::{mul_div_floor, percent_of, split, Split, PROTOCOL_FEE_RATE};
use marble_market::types::{ContractError, DurationType, Request, SaleInfo, SaleType, Transfer};

fn s(x: &str) -> String {
    x.to_string()
}

fn linked(royalty: u32) -> Collection {
    let mut c = Collection::new(s("owner"), s("marble"), 100, s("Name"), s("SYM"), royalty, s("uri"), s("fee")).unwrap();
    c.link_token_contract(TOKEN_REPLY_ID, s("nft")).unwrap();
    c
}

fn list(c: &mut Collection, id: u32, t: SaleType, d: DurationType, price: u128) {
    let r = c.start_sale(&s("seller"), &s("seller"), id, t, d, price, 0);
    assert_eq!(r, Ok(Transfer::Custody { token_id: id }));
}

#[test]
fn bid_bound_offer_scenario() {
    let mut c = linked(0);
    list(&mut c, 7, SaleType::Offer, DurationType::Bid(2), 100);
    assert_eq!(c.propose(&s("A"), 7, 150, 0), Ok(()));
    assert_eq!(c.propose(&s("B"), 7, 200, 0), Ok(()));
    assert_eq!(c.propose(&s("C"), 7, 90, 0), Err(ContractError::AlreadyExpired {}));
    let sale = c.get_sale(7).unwrap();
    assert_eq!(sale.sell_index, 1);
    assert_eq!(sale.requests[1].address, s("B"));
    assert_eq!(sale.requests[1].price, 200);
    let out = c.settle(7, &s("B"), 200, 0).unwrap();
    assert_eq!(out[0], Transfer::Nft { token_id: 7, recipient: s("B") });
    assert!(c.get_sale(7).is_none());
}

#[test]
fn time_bound_auction_scenario() {
    let mut c = linked(0);
    list(&mut c, 1, SaleType::Auction, DurationType::Time(1000), 10);
    assert_eq!(c.propose(&s("A"), 1, 20, 999), Ok(()));
    assert_eq!(c.propose(&s("B"), 1, 30, 1001), Err(ContractError::AlreadyExpired {}));
    assert_eq!(c.settle(1, &s("A"), 20, 999), Err(ContractError::NotExpired {}));
    let out = c.settle(1, &s("A"), 20, 1000).unwrap();
    assert_eq!(out[0], Transfer::Nft { token_id: 1, recipient: s("A") });
    assert!(c.get_sale(1).is_none());
}

#[test]
fn settle_twice_fails_second_time() {
    let mut c = linked(0);
    list(&mut c, 3, SaleType::Fixed, DurationType::Fixed, 50);
    assert_eq!(c.propose(&s("A"), 3, 50, 0), Ok(()));
    assert!(c.settle(3, &s("A"), 50, 0).is_ok());
    assert_eq!(c.settle(3, &s("A"), 50, 0), Err(ContractError::InvalidBuyParam {}));
}

#[test]
fn listing_reads_back_empty() {
    let mut c = linked(0);
    list(&mut c, 9, SaleType::Auction, DurationType::Bid(3), 5);
    let sale = c.get_sale(9).unwrap();
    assert!(sale.requests.is_empty());
    assert_eq!(sale.sell_index, 0);
    assert_eq!(sale.provider, s("seller"));
    assert_eq!(sale.initial_price, 5);
}

#[test]
fn fixed_sale_without_request_cannot_settle() {
    let mut c = linked(0);
    list(&mut c, 4, SaleType::Fixed, DurationType::Fixed, 100);
    assert_eq!(c.settle(4, &s("A"), 100, 0), Err(ContractError::InvalidBuyParam {}));
    assert_eq!(c.propose(&s("A"), 4, 99, 0), Err(ContractError::LowerThanPrevious {}));
    assert_eq!(c.propose(&s("A"), 4, 100, 0), Ok(()));
    assert_eq!(c.propose(&s("B"), 4, 500, 0), Err(ContractError::AlreadyFinished {}));
}

#[test]
fn auction_requires_strictly_higher_bids() {
    let mut c = linked(0);
    list(&mut c, 2, SaleType::Auction, DurationType::Fixed, 100);
    assert_eq!(c.propose(&s("A"), 2, 99, 0), Err(ContractError::LowerThanPrevious {}));
    assert_eq!(c.propose(&s("A"), 2, 100, 0), Err(ContractError::LowerThanPrevious {}));
    assert_eq!(c.propose(&s("A"), 2, 101, 0), Ok(()));
    assert_eq!(c.propose(&s("B"), 2, 101, 0), Err(ContractError::LowerThanPrevious {}));
    assert_eq!(c.propose(&s("B"), 2, 102, 0), Ok(()));
    assert_eq!(c.propose(&s("C"), 2, 50, 0), Err(ContractError::LowerThanPrevious {}));
    let sale = c.get_sale(2).unwrap();
    assert_eq!(sale.requests.len(), 2);
    assert_eq!(sale.sell_index, 1);
}

#[test]
fn offer_winner_is_first_highest() {
    let mut c = linked(0);
    list(&mut c, 5, SaleType::Offer, DurationType::Fixed, 1000);
    assert_eq!(c.propose(&s("A"), 5, 100, 0), Ok(()));
    assert_eq!(c.get_sale(5).unwrap().sell_index, 0);
    assert_eq!(c.propose(&s("B"), 5, 200, 0), Ok(()));
    assert_eq!(c.propose(&s("C"), 5, 200, 0), Ok(()));
    assert_eq!(c.propose(&s("D"), 5, 150, 0), Ok(()));
    assert_eq!(c.get_sale(5).unwrap().sell_index, 1);
    assert_eq!(c.settle(5, &s("C"), 200, 0), Err(ContractError::InvalidUserOrPrice {}));
    assert_eq!(c.settle(5, &s("B"), 199, 0), Err(ContractError::InvalidUserOrPrice {}));
}

#[test]
fn offer_with_zero_prices_picks_first() {
    let mut c = linked(0);
    list(&mut c, 6, SaleType::Offer, DurationType::Fixed, 0);
    assert_eq!(c.propose(&s("A"), 6, 0, 0), Ok(()));
    assert_eq!(c.propose(&s("B"), 6, 0, 0), Ok(()));
    assert_eq!(c.get_sale(6).unwrap().sell_index, 0);
}

#[test]
fn split_exact_values() {
    assert_eq!(
        split(1_000_000, PROTOCOL_FEE_RATE, 50_000, 100_000),
        Some(Split { protocol: 25_000, seller: 50_000, collection: 100_000, remainder: 825_000 })
    );
    assert_eq!(split(0, 25_000, 1_000, 1_000), Some(Split { protocol: 0, seller: 0, collection: 0, remainder: 0 }));
    assert_eq!(split(999, 25_000, 25_000, 25_000), Some(Split { protocol: 24, seller: 24, collection: 24, remainder: 927 }));
    let r = split(12_345_678_901, 333_333, 333_333, 333_334).unwrap();
    assert_eq!(r.protocol + r.seller + r.collection + r.remainder, 12_345_678_901);
    assert_eq!(split(100, 600_000, 600_000, 0), None);
}

#[test]
fn split_of_largest_amount_does_not_overflow() {
    let r = split(u128::MAX, PROTOCOL_FEE_RATE, 0, 0).unwrap();
    assert_eq!(r.protocol, u128::MAX / 1_000_000 * 25_000 + (u128::MAX % 1_000_000) * 25_000 / 1_000_000);
    assert_eq!(r.protocol + r.remainder, u128::MAX);
    assert_eq!(mul_div_floor(u128::MAX, 1_000_000, 1_000_000), Some(u128::MAX));
    assert_eq!(mul_div_floor(u128::MAX, 2_000_000, 1_000_000), None);
    assert_eq!(percent_of(250, 10), Some(25));
    assert_eq!(percent_of(99, 50), Some(49));
}

#[test]
fn settlement_pays_each_nonzero_leg() {
    let mut c = linked(100_000);
    assert_eq!(c.start_sale(&s("seller"), &s("seller"), 8, SaleType::Fixed, DurationType::Fixed, 1_000, 50_000),
        Ok(Transfer::Custody { token_id: 8 }));
    assert_eq!(c.propose(&s("buyer"), 8, 1_000, 0), Ok(()));
    let out = c.settle(8, &s("buyer"), 2_000, 0).unwrap();
    assert_eq!(out, vec![
        Transfer::Nft { token_id: 8, recipient: s("buyer") },
        Transfer::Token { recipient: s("fee"), amount: 50 },
        Transfer::Token { recipient: s("seller"), amount: 100 },
        Transfer::Token { recipient: s("owner"), amount: 200 },
        Transfer::Token { recipient: s("buyer"), amount: 1_650 },
    ]);
}

#[test]
fn settlement_omits_zero_legs() {
    let mut c = linked(0);
    list(&mut c, 8, SaleType::Fixed, DurationType::Fixed, 10);
    assert_eq!(c.propose(&s("buyer"), 8, 10, 0), Ok(()));
    let out = c.settle(8, &s("buyer"), 10, 0).unwrap();
    assert_eq!(out, vec![
        Transfer::Nft { token_id: 8, recipient: s("buyer") },
        Transfer::Token { recipient: s("buyer"), amount: 10 },
    ]);
}

#[test]
fn settlement_with_excess_royalty_fails() {
    let mut c = linked(990_000);
    list(&mut c, 8, SaleType::Fixed, DurationType::Fixed, 1_000);
    assert_eq!(c.propose(&s("buyer"), 8, 1_000, 0), Ok(()));
    assert_eq!(c.settle(8, &s("buyer"), 1_000, 0), Err(ContractError::InvalidRoyalty {}));
    assert!(c.get_sale(8).is_some());
}

#[test]
fn start_sale_errors() {
    let mut c = Collection::new(s("owner"), s("marble"), 100, s("N"), s("S"), 0, s("u"), s("fee")).unwrap();
    assert_eq!(c.start_sale(&s("a"), &s("a"), 1, SaleType::Fixed, DurationType::Fixed, 1, 0),
        Err(ContractError::Uninitialized {}));
    c.link_token_contract(TOKEN_REPLY_ID, s("nft")).unwrap();
    assert_eq!(c.link_token_contract(TOKEN_REPLY_ID, s("other")), Err(ContractError::Cw721AlreadyLinked {}));
    assert_eq!(c.start_sale(&s("a"), &s("b"), 1, SaleType::Fixed, DurationType::Fixed, 1, 0),
        Err(ContractError::Unauthorized {}));
    assert_eq!(c.start_sale(&s("a"), &s("a"), 1, SaleType::Fixed, DurationType::Bid(2), 1, 0),
        Err(ContractError::InvalidSaleType {}));
    assert_eq!(c.start_sale(&s("a"), &s("a"), 1, SaleType::Fixed, DurationType::Time(9), 1, 0),
        Err(ContractError::InvalidSaleType {}));
    assert!(c.start_sale(&s("a"), &s("a"), 1, SaleType::Auction, DurationType::Time(9), 1, 0).is_ok());
    assert_eq!(c.start_sale(&s("a"), &s("a"), 1, SaleType::Offer, DurationType::Fixed, 1, 0),
        Err(ContractError::AlreadyOnSale {}));
    assert_eq!(c.propose(&s("x"), 2, 5, 0), Err(ContractError::NotOnSale {}));
    assert_eq!(c.update_enabled(&s("owner"), false), Ok(()));
    assert_eq!(c.start_sale(&s("a"), &s("a"), 3, SaleType::Fixed, DurationType::Fixed, 1, 0),
        Err(ContractError::Disabled {}));
    assert_eq!(c.propose(&s("x"), 1, 5, 0), Err(ContractError::Disabled {}));
    assert_eq!(c.settle(1, &s("x"), 5, 10), Err(ContractError::Disabled {}));
    assert_eq!(c.update_enabled(&s("owner"), true), Err(ContractError::Disabled {}));
}

#[test]
fn reply_with_wrong_id_is_refused() {
    let mut c = Collection::new(s("owner"), s("marble"), 1, s("N"), s("S"), 0, s("u"), s("fee")).unwrap();
    assert_eq!(c.link_token_contract(5, s("nft")), Err(ContractError::InvalidTokenReplyId {}));
    assert!(Collection::new(s("o"), s("m"), 0, s("N"), s("S"), 0, s("u"), s("f")).is_err());
}

#[test]
fn sales_are_paged_by_token_id() {
    let mut c = linked(0);
    for id in [5u32, 1, 3, 9, 7] {
        list(&mut c, id, SaleType::Offer, DurationType::Fixed, 1);
    }
    let ids = |v: Vec<marble_market::types::SaleInfo>| v.iter().map(|x| x.token_id).collect::<Vec<u32>>();
    assert_eq!(ids(c.get_sales(None, Some(2)).list), vec![1, 3]);
    assert_eq!(ids(c.get_sales(Some(3), None).list), vec![5, 7, 9]);
    assert_eq!(ids(c.get_sales(Some(9), None).list), Vec::<u32>::new());
    assert_eq!(ids(c.get_sales(Some(0), Some(0)).list), Vec::<u32>::new());
}

#[test]
fn page_size_defaults_and_caps() {
    let mut c = linked(0);
    for id in 0u32..40 {
        list(&mut c, id, SaleType::Offer, DurationType::Fixed, 1);
    }
    assert_eq!(c.get_sales(None, None).list.len(), 20);
    assert_eq!(c.get_sales(None, Some(100)).list.len(), 30);
    assert_eq!(c.get_sales(Some(35), Some(100)).list.len(), 4);
}

#[test]
fn mint_and_batch_mint_assign_consecutive_ids() {
    let mut c = Collection::new(s("owner"), s("m"), 3, s("N"), s("S"), 0, s("u"), s("f")).unwrap();
    assert_eq!(c.mint(), Err(ContractError::Uninitialized {}));
    c.link_token_contract(TOKEN_REPLY_ID, s("nft")).unwrap();
    assert_eq!(c.mint(), Ok(0));
    assert_eq!(c.batch_mint(&s("x"), 2, 2), Err(ContractError::Unauthorized {}));
    assert_eq!(c.batch_mint(&s("owner"), 2, 1), Err(ContractError::CountNotMatch {}));
    assert_eq!(c.batch_mint(&s("owner"), 5, 5), Ok(vec![1, 2, 3, 4, 5]));
    assert_eq!(c.config.unused_token_id, 6);
    assert_eq!(c.mint(), Err(ContractError::MaxTokensExceed {}));
    assert_eq!(c.batch_mint(&s("owner"), 1, 1), Err(ContractError::MaxTokensExceed {}));
}

#[test]
fn owner_operations() {
    let mut c = linked(0);
    assert_eq!(c.change_contract(&s("x"), s("n2")), Err(ContractError::Unauthorized {}));
    assert_eq!(c.change_contract(&s("owner"), s("n2")), Ok(()));
    assert_eq!(c.config.cw721_address, Some(s("n2")));
    assert_eq!(c.change_cw721_owner(&s("owner")), Ok(s("n2")));
    assert_eq!(c.update_price(&s("owner"), 2, 3), Err(ContractError::WrongLength {}));
    assert_eq!(c.update_price(&s("owner"), 2, 2), Ok(2));
    assert_eq!(c.update_unused_token_id(&s("owner"), 42), Ok(()));
    assert_eq!(c.config.unused_token_id, 42);
    assert_eq!(c.update_owner(&s("x"), s("y")), Err(ContractError::Unauthorized {}));
    assert_eq!(c.update_owner(&s("owner"), s("new")), Ok(()));
    assert_eq!(c.config.owner, s("new"));
}

#[test]
fn edit_checks_owner_and_listing() {
    let mut c = linked(0);
    list(&mut c, 1, SaleType::Offer, DurationType::Fixed, 1);
    assert_eq!(c.edit(&s("a"), &s("a"), 1), Err(ContractError::CannotEditOnSale {}));
    assert_eq!(c.edit(&s("a"), &s("b"), 2), Err(ContractError::Unauthorized {}));
    assert_eq!(c.edit(&s("a"), &s("a"), 2), Ok(()));
    assert_eq!(c.config.unused_token_id, 1);
}

#[test]
fn migration_name_check() {
    assert_eq!(check_migrate(s("marble-collection"), &s("marble-collection")), Ok(()));
    assert_eq!(check_migrate(s("other"), &s("marble-collection")),
        Err(ContractError::CannotMigrate { previous_contract: s("other") }));
}

#[test]
fn owner_setters_are_refused_while_disabled() {
    let mut c = linked(0);
    assert_eq!(c.update_enabled(&s("owner"), false), Ok(()));
    assert_eq!(c.change_contract(&s("owner"), s("n2")), Err(ContractError::Disabled {}));
    assert_eq!(c.change_cw721_owner(&s("owner")), Err(ContractError::Disabled {}));
    assert_eq!(c.update_price(&s("owner"), 1, 1), Err(ContractError::Disabled {}));
    assert_eq!(c.update_unused_token_id(&s("owner"), 5), Err(ContractError::Disabled {}));
    assert_eq!(c.config.cw721_address, Some(s("nft")));
    assert_eq!(c.config.unused_token_id, 0);
}

#[test]
fn collection_with_tokens_is_created() {
    let c = Collection::new(s("o"), s("m"), 1, s("N"), s("S"), 7, s("u"), s("f")).unwrap();
    assert_eq!(c.config.max_tokens, 1);
    assert_eq!(c.config.royalty, 7);
    assert!(c.config.enabled);
    assert!(c.config.cw721_address.is_none());
}

#[test]
fn settling_an_unlisted_token_is_a_bad_buy() {
    let mut c = linked(0);
    assert_eq!(c.settle(11, &s("A"), 50, 0), Err(ContractError::InvalidBuyParam {}));
    assert_eq!(c.check_settleable(11, &s("A"), 0), Err(ContractError::InvalidBuyParam {}));
}

#[test]
fn settlement_precheck_follows_settle_order() {
    let mut c = linked(0);
    list(&mut c, 1, SaleType::Auction, DurationType::Time(100), 10);
    assert_eq!(c.check_settleable(1, &s("A"), 200), Err(ContractError::InvalidBuyParam {}));
    assert_eq!(c.propose(&s("A"), 1, 20, 50), Ok(()));
    assert_eq!(c.check_settleable(1, &s("A"), 99), Err(ContractError::NotExpired {}));
    assert_eq!(c.check_settleable(1, &s("B"), 100), Err(ContractError::InvalidUserOrPrice {}));
    assert_eq!(c.check_settleable(1, &s("A"), 100), Ok(()));
    assert_eq!(c.settle(1, &s("A"), 19, 100), Err(ContractError::InvalidUserOrPrice {}));
}

fn record(t: SaleType, d: DurationType, initial: u128, prices: &[u128], sell_index: u32) -> SaleInfo {
    SaleInfo {
        token_id: 1,
        provider: s("p"),
        sale_type: t,
        duration_type: d,
        initial_price: initial,
        royalty: 0,
        requests: prices.iter().map(|p| Request { address: s("a"), price: *p }).collect(),
        sell_index,
    }
}

#[test]
fn stored_records_are_checked_against_the_sale_rules() {
    assert!(sale_is_sound(&record(SaleType::Auction, DurationType::Fixed, 10, &[11, 12, 20], 2)));
    assert!(!sale_is_sound(&record(SaleType::Auction, DurationType::Fixed, 10, &[11, 11], 1)));
    assert!(!sale_is_sound(&record(SaleType::Auction, DurationType::Fixed, 10, &[10], 0)));
    assert!(!sale_is_sound(&record(SaleType::Auction, DurationType::Fixed, 10, &[11, 12], 0)));
    assert!(sale_is_sound(&record(SaleType::Offer, DurationType::Bid(3), 0, &[5, 9, 9], 1)));
    assert!(!sale_is_sound(&record(SaleType::Offer, DurationType::Bid(3), 0, &[5, 9, 9], 2)));
    assert!(!sale_is_sound(&record(SaleType::Offer, DurationType::Bid(2), 0, &[5, 9, 9], 1)));
    assert!(!sale_is_sound(&record(SaleType::Fixed, DurationType::Time(5), 0, &[], 0)));
    assert!(!sale_is_sound(&record(SaleType::Fixed, DurationType::Fixed, 10, &[9], 0)));
    assert!(sale_is_sound(&record(SaleType::Fixed, DurationType::Fixed, 10, &[10], 0)));
    assert!(!sale_is_sound(&record(SaleType::Offer, DurationType::Fixed, 0, &[], 3)));
}

#[test]
fn equal_offer_does_not_take_over() {
    let mut c = linked(0);
    list(&mut c, 2, SaleType::Offer, DurationType::Fixed, 0);
    assert_eq!(c.propose(&s("A"), 2, 40, 0), Ok(()));
    assert_eq!(c.propose(&s("B"), 2, 40, 0), Ok(()));
    assert_eq!(c.get_sale(2).unwrap().sell_index, 0);
    assert_eq!(c.propose(&s("C"), 2, 41, 0), Ok(()));
    assert_eq!(c.get_sale(2).unwrap().sell_index, 2);
}
