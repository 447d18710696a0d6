use marble_market::collection::{Collection, TOKEN_REPLY_ID};
use marble_market::route::{route, total_paid, Hop, PoolTopology};
use marble_market::types::{Asset, Coin, ContractError};

fn s(x: &str) -> String {
    x.to_string()
}

fn topo() -> PoolTopology {
    PoolTopology {
        juno_denom: s("ujuno"),
        atom_denom: s("uatom"),
        osmo_denom: s("uosmo"),
        scrt_denom: s("uscrt"),
        usdc_denom: s("uusdc"),
        block_token: s("block"),
        marble_token: s("marble"),
        osmo_pool: s("p_osmo"),
        scrt_pool: s("p_scrt"),
        usdc_pool: s("p_usdc"),
        block_juno_pool: s("p_block_juno"),
        block_atom_pool: s("p_block_atom"),
        block_marble_pool: s("p_block_marble"),
    }
}

fn hop(pool: &str, offer: Asset) -> Hop {
    Hop { pool: s(pool), offer }
}

#[test]
fn routes_never_take_three_hops() {
    assert_eq!(route(&topo(), &Asset::Native(s("uosmo")), &s("marble")), Err(ContractError::IncorrectFunds {}));
    assert_eq!(route(&topo(), &Asset::Native(s("uscrt")), &s("marble")), Err(ContractError::IncorrectFunds {}));
    let r = route(&topo(), &Asset::Native(s("uosmo")), &s("block")).unwrap();
    assert_eq!(r, vec![hop("p_osmo", Asset::Native(s("uosmo"))), hop("p_block_juno", Asset::Native(s("ujuno")))]);
    let r = route(&topo(), &Asset::Native(s("ujuno")), &s("marble")).unwrap();
    assert_eq!(r, vec![
        hop("p_block_juno", Asset::Native(s("ujuno"))),
        hop("p_block_marble", Asset::Cw20(s("block"))),
    ]);
}

#[test]
fn atom_to_block_takes_one_hop() {
    let r = route(&topo(), &Asset::Native(s("uatom")), &s("block")).unwrap();
    assert_eq!(r, vec![hop("p_block_atom", Asset::Native(s("uatom")))]);
    let r = route(&topo(), &Asset::Native(s("uusdc")), &s("block")).unwrap();
    assert_eq!(r, vec![hop("p_usdc", Asset::Native(s("uusdc"))), hop("p_block_juno", Asset::Native(s("ujuno")))]);
}

#[test]
fn cw20_routes() {
    assert_eq!(route(&topo(), &Asset::Cw20(s("marble")), &s("marble")), Ok(vec![]));
    assert_eq!(route(&topo(), &Asset::Cw20(s("marble")), &s("block")),
        Ok(vec![hop("p_block_marble", Asset::Cw20(s("marble")))]));
    assert_eq!(route(&topo(), &Asset::Cw20(s("block")), &s("marble")),
        Ok(vec![hop("p_block_marble", Asset::Cw20(s("block")))]));
}

#[test]
fn unsupported_assets_are_refused() {
    assert_eq!(route(&topo(), &Asset::Native(s("ubtc")), &s("marble")), Err(ContractError::IncorrectFunds {}));
    assert_eq!(route(&topo(), &Asset::Cw20(s("other")), &s("marble")), Err(ContractError::InvalidCw20Token {}));
}

#[test]
fn payment_route_is_gated_and_uses_settlement_token() {
    let mut c = Collection::new(s("owner"), s("block"), 10, s("N"), s("S"), 0, s("u"), s("f")).unwrap();
    c.link_token_contract(TOKEN_REPLY_ID, s("nft")).unwrap();
    assert_eq!(c.payment_route(&topo(), &Asset::Native(s("ujuno"))),
        Ok(vec![hop("p_block_juno", Asset::Native(s("ujuno")))]));
    c.update_enabled(&s("owner"), false).unwrap();
    assert_eq!(c.payment_route(&topo(), &Asset::Native(s("ujuno"))), Err(ContractError::Disabled {}));
}

#[test]
fn paid_amount_sums_matching_coins() {
    let funds = vec![
        Coin { denom: s("ujuno"), amount: 5 },
        Coin { denom: s("uatom"), amount: 7 },
        Coin { denom: s("ujuno"), amount: 11 },
    ];
    assert_eq!(total_paid(&funds, &s("ujuno")), Some(16));
    assert_eq!(total_paid(&funds, &s("uosmo")), Some(0));
    let big = vec![Coin { denom: s("a"), amount: u128::MAX }, Coin { denom: s("a"), amount: 1 }];
    assert_eq!(total_paid(&big, &s("a")), None);
}
