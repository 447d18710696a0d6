//! Conversion of a payment into the settlement token through a fixed set of
//! liquidity pools. The planner only decides which pools to go through; the
//! quotes and the swaps themselves are the host's.
use vstd::prelude::*;
use crate::types::{Asset, Coin, ContractError};

verus! {

/// The denominations, tokens and pools that payments are routed through.
#[derive(Clone, Debug, PartialEq, Eq)]
pub struct PoolTopology {
    pub juno_denom: String,
    pub atom_denom: String,
    pub osmo_denom: String,
    pub scrt_denom: String,
    pub usdc_denom: String,
    pub block_token: String,
    pub marble_token: String,
    pub osmo_pool: String,
    pub scrt_pool: String,
    pub usdc_pool: String,
    pub block_juno_pool: String,
    pub block_atom_pool: String,
    pub block_marble_pool: String,
}

/// The mathematical content of an [`Asset`].
pub enum AssetModel {
    Native(Seq<char>),
    Cw20(Seq<char>),
}

impl View for Asset {
    type V = AssetModel;

    open spec fn view(&self) -> AssetModel {
        match self {
            Asset::Native(d) => AssetModel::Native(d@),
            Asset::Cw20(a) => AssetModel::Cw20(a@),
        }
    }
}

/// One swap: offer the whole running amount of `offer` to `pool`.
#[derive(Clone, Debug, PartialEq, Eq)]
pub struct Hop {
    pub pool: String,
    pub offer: Asset,
}

/// The mathematical content of a [`Hop`].
pub struct HopModel {
    pub pool: Seq<char>,
    pub offer: AssetModel,
}

impl View for Hop {
    type V = HopModel;

    open spec fn view(&self) -> HopModel {
        HopModel { pool: self.pool@, offer: self.offer@ }
    }
}

pub open spec fn hop(pool: Seq<char>, offer: AssetModel) -> Seq<HopModel> {
    seq![HopModel { pool, offer }]
}

/// The native denominations that can pay.
pub open spec fn native_supported(t: PoolTopology, d: Seq<char>) -> bool {
    d == t.juno_denom@ || d == t.atom_denom@ || d == t.osmo_denom@ || d == t.scrt_denom@ || d == t.usdc_denom@
}

/// First leg of a native route: the coins that are not paired with the
/// intermediate token go to the hub denomination first.
pub open spec fn hub_leg(t: PoolTopology, d: Seq<char>) -> Seq<HopModel> {
    if d == t.osmo_denom@ {
        hop(t.osmo_pool@, AssetModel::Native(d))
    } else if d == t.scrt_denom@ {
        hop(t.scrt_pool@, AssetModel::Native(d))
    } else if d == t.usdc_denom@ {
        hop(t.usdc_pool@, AssetModel::Native(d))
    } else {
        Seq::empty()
    }
}

/// The denomination held after the first leg.
pub open spec fn after_hub(t: PoolTopology, d: Seq<char>) -> Seq<char> {
    if d == t.osmo_denom@ || d == t.scrt_denom@ || d == t.usdc_denom@ { t.juno_denom@ } else { d }
}

/// Second leg: from the hub denominations to the intermediate token.
pub open spec fn block_leg(t: PoolTopology, d: Seq<char>) -> Seq<HopModel> {
    if d == t.juno_denom@ {
        hop(t.block_juno_pool@, AssetModel::Native(d))
    } else if d == t.atom_denom@ {
        hop(t.block_atom_pool@, AssetModel::Native(d))
    } else {
        Seq::empty()
    }
}

/// Last leg: from the intermediate token to the settlement token, unless they are one.
pub open spec fn settlement_leg(t: PoolTopology, settlement: Seq<char>) -> Seq<HopModel> {
    if t.block_token@ != settlement {
        hop(t.block_marble_pool@, AssetModel::Cw20(t.block_token@))
    } else {
        Seq::empty()
    }
}

/// The coins that reach the hub denomination only through a pool of their own.
pub open spec fn needs_hub(t: PoolTopology, d: Seq<char>) -> bool {
    d == t.osmo_denom@ || d == t.scrt_denom@ || d == t.usdc_denom@
}

/// The pools a payment of `asset` goes through to become `settlement`;
/// `None` when the asset cannot pay. A route has at most two hops, so a coin
/// that needs the hub pool can pay only where the intermediate token settles.
pub open spec fn route_of(t: PoolTopology, asset: AssetModel, settlement: Seq<char>) -> Option<Seq<HopModel>> {
    match asset {
        AssetModel::Native(d) => if native_supported(t, d) && !(needs_hub(t, d) && t.block_token@ != settlement) {
            Some(hub_leg(t, d) + block_leg(t, after_hub(t, d)) + settlement_leg(t, settlement))
        } else {
            None
        },
        AssetModel::Cw20(a) => if a != t.block_token@ && a != t.marble_token@ {
            None
        } else if a == settlement {
            Some(Seq::empty())
        } else {
            Some(hop(t.block_marble_pool@, AssetModel::Cw20(a)))
        },
    }
}

/// The error for an asset that cannot pay.
pub open spec fn unsupported_error(asset: AssetModel) -> ContractError {
    match asset {
        AssetModel::Native(_) => ContractError::IncorrectFunds {},
        AssetModel::Cw20(_) => ContractError::InvalidCw20Token {},
    }
}

fn push_hop(v: &mut Vec<Hop>, pool: &String, offer: Asset)
    ensures
        final(v)@.map_values(|h: Hop| h@) == old(v)@.map_values(|h: Hop| h@) + hop(pool@, offer@),
{
    let ghost pre = v@;
    v.push(Hop { pool: pool.clone(), offer });
    assert(v@.map_values(|h: Hop| h@) =~= pre.map_values(|h: Hop| h@) + hop(pool@, offer@));
}

/// Plans the conversion of a payment in `asset` into the token `settlement`.
pub fn route(t: &PoolTopology, asset: &Asset, settlement: &String) -> (r: Result<Vec<Hop>, ContractError>)
    ensures
        match route_of(*t, asset@, settlement@) {
            Some(hops) => r.is_ok() && r.unwrap()@.map_values(|h: Hop| h@) == hops,
            None => r == Err::<Vec<Hop>, ContractError>(unsupported_error(asset@)),
        },
{
    let mut v: Vec<Hop> = Vec::new();
    assert(v@.map_values(|h: Hop| h@) =~= Seq::<HopModel>::empty());
    match asset {
        Asset::Native(d) => {
            let is_osmo = *d == t.osmo_denom;
            let is_scrt = *d == t.scrt_denom;
            let is_usdc = *d == t.usdc_denom;
            let is_juno = *d == t.juno_denom;
            let is_atom = *d == t.atom_denom;
            if !is_juno && !is_atom && !is_osmo && !is_scrt && !is_usdc {
                return Err(ContractError::IncorrectFunds {});
            }
            if (is_osmo || is_scrt || is_usdc) && t.block_token != *settlement {
                return Err(ContractError::IncorrectFunds {});
            }
            let mut held: &String = d;
            if is_osmo || is_scrt || is_usdc {
                if is_osmo {
                    push_hop(&mut v, &t.osmo_pool, Asset::Native(d.clone()));
                } else if is_scrt {
                    push_hop(&mut v, &t.scrt_pool, Asset::Native(d.clone()));
                } else {
                    push_hop(&mut v, &t.usdc_pool, Asset::Native(d.clone()));
                }
                held = &t.juno_denom;
            }
            if *held == t.juno_denom {
                push_hop(&mut v, &t.block_juno_pool, Asset::Native(held.clone()));
            } else if *held == t.atom_denom {
                push_hop(&mut v, &t.block_atom_pool, Asset::Native(held.clone()));
            }
            if t.block_token != *settlement {
                push_hop(&mut v, &t.block_marble_pool, Asset::Cw20(t.block_token.clone()));
            }
            assert(v@.map_values(|h: Hop| h@) =~= hub_leg(*t, d@) + block_leg(*t, after_hub(*t, d@))
                + settlement_leg(*t, settlement@));
            Ok(v)
        },
        Asset::Cw20(a) => {
            if *a != t.block_token && *a != t.marble_token {
                return Err(ContractError::InvalidCw20Token {});
            }
            if *a != *settlement {
                push_hop(&mut v, &t.block_marble_pool, Asset::Cw20(a.clone()));
            }
            Ok(v)
        },
    }
}

/// Every route chains at most two pool hops.
pub proof fn lemma_route_at_most_two_hops(t: PoolTopology, asset: AssetModel, settlement: Seq<char>)
    ensures
        route_of(t, asset, settlement) matches Some(hops) ==> hops.len() <= 2,
{
    if let AssetModel::Native(d) = asset {
        let h = hub_leg(t, d);
        let b = block_leg(t, after_hub(t, d));
        let s = settlement_leg(t, settlement);
        assert(h.len() <= 1 && b.len() <= 1 && s.len() <= 1);
        assert(needs_hub(t, d) == (h.len() == 1));
    }
}

/// The sum of the coins of denomination `d`.
pub open spec fn paid_in(funds: Seq<Coin>, d: Seq<char>) -> int
    decreases funds.len(),
{
    if funds.len() == 0 {
        0
    } else {
        paid_in(funds.drop_last(), d) + if funds.last().denom@ == d { funds.last().amount as int } else { 0 }
    }
}

/// The total sent in denomination `denom`, or `None` when it exceeds `u128`.
pub fn total_paid(funds: &Vec<Coin>, denom: &String) -> (r: Option<u128>)
    ensures
        r.is_some() <==> paid_in(funds@, denom@) <= u128::MAX,
        r.is_some() ==> r.unwrap() == paid_in(funds@, denom@),
{
    let n = funds.len();
    let mut sum: u128 = 0;
    let mut i: usize = 0;
    let mut overflow = false;
    while i < n
        invariant
            n == funds@.len(),
            i <= n,
            !overflow ==> sum == paid_in(funds@.take(i as int), denom@),
            overflow ==> paid_in(funds@.take(i as int), denom@) > u128::MAX,
        decreases n - i,
    {
        proof {
            assert(funds@.take(i as int + 1).drop_last() =~= funds@.take(i as int));
            lemma_paid_in_nonneg(funds@.take(i as int), denom@);
        }
        if funds[i].denom == *denom {
            if !overflow {
                match sum.checked_add(funds[i].amount) {
                    Some(s) => { sum = s; },
                    None => { overflow = true; },
                }
            }
        }
        i = i + 1;
    }
    assert(funds@.take(n as int) =~= funds@);
    if overflow { None } else { Some(sum) }
}

proof fn lemma_paid_in_nonneg(funds: Seq<Coin>, d: Seq<char>)
    ensures
        paid_in(funds, d) >= 0,
    decreases funds.len(),
{
    if funds.len() > 0 {
        lemma_paid_in_nonneg(funds.drop_last(), d);
    }
}

} // verus!
