//! A presale and airdrop contract: the owner mints tokens with prices;
//! buyers pay in a native coin or a fungible token, holders pay a royalty to
//! move a token, and listed addresses claim a token with a Merkle proof.
use vstd::prelude::*;
use crate::merkle::{decode_hex32, encode_utf8_of, fold_proof, hex_bytes, is_hex32, leaf_input, proof_is_hex,
    sha256_of, verify_claim};
use crate::royalty::{percent_of, share, PERCENT_SCALE};
use crate::tables::{AddressSet, IdSet, PriceTable};
use crate::types::{
    transfers_view, BlockInfo, Coin, ContractError, Expiration, PriceInfo, Scheduled, Transfer, TransferModel,
};

verus! {

/// The single airdrop stage.
pub const MERKLE_STAGE: u8 = 1;

/// Reply id of the instantiation of the linked token contract.
pub const TOKEN_REPLY_ID: u64 = 1;

/// Nanoseconds in a second.
pub const NANOS_PER_SECOND: u64 = 1000000000;

/// The settings of a presale.
#[derive(Clone, Debug, PartialEq, Eq)]
pub struct Config {
    pub owner: String,
    /// Sales are paid in `native_denom` rather than in the token `cw20_address`.
    pub pay_native: bool,
    pub native_denom: String,
    pub cw20_address: String,
    /// Tokens are claimed rather than sold.
    pub airdrop: bool,
    pub cw721_address: Option<String>,
    pub max_tokens: u32,
    pub sold_cnt: u32,
    pub name: String,
    pub symbol: String,
    /// The id the next minted token gets; tokens `0..unused_token_id` exist.
    pub unused_token_id: u32,
    /// Percentage of a token's price charged to move it.
    pub royalty: u32,
}

/// The registered airdrop root and how far claims have gone.
#[derive(Clone, Debug, PartialEq, Eq)]
pub struct MerkleStage {
    /// Hexadecimal root of the claim tree.
    pub root: String,
    pub expiration: Expiration,
    pub claimed_amount: u32,
}

/// What a fungible-token payment asks for.
#[derive(Clone, Debug, PartialEq, Eq)]
#[allow(inconsistent_fields)]
pub enum ReceiveMsg {
    /// Buy `token_id`, or a random unsold token, for `recipient`.
    Buy { token_id: Option<u32>, recipient: String },
    /// Move `token_id` to `recipient`, paying the royalty.
    Move { token_id: u32, recipient: String },
}

/// A presale: its settings, prices, sold tokens and airdrop state.
pub struct Presale {
    pub config: Config,
    pub prices: PriceTable,
    pub sold: IdSet,
    pub claimed: AddressSet,
    pub stage: Option<MerkleStage>,
    pub stage_start: Option<Scheduled>,
}

/// The unsold ids below `n`, in increasing order.
pub open spec fn unsold_below(sold: Set<u32>, n: nat) -> Seq<u32>
    decreases n,
{
    if n == 0 {
        Seq::empty()
    } else {
        let pre = unsold_below(sold, (n - 1) as nat);
        if sold.contains((n - 1) as u32) { pre } else { pre.push((n - 1) as u32) }
    }
}

/// The token picked at time `now` (seconds) among `minted` tokens: with
/// `c = now % minted`, token 0 when `c` is zero, otherwise the `c`-th unsold
/// token counting cyclically from id 0. `None` when none is unsold.
pub open spec fn random_pick(sold: Set<u32>, minted: u32, now: u64) -> Option<u32> {
    let c = now % (minted as u64);
    let u = unsold_below(sold, minted as nat);
    if c == 0 {
        Some(0)
    } else if u.len() == 0 {
        None
    } else {
        Some(u[(c - 1) % (u.len() as int)])
    }
}

/// The amount of the last coin of denomination `d` sent.
pub open spec fn last_coin(funds: Seq<Coin>, d: Seq<char>) -> u128
    decreases funds.len(),
{
    if funds.len() == 0 {
        0
    } else if funds.last().denom@ == d {
        funds.last().amount
    } else {
        last_coin(funds.drop_last(), d)
    }
}

/// Which token a purchase or move is for, and what it costs.
pub open spec fn selection(
    cfg: Config,
    prices: Map<u32, u128>,
    sold: Set<u32>,
    token_id: Option<u32>,
    moving: bool,
    mover_owns: bool,
    now: u64,
) -> Result<(u32, u128), ContractError> {
    if !moving {
        let id = match token_id {
            Some(t) => Some(t),
            None => random_pick(sold, cfg.unused_token_id, now),
        };
        match id {
            None => Err(ContractError::SoldOut {}),
            Some(id) => if prices.contains_key(id) {
                Ok((id, prices[id]))
            } else {
                Err(ContractError::NotFound {})
            },
        }
    } else {
        let id = token_id.unwrap();
        if !prices.contains_key(id) {
            Err(ContractError::NotFound {})
        } else if share(prices[id] as int, cfg.royalty as int, PERCENT_SCALE as int) > u128::MAX {
            Err(ContractError::Overflow {})
        } else if !mover_owns {
            Err(ContractError::Unauthorized {})
        } else {
            Ok((id, share(prices[id] as int, cfg.royalty as int, PERCENT_SCALE as int) as u128))
        }
    }
}

/// Why a payment of `paid` for the selected token is refused, if it is.
pub open spec fn payment_error(sel: Result<(u32, u128), ContractError>, paid: u128, sold: Set<u32>) -> Option<
    ContractError,
> {
    match sel {
        Err(e) => Some(e),
        Ok((id, price)) => if paid < price {
            Some(ContractError::InsufficientFund {})
        } else if sold.contains(id) {
            Some(ContractError::AlreadySold {})
        } else {
            None
        },
    }
}

/// The merkle proof is sound hexadecimal and leads from `address` to `root`.
pub open spec fn proof_matches(address: Seq<char>, proof: Seq<String>, root: Seq<char>) -> bool {
    hex_bytes(encode_utf8_of(root)) == fold_proof(
        sha256_of(leaf_input(address)),
        proof.map_values(|p: String| hex_bytes(encode_utf8_of(p@))),
    )
}

/// `m` after setting `ps[i]` for `ids[i]`, in order.
pub open spec fn with_prices(m: Map<u32, u128>, ids: Seq<u32>, ps: Seq<u128>) -> Map<u32, u128>
    decreases ids.len(),
{
    if ids.len() == 0 || ps.len() == 0 {
        m
    } else {
        with_prices(m, ids.drop_last(), ps.drop_last()).insert(ids.last(), ps.last())
    }
}

/// The ids `start`, `start + 1`, ... , `n` of them.
pub open spec fn id_range(start: u32, n: nat) -> Seq<u32> {
    Seq::new(n, |i: int| (start + i) as u32)
}

/// Why a claim is refused before its proof is looked at, if it is.
pub open spec fn claim_gate(
    cfg: Config,
    start: Option<Scheduled>,
    stage: Option<MerkleStage>,
    claimed: Set<Seq<char>>,
    sender: Seq<char>,
    block: BlockInfo,
) -> Option<ContractError> {
    if !cfg.airdrop {
        Some(ContractError::NotSupported {})
    } else if cfg.unused_token_id == 0 {
        Some(ContractError::NotMinted {})
    } else if start.is_some() && !start.unwrap().spec_is_triggered(block) {
        Some(ContractError::StageNotBegun { stage: MERKLE_STAGE, start: start.unwrap() })
    } else if stage.is_none() {
        Some(ContractError::NotFound {})
    } else if stage.unwrap().expiration.spec_is_expired(block) {
        Some(ContractError::StageExpired { stage: MERKLE_STAGE, expiration: stage.unwrap().expiration })
    } else if claimed.contains(sender) {
        Some(ContractError::Claimed {})
    } else {
        None
    }
}

/// The token that a fungible-token payment asks for, whether it is a move,
/// and who receives it.
pub open spec fn receive_target(msg: ReceiveMsg) -> (Option<u32>, bool, Seq<char>) {
    match msg {
        ReceiveMsg::Buy { token_id, recipient } => (token_id, false, recipient@),
        ReceiveMsg::Move { token_id, recipient } => (Some(token_id), true, recipient@),
    }
}

/// The amount of the last coin of denomination `denom` among `funds`; zero if none.
pub fn last_coin_of(funds: &Vec<Coin>, denom: &String) -> (r: u128)
    ensures
        r == last_coin(funds@, denom@),
{
    let mut i: usize = funds.len();
    assert(funds@.take(i as int) =~= funds@);
    while i > 0
        invariant
            i <= funds@.len(),
            last_coin(funds@, denom@) == last_coin(funds@.take(i as int), denom@),
        decreases i,
    {
        assert(funds@.take(i as int).drop_last() =~= funds@.take(i - 1));
        if funds[i - 1].denom == *denom {
            return funds[i - 1].amount;
        }
        i = i - 1;
    }
    0
}

impl Presale {
    /// A new presale owned by `sender`; it has no linked token contract yet.
    pub fn new(
        sender: String,
        pay_native: bool,
        airdrop: bool,
        native_denom: String,
        max_tokens: u32,
        name: String,
        symbol: String,
        cw20_address: String,
        royalty: u32,
    ) -> (r: Result<Presale, ContractError>)
        ensures
            max_tokens == 0 <==> r == Err::<Presale, ContractError>(ContractError::InvalidMaxTokens {}),
            max_tokens != 0 ==> r is Ok,
            r.is_ok() ==> {
                let p = r.unwrap();
                &&& p.config == Config {
                    owner: sender,
                    pay_native,
                    native_denom,
                    cw20_address,
                    airdrop,
                    cw721_address: None,
                    max_tokens,
                    sold_cnt: 0,
                    name,
                    symbol,
                    unused_token_id: 0,
                    royalty,
                }
                &&& p.prices@ == Map::<u32, u128>::empty()
                &&& p.sold@ == Set::<u32>::empty()
                &&& p.claimed@ == Set::<Seq<char>>::empty()
                &&& p.stage.is_none()
                &&& p.stage_start.is_none()
            },
    {
        if max_tokens == 0 {
            return Err(ContractError::InvalidMaxTokens {});
        }
        Ok(Presale {
            config: Config {
                owner: sender,
                pay_native,
                native_denom,
                cw20_address,
                airdrop,
                cw721_address: None,
                max_tokens,
                sold_cnt: 0,
                name,
                symbol,
                unused_token_id: 0,
                royalty,
            },
            prices: PriceTable::new(),
            sold: IdSet::new(),
            claimed: AddressSet::new(),
            stage: None,
            stage_start: None,
        })
    }

    /// Records the address of the token contract once it is instantiated.
    pub fn link_token_contract(&mut self, reply_id: u64, address: String) -> (r: Result<(), ContractError>)
        ensures
            old(self).config.cw721_address.is_some() ==> r == Err::<(), ContractError>(ContractError::Cw721AlreadyLinked {})
                && final(self).config == old(self).config,
            old(self).config.cw721_address.is_none() && reply_id != TOKEN_REPLY_ID ==> r == Err::<(), ContractError>(
                ContractError::InvalidTokenReplyId {}) && final(self).config == old(self).config,
            old(self).config.cw721_address.is_none() && reply_id == TOKEN_REPLY_ID ==> r is Ok
                && final(self).config == (Config { cw721_address: Some(address), ..old(self).config }),
    {
        if self.config.cw721_address.is_some() {
            return Err(ContractError::Cw721AlreadyLinked {});
        }
        if reply_id != TOKEN_REPLY_ID {
            return Err(ContractError::InvalidTokenReplyId {});
        }
        self.config.cw721_address = Some(address);
        Ok(())
    }

    /// The token picked for a random sale or claim at time `now` (seconds).
    pub fn get_rand_sell_id(&self, now: u64) -> (r: Result<u32, ContractError>)
        requires
            self.config.unused_token_id > 0,
        ensures
            match random_pick(self.sold@, self.config.unused_token_id, now) {
                Some(id) => r == Ok::<u32, ContractError>(id),
                None => r == Err::<u32, ContractError>(ContractError::SoldOut {}),
            },
    {
        let minted = self.config.unused_token_id;
        let c = now % (minted as u64);
        if c == 0 {
            return Ok(0);
        }
        let flags = self.sold.flags_below(minted);
        let mut unsold: Vec<u32> = Vec::new();
        let mut j: u32 = 0;
        while j < minted
            invariant
                j <= minted,
                flags@.len() == minted,
                forall|x: int| 0 <= x < minted ==> flags@[x] == self.sold@.contains(x as u32),
                unsold@ == unsold_below(self.sold@, j as nat),
                unsold@.len() <= j,
            decreases minted - j,
        {
            if !flags[j as usize] {
                unsold.push(j);
            }
            j = j + 1;
        }
        let k = unsold.len();
        if k == 0 {
            return Err(ContractError::SoldOut {});
        }
        let idx = ((c - 1) % (k as u64)) as usize;
        Ok(unsold[idx])
    }

    /// Mints the next token, held by this contract, at `price` (owner only).
    pub fn mint(&mut self, sender: &String, price: u128) -> (r: Result<u32, ContractError>)
        ensures
            final(self).claimed == old(self).claimed,
            final(self).stage == old(self).stage,
            final(self).stage_start == old(self).stage_start,
            sender@ != old(self).config.owner@ ==> r == Err::<u32, ContractError>(ContractError::Unauthorized {})
                && final(self).config == old(self).config && final(self).prices@ == old(self).prices@,
            sender@ == old(self).config.owner@ && old(self).config.cw721_address.is_none() ==> r == Err::<
                u32,
                ContractError,
            >(ContractError::Uninitialized {}) && final(self).config == old(self).config && final(self).prices@
                == old(self).prices@,
            sender@ == old(self).config.owner@ && old(self).config.cw721_address.is_some()
                && old(self).config.unused_token_id >= old(self).config.max_tokens ==> r == Err::<u32, ContractError>(
                ContractError::SoldOut {}) && final(self).config == old(self).config && final(self).prices@
                == old(self).prices@,
            sender@ == old(self).config.owner@ && old(self).config.cw721_address.is_some()
                && old(self).config.unused_token_id < old(self).config.max_tokens ==> {
                &&& r == Ok::<u32, ContractError>(old(self).config.unused_token_id)
                &&& final(self).config == (Config {
                    unused_token_id: (old(self).config.unused_token_id + 1) as u32,
                    ..old(self).config
                })
                &&& final(self).prices@ == old(self).prices@.insert(old(self).config.unused_token_id, price)
            },
            final(self).sold@ == old(self).sold@,
    {
        if *sender != self.config.owner {
            return Err(ContractError::Unauthorized {});
        }
        if self.config.cw721_address.is_none() {
            return Err(ContractError::Uninitialized {});
        }
        if self.config.unused_token_id >= self.config.max_tokens {
            return Err(ContractError::SoldOut {});
        }
        let id = self.config.unused_token_id;
        self.prices.set(id, price);
        self.config.unused_token_id = id + 1;
        Ok(id)
    }

    /// Mints `prices.len()` tokens held by this contract, with consecutive ids
    /// from the next unused one and the given prices (owner only); there must
    /// be `uri_count` of them. Only the first id is held to the token limit.
    pub fn batch_mint(&mut self, sender: &String, prices: &Vec<u128>, uri_count: usize) -> (r: Result<
        Vec<u32>,
        ContractError,
    >)
        requires
            old(self).config.unused_token_id + prices@.len() <= u32::MAX,
        ensures
            final(self).claimed == old(self).claimed,
            final(self).stage == old(self).stage,
            final(self).stage_start == old(self).stage_start,
            final(self).sold@ == old(self).sold@,
            sender@ != old(self).config.owner@ ==> r == Err::<Vec<u32>, ContractError>(ContractError::Unauthorized {})
                && final(self).config == old(self).config && final(self).prices@ == old(self).prices@,
            sender@ == old(self).config.owner@ && uri_count != prices@.len() ==> r == Err::<Vec<u32>, ContractError>(
                ContractError::CountNotMatch {}) && final(self).config == old(self).config && final(self).prices@
                == old(self).prices@,
            sender@ == old(self).config.owner@ && uri_count == prices@.len() && old(self).config.cw721_address.is_none()
                ==> r == Err::<Vec<u32>, ContractError>(ContractError::Uninitialized {}) && final(self).config
                == old(self).config && final(self).prices@ == old(self).prices@,
            sender@ == old(self).config.owner@ && uri_count == prices@.len() && old(self).config.cw721_address.is_some()
                && old(self).config.unused_token_id >= old(self).config.max_tokens ==> r == Err::<Vec<u32>, ContractError>(
                ContractError::SoldOut {}) && final(self).config == old(self).config && final(self).prices@
                == old(self).prices@,
            sender@ == old(self).config.owner@ && uri_count == prices@.len() && old(self).config.cw721_address.is_some()
                && old(self).config.unused_token_id < old(self).config.max_tokens ==> {
                let ids = id_range(old(self).config.unused_token_id, prices@.len());
                &&& r == Ok::<Vec<u32>, ContractError>(r.unwrap())
                &&& r.unwrap()@ == ids
                &&& final(self).prices@ == with_prices(old(self).prices@, ids, prices@)
                &&& final(self).config == (Config {
                    unused_token_id: (old(self).config.unused_token_id + prices@.len()) as u32,
                    ..old(self).config
                })
            },
    {
        if *sender != self.config.owner {
            return Err(ContractError::Unauthorized {});
        }
        if uri_count != prices.len() {
            return Err(ContractError::CountNotMatch {});
        }
        if self.config.cw721_address.is_none() {
            return Err(ContractError::Uninitialized {});
        }
        if self.config.unused_token_id >= self.config.max_tokens {
            return Err(ContractError::SoldOut {});
        }
        let start = self.config.unused_token_id;
        let ghost before = self.prices@;
        let n = prices.len();
        let mut ids: Vec<u32> = Vec::new();
        let mut i: usize = 0;
        while i < n
            invariant
                n == prices@.len(),
                start + n <= u32::MAX,
                i <= n,
                ids@ == id_range(start, i as nat),
                self.prices@ == with_prices(before, id_range(start, i as nat), prices@.take(i as int)),
                self.config == old(self).config,
                self.sold == old(self).sold,
                self.claimed == old(self).claimed,
                self.stage == old(self).stage,
                self.stage_start == old(self).stage_start,
            decreases n - i,
        {
            let id = start + i as u32;
            self.prices.set(id, prices[i]);
            ids.push(id);
            proof {
                let nxt = id_range(start, (i + 1) as nat);
                assert(nxt.drop_last() =~= id_range(start, i as nat));
                assert(prices@.take(i + 1).drop_last() =~= prices@.take(i as int));
                assert(ids@ =~= nxt);
            }
            i = i + 1;
        }
        assert(prices@.take(n as int) =~= prices@);
        self.config.unused_token_id = start + n as u32;
        Ok(ids)
    }

    /// Sets `prices[i]` for `token_ids[i]`, in order (owner only); returns
    /// how many were set.
    pub fn update_price(&mut self, sender: &String, token_ids: &Vec<u32>, prices: &Vec<u128>) -> (r: Result<
        usize,
        ContractError,
    >)
        ensures
            final(self).claimed == old(self).claimed,
            final(self).stage == old(self).stage,
            final(self).stage_start == old(self).stage_start,
            final(self).config == old(self).config,
            final(self).sold@ == old(self).sold@,
            sender@ != old(self).config.owner@ ==> r == Err::<usize, ContractError>(ContractError::Unauthorized {})
                && final(self).prices@ == old(self).prices@,
            sender@ == old(self).config.owner@ && token_ids@.len() != prices@.len() ==> r == Err::<usize, ContractError>(
                ContractError::WrongLength {}) && final(self).prices@ == old(self).prices@,
            sender@ == old(self).config.owner@ && token_ids@.len() == prices@.len() ==> r == Ok::<usize, ContractError>(
                token_ids@.len() as usize) && final(self).prices@ == with_prices(old(self).prices@, token_ids@, prices@),
    {
        if *sender != self.config.owner {
            return Err(ContractError::Unauthorized {});
        }
        if token_ids.len() != prices.len() {
            return Err(ContractError::WrongLength {});
        }
        let ghost before = self.prices@;
        let n = token_ids.len();
        let mut i: usize = 0;
        while i < n
            invariant
                n == token_ids@.len(),
                n == prices@.len(),
                i <= n,
                self.prices@ == with_prices(before, token_ids@.take(i as int), prices@.take(i as int)),
                self.config == old(self).config,
                self.sold == old(self).sold,
                self.claimed == old(self).claimed,
                self.stage == old(self).stage,
                self.stage_start == old(self).stage_start,
            decreases n - i,
        {
            self.prices.set(token_ids[i], prices[i]);
            proof {
                assert(token_ids@.take(i + 1).drop_last() =~= token_ids@.take(i as int));
                assert(prices@.take(i + 1).drop_last() =~= prices@.take(i as int));
            }
            i = i + 1;
        }
        assert(token_ids@.take(n as int) =~= token_ids@);
        assert(prices@.take(n as int) =~= prices@);
        Ok(n)
    }

    /// The prices of the given tokens; `NotFound` if one has none.
    pub fn get_price(&self, token_ids: &Vec<u32>) -> (r: Result<Vec<PriceInfo>, ContractError>)
        ensures
            (forall|i: int| 0 <= i < token_ids@.len() ==> self.prices@.contains_key(#[trigger] token_ids@[i])) ==> {
                &&& r is Ok
                &&& r.unwrap()@.len() == token_ids@.len()
                &&& forall|i: int| 0 <= i < token_ids@.len() ==> #[trigger] r.unwrap()@[i] == (PriceInfo {
                    token_id: token_ids@[i],
                    price: self.prices@[token_ids@[i]],
                })
            },
            !(forall|i: int| 0 <= i < token_ids@.len() ==> self.prices@.contains_key(#[trigger] token_ids@[i]))
                ==> r == Err::<Vec<PriceInfo>, ContractError>(ContractError::NotFound {}),
    {
        let n = token_ids.len();
        let mut out: Vec<PriceInfo> = Vec::new();
        let mut i: usize = 0;
        while i < n
            invariant
                n == token_ids@.len(),
                i <= n,
                out@.len() == i,
                forall|j: int| 0 <= j < i ==> self.prices@.contains_key(#[trigger] token_ids@[j]),
                forall|j: int| 0 <= j < i ==> #[trigger] out@[j] == (PriceInfo {
                    token_id: token_ids@[j],
                    price: self.prices@[token_ids@[j]],
                }),
            decreases n - i,
        {
            match self.prices.get(token_ids[i]) {
                None => { return Err(ContractError::NotFound {}); },
                Some(p) => { out.push(PriceInfo { token_id: token_ids[i], price: p }); },
            }
            i = i + 1;
        }
        Ok(out)
    }

    /// Points the presale at another token contract (owner only).
    pub fn change_contract(&mut self, sender: &String, cw721_address: String) -> (r: Result<(), ContractError>)
        ensures
            final(self).claimed == old(self).claimed,
            final(self).stage == old(self).stage,
            final(self).stage_start == old(self).stage_start,
            final(self).prices@ == old(self).prices@ && final(self).sold@ == old(self).sold@,
            sender@ != old(self).config.owner@ ==> r == Err::<(), ContractError>(ContractError::Unauthorized {})
                && final(self).config == old(self).config,
            sender@ == old(self).config.owner@ ==> r is Ok && final(self).config == (Config {
                cw721_address: Some(cw721_address),
                ..old(self).config
            }),
    {
        if *sender != self.config.owner {
            return Err(ContractError::Unauthorized {});
        }
        self.config.cw721_address = Some(cw721_address);
        Ok(())
    }

    /// Hands the presale to a new owner (owner only).
    pub fn change_owner(&mut self, sender: &String, owner: String) -> (r: Result<(), ContractError>)
        ensures
            final(self).claimed == old(self).claimed,
            final(self).stage == old(self).stage,
            final(self).stage_start == old(self).stage_start,
            final(self).prices@ == old(self).prices@ && final(self).sold@ == old(self).sold@,
            sender@ != old(self).config.owner@ ==> r == Err::<(), ContractError>(ContractError::Unauthorized {})
                && final(self).config == old(self).config,
            sender@ == old(self).config.owner@ ==> r is Ok && final(self).config == (Config {
                owner,
                ..old(self).config
            }),
    {
        if *sender != self.config.owner {
            return Err(ContractError::Unauthorized {});
        }
        self.config.owner = owner;
        Ok(())
    }

    /// Hands both the presale and the token contract to a new owner (owner
    /// only); returns the token contract to send the change to.
    pub fn change_cw721_owner(&mut self, sender: &String, owner: String) -> (r: Result<String, ContractError>)
        ensures
            final(self).claimed == old(self).claimed,
            final(self).stage == old(self).stage,
            final(self).stage_start == old(self).stage_start,
            final(self).prices@ == old(self).prices@ && final(self).sold@ == old(self).sold@,
            sender@ != old(self).config.owner@ ==> r == Err::<String, ContractError>(ContractError::Unauthorized {})
                && final(self).config == old(self).config,
            sender@ == old(self).config.owner@ && old(self).config.cw721_address.is_none() ==> r == Err::<
                String,
                ContractError,
            >(ContractError::Uninitialized {}) && final(self).config == old(self).config,
            sender@ == old(self).config.owner@ && old(self).config.cw721_address.is_some() ==> r is Ok
                && r.unwrap()@ == old(self).config.cw721_address.unwrap()@ && final(self).config == (Config {
                owner,
                ..old(self).config
            }),
    {
        if *sender != self.config.owner {
            return Err(ContractError::Unauthorized {});
        }
        let contract = match &self.config.cw721_address {
            None => { return Err(ContractError::Uninitialized {}); },
            Some(a) => a.clone(),
        };
        self.config.owner = owner;
        Ok(contract)
    }

    /// Whether `address` has claimed its airdrop.
    pub fn is_claimed(&self, address: &String) -> (r: bool)
        ensures
            r == self.claimed@.contains(address@),
    {
        self.claimed.contains(address)
    }

    /// What a token costs: its price, or for a move the royalty share of it;
    /// a move also needs the mover to own the token.
    fn select(&self, token_id: Option<u32>, moving: bool, mover_owns: bool, now: u64) -> (r: Result<
        (u32, u128),
        ContractError,
    >)
        requires
            self.config.unused_token_id > 0,
            moving ==> token_id.is_some(),
        ensures
            r == selection(self.config, self.prices@, self.sold@, token_id, moving, mover_owns, now),
    {
        if !moving {
            let id = match token_id {
                Some(t) => t,
                None => self.get_rand_sell_id(now)?,
            };
            match self.prices.get(id) {
                None => Err(ContractError::NotFound {}),
                Some(p) => Ok((id, p)),
            }
        } else {
            let id = token_id.unwrap();
            let base = match self.prices.get(id) {
                None => { return Err(ContractError::NotFound {}); },
                Some(p) => p,
            };
            let price = match percent_of(base, self.config.royalty) {
                None => { return Err(ContractError::Overflow {}); },
                Some(p) => p,
            };
            if !mover_owns {
                return Err(ContractError::Unauthorized {});
            }
            Ok((id, price))
        }
    }

    /// Buys or moves a token with a fungible-token payment of `amount` sent by
    /// the token contract `caller`. For a move, `token_owner` is the token's
    /// current owner as the token contract reports it, which must be `caller`.
    /// The whole amount goes to the owner.
    pub fn cw20_buy_move(&mut self, caller: &String, amount: u128, msg: ReceiveMsg, token_owner: &String, now: u64)
        -> (r: Result<Vec<Transfer>, ContractError>)
        requires
            old(self).config.sold_cnt <= u32::MAX - 2,
        ensures
            ({
                let cfg = old(self).config;
                let (tid, moving, recipient) = receive_target(msg);
                let sel = selection(cfg, old(self).prices@, old(self).sold@, tid, moving, token_owner@ == caller@, now);
                if cfg.airdrop || cfg.pay_native {
                    r == Err::<Vec<Transfer>, ContractError>(ContractError::NotSupported {}) && *final(self) == *old(self)
                } else if cfg.cw20_address@ != caller@ {
                    r == Err::<Vec<Transfer>, ContractError>(ContractError::InvalidCw20Token {}) && *final(self)
                        == *old(self)
                } else if cfg.unused_token_id == 0 {
                    r == Err::<Vec<Transfer>, ContractError>(ContractError::NotMinted {}) && *final(self) == *old(self)
                } else {
                    match payment_error(sel, amount, old(self).sold@) {
                        Some(e) => r == Err::<Vec<Transfer>, ContractError>(e) && *final(self) == *old(self),
                        None => {
                            let id = sel.unwrap().0;
                            &&& r is Ok
                            &&& transfers_view(r.unwrap()@) == seq![
                                TransferModel::Nft { token_id: id, recipient },
                                TransferModel::Token { recipient: cfg.owner@, amount },
                            ]
                            &&& final(self).sold@ == old(self).sold@.insert(id)
                            &&& final(self).config == (Config {
                                sold_cnt: (cfg.sold_cnt + 2) as u32,
                                ..cfg
                            })
                            &&& final(self).prices == old(self).prices
                            &&& final(self).claimed == old(self).claimed
                            &&& final(self).stage == old(self).stage
                            &&& final(self).stage_start == old(self).stage_start
                        },
                    }
                }
            }),
    {
        if self.config.airdrop || self.config.pay_native {
            return Err(ContractError::NotSupported {});
        }
        if self.config.cw20_address != *caller {
            return Err(ContractError::InvalidCw20Token {});
        }
        if self.config.unused_token_id == 0 {
            return Err(ContractError::NotMinted {});
        }
        let mover_owns = *token_owner == *caller;
        let (token_id, moving, recipient) = match msg {
            ReceiveMsg::Buy { token_id, recipient } => (token_id, false, recipient),
            ReceiveMsg::Move { token_id, recipient } => (Some(token_id), true, recipient),
        };
        let (id, price) = self.select(token_id, moving, mover_owns, now)?;
        if amount < price {
            return Err(ContractError::InsufficientFund {});
        }
        if self.sold.contains(id) {
            return Err(ContractError::AlreadySold {});
        }
        self.sold.insert(id);
        self.config.sold_cnt = self.config.sold_cnt + 2;
        let mut out: Vec<Transfer> = Vec::new();
        out.push(Transfer::Nft { token_id: id, recipient });
        out.push(Transfer::Token { recipient: self.config.owner.clone(), amount });
        assert(transfers_view(out@) =~= seq![
            TransferModel::Nft { token_id: id, recipient: receive_target(msg).2 },
            TransferModel::Token { recipient: old(self).config.owner@, amount },
        ]);
        Ok(out)
    }

    /// Buys (`is_buy`) or moves a token with native coins sent by `sender`;
    /// the last coin of the presale's denomination counts. A buy goes to the
    /// sender; a move goes to `recipient` and needs `token_owner` (the token's
    /// owner as the token contract reports it) to be the sender. The coins go
    /// to the owner.
    pub fn native_buy_move(
        &mut self,
        sender: &String,
        funds: &Vec<Coin>,
        token_id: Option<u32>,
        is_buy: bool,
        recipient: Option<String>,
        token_owner: &String,
        now: u64,
    ) -> (r: Result<Vec<Transfer>, ContractError>)
        requires
            old(self).config.sold_cnt <= u32::MAX - 2,
            !is_buy ==> token_id.is_some() && recipient.is_some(),
        ensures
            ({
                let cfg = old(self).config;
                let paid = last_coin(funds@, cfg.native_denom@);
                let sel = selection(cfg, old(self).prices@, old(self).sold@, token_id, !is_buy, token_owner@ == sender@, now);
                let to = if is_buy { sender@ } else { recipient.unwrap()@ };
                if cfg.airdrop || !cfg.pay_native {
                    r == Err::<Vec<Transfer>, ContractError>(ContractError::NotSupported {}) && *final(self) == *old(self)
                } else if cfg.unused_token_id == 0 {
                    r == Err::<Vec<Transfer>, ContractError>(ContractError::NotMinted {}) && *final(self) == *old(self)
                } else {
                    match payment_error(sel, paid, old(self).sold@) {
                        Some(e) => r == Err::<Vec<Transfer>, ContractError>(e) && *final(self) == *old(self),
                        None => {
                            let id = sel.unwrap().0;
                            &&& r is Ok
                            &&& transfers_view(r.unwrap()@) == seq![
                                TransferModel::Nft { token_id: id, recipient: to },
                                TransferModel::Native { recipient: cfg.owner@, denom: cfg.native_denom@, amount: paid },
                            ]
                            &&& final(self).sold@ == old(self).sold@.insert(id)
                            &&& final(self).config == (Config {
                                sold_cnt: (cfg.sold_cnt + 2) as u32,
                                ..cfg
                            })
                            &&& final(self).prices == old(self).prices
                            &&& final(self).claimed == old(self).claimed
                            &&& final(self).stage == old(self).stage
                            &&& final(self).stage_start == old(self).stage_start
                        },
                    }
                }
            }),
    {
        if self.config.airdrop || !self.config.pay_native {
            return Err(ContractError::NotSupported {});
        }
        if self.config.unused_token_id == 0 {
            return Err(ContractError::NotMinted {});
        }
        let paid = last_coin_of(funds, &self.config.native_denom);
        let mover_owns = *token_owner == *sender;
        let (id, price) = self.select(token_id, !is_buy, mover_owns, now)?;
        if paid < price {
            return Err(ContractError::InsufficientFund {});
        }
        if self.sold.contains(id) {
            return Err(ContractError::AlreadySold {});
        }
        let to = if is_buy { sender.clone() } else { recipient.unwrap() };
        self.sold.insert(id);
        self.config.sold_cnt = self.config.sold_cnt + 2;
        let mut out: Vec<Transfer> = Vec::new();
        out.push(Transfer::Nft { token_id: id, recipient: to });
        out.push(Transfer::Native {
            recipient: self.config.owner.clone(),
            denom: self.config.native_denom.clone(),
            amount: paid,
        });
        assert(transfers_view(out@) =~= seq![
            TransferModel::Nft { token_id: id, recipient: if is_buy { sender@ } else { recipient.unwrap()@ } },
            TransferModel::Native { recipient: old(self).config.owner@, denom: old(self).config.native_denom@, amount: paid },
        ]);
        Ok(out)
    }

    /// Registers the airdrop root (owner only, airdrop presales only). The
    /// root must be 32 bytes in hexadecimal; without an expiration the stage
    /// never expires; a start replaces the previous one only when given. The
    /// claimed count starts over.
    pub fn register_merkle_root(
        &mut self,
        sender: &String,
        root: String,
        expiration: Option<Expiration>,
        start: Option<Scheduled>,
    ) -> (r: Result<(), ContractError>)
        ensures
            final(self).config == old(self).config,
            final(self).prices == old(self).prices,
            final(self).sold == old(self).sold,
            final(self).claimed == old(self).claimed,
            sender@ != old(self).config.owner@ || !old(self).config.airdrop ==> r == Err::<(), ContractError>(
                ContractError::Unauthorized {}) && *final(self) == *old(self),
            sender@ == old(self).config.owner@ && old(self).config.airdrop && !is_hex32(encode_utf8_of(root@)) ==> r
                == Err::<(), ContractError>(ContractError::InvalidHex {}) && *final(self) == *old(self),
            sender@ == old(self).config.owner@ && old(self).config.airdrop && is_hex32(encode_utf8_of(root@)) ==> {
                &&& r is Ok
                &&& final(self).stage == Some(MerkleStage {
                    root,
                    expiration: match expiration {
                        Some(e) => e,
                        None => Expiration::Never,
                    },
                    claimed_amount: 0,
                })
                &&& final(self).stage_start == if start.is_some() { start } else { old(self).stage_start }
            },
    {
        if *sender != self.config.owner || !self.config.airdrop {
            return Err(ContractError::Unauthorized {});
        }
        if decode_hex32(root.as_str()).is_none() {
            return Err(ContractError::InvalidHex {});
        }
        let exp = match expiration {
            Some(e) => e,
            None => Expiration::Never,
        };
        self.stage = Some(MerkleStage { root, expiration: exp, claimed_amount: 0 });
        if start.is_some() {
            self.stage_start = start;
        }
        Ok(())
    }

    /// Claims a random unsold token for `sender` with a Merkle `proof` of
    /// their place in the registered tree, in the block `block`.
    pub fn claim(&mut self, sender: &String, proof: &Vec<String>, block: BlockInfo) -> (r: Result<
        Vec<Transfer>,
        ContractError,
    >)
        requires
            old(self).config.sold_cnt < u32::MAX,
        ensures
            match claim_gate(old(self).config, old(self).stage_start, old(self).stage, old(self).claimed@, sender@, block) {
                Some(e) => r == Err::<Vec<Transfer>, ContractError>(e) && *final(self) == *old(self),
                None => {
                    let stage = old(self).stage.unwrap();
                    let texts = proof@.map_values(|p: String| encode_utf8_of(p@));
                    let pick = random_pick(
                        old(self).sold@,
                        old(self).config.unused_token_id,
                        block.time / NANOS_PER_SECOND,
                    );
                    if !proof_is_hex(texts) || !is_hex32(encode_utf8_of(stage.root@)) {
                        r == Err::<Vec<Transfer>, ContractError>(ContractError::InvalidHex {}) && *final(self)
                            == *old(self)
                    } else if !proof_matches(sender@, proof@, stage.root@) {
                        r == Err::<Vec<Transfer>, ContractError>(ContractError::VerificationFailed {}) && *final(self)
                            == *old(self)
                    } else if stage.claimed_amount >= old(self).config.unused_token_id {
                        r == Err::<Vec<Transfer>, ContractError>(ContractError::AlreadySold {}) && *final(self)
                            == *old(self)
                    } else if pick.is_none() {
                        r == Err::<Vec<Transfer>, ContractError>(ContractError::SoldOut {}) && *final(self) == *old(self)
                    } else if old(self).sold@.contains(pick.unwrap()) {
                        r == Err::<Vec<Transfer>, ContractError>(ContractError::AlreadySold {}) && *final(self)
                            == *old(self)
                    } else {
                        &&& r is Ok
                        &&& transfers_view(r.unwrap()@) == seq![
                            TransferModel::Nft { token_id: pick.unwrap(), recipient: sender@ },
                        ]
                        &&& final(self).claimed@ == old(self).claimed@.insert(sender@)
                        &&& final(self).stage == Some(MerkleStage {
                            claimed_amount: (stage.claimed_amount + 1) as u32,
                            ..stage
                        })
                        &&& final(self).sold@ == old(self).sold@.insert(pick.unwrap())
                        &&& final(self).config == (Config {
                            sold_cnt: (old(self).config.sold_cnt + 1) as u32,
                            ..old(self).config
                        })
                        &&& final(self).prices == old(self).prices
                        &&& final(self).stage_start == old(self).stage_start
                    }
                },
            },
    {
        if !self.config.airdrop {
            return Err(ContractError::NotSupported {});
        }
        if self.config.unused_token_id == 0 {
            return Err(ContractError::NotMinted {});
        }
        if let Some(start) = self.stage_start {
            if !start.is_triggered(&block) {
                return Err(ContractError::StageNotBegun { stage: MERKLE_STAGE, start });
            }
        }
        let (root, expiration, claimed_amount) = match &self.stage {
            None => { return Err(ContractError::NotFound {}); },
            Some(st) => (st.root.clone(), st.expiration, st.claimed_amount),
        };
        if expiration.is_expired(&block) {
            return Err(ContractError::StageExpired { stage: MERKLE_STAGE, expiration });
        }
        if self.claimed.contains(sender) {
            return Err(ContractError::Claimed {});
        }
        let ok = verify_claim(sender, proof, &root)?;
        if !ok {
            return Err(ContractError::VerificationFailed {});
        }
        if claimed_amount >= self.config.unused_token_id {
            return Err(ContractError::AlreadySold {});
        }
        let id = self.get_rand_sell_id(block.time / NANOS_PER_SECOND)?;
        if self.sold.contains(id) {
            return Err(ContractError::AlreadySold {});
        }
        self.claimed.insert(sender.clone());
        self.stage = Some(MerkleStage { root, expiration, claimed_amount: claimed_amount + 1 });
        self.sold.insert(id);
        self.config.sold_cnt = self.config.sold_cnt + 1;
        let mut out: Vec<Transfer> = Vec::new();
        out.push(Transfer::Nft { token_id: id, recipient: sender.clone() });
        assert(transfers_view(out@) =~= seq![TransferModel::Nft { token_id: id, recipient: sender@ }]);
        Ok(out)
    }
}

} // verus!
