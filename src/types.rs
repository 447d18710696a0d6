//! Data shared by the sale ledger, settlement and presale logic.
use vstd::prelude::*;

verus! {

/// How a sale picks its winner.
#[derive(Clone, Copy, Debug, PartialEq, Eq, Structural)]
pub enum SaleType {
    /// The first request at or above the initial price wins.
    Fixed,
    /// Each request must beat the last one; the last request wins.
    Auction,
    /// Any price is accepted; the highest (earliest among equals) wins.
    Offer,
}

/// A window of block times, in seconds.
#[derive(Clone, Copy, Debug, PartialEq, Eq, Structural)]
pub struct TimeDuration {
    pub start: u64,
    pub end: u64,
}

/// When a sale stops taking requests and may be settled.
#[derive(Clone, Copy, Debug, PartialEq, Eq, Structural)]
pub enum DurationType {
    /// Open until settled.
    Fixed,
    /// Requests up to and including this block time (seconds); settlement from it on.
    Time(u64),
    /// Closes once this many requests have been made.
    Bid(u32),
}

/// A bid or offer on a sale.
#[derive(Clone, Debug, PartialEq, Eq)]
pub struct Request {
    pub address: String,
    pub price: u128,
}

/// The mathematical content of a [`Request`].
pub struct RequestModel {
    pub address: Seq<char>,
    pub price: u128,
}

impl View for Request {
    type V = RequestModel;

    open spec fn view(&self) -> RequestModel {
        RequestModel { address: self.address@, price: self.price }
    }
}

impl Request {
    /// A copy of this request.
    pub fn duplicate(&self) -> (r: Request)
        ensures
            r@ == self@,
    {
        Request { address: self.address.clone(), price: self.price }
    }
}

/// One listed token and the requests made on it, in submission order.
#[derive(Clone, Debug, PartialEq, Eq)]
pub struct SaleInfo {
    pub token_id: u32,
    pub provider: String,
    pub sale_type: SaleType,
    pub duration_type: DurationType,
    pub initial_price: u128,
    pub royalty: u32,
    pub requests: Vec<Request>,
    pub sell_index: u32,
}

/// The mathematical content of a [`SaleInfo`].
pub struct SaleModel {
    pub token_id: u32,
    pub provider: Seq<char>,
    pub sale_type: SaleType,
    pub duration_type: DurationType,
    pub initial_price: u128,
    pub royalty: u32,
    pub requests: Seq<RequestModel>,
    pub sell_index: u32,
}

impl View for SaleInfo {
    type V = SaleModel;

    open spec fn view(&self) -> SaleModel {
        SaleModel {
            token_id: self.token_id,
            provider: self.provider@,
            sale_type: self.sale_type,
            duration_type: self.duration_type,
            initial_price: self.initial_price,
            royalty: self.royalty,
            requests: self.requests@.map_values(|q: Request| q@),
            sell_index: self.sell_index,
        }
    }
}

impl SaleInfo {
    /// A copy of this sale.
    pub fn duplicate(&self) -> (r: SaleInfo)
        ensures
            r@ == self@,
    {
        let mut requests: Vec<Request> = Vec::new();
        let n = self.requests.len();
        let mut i: usize = 0;
        while i < n
            invariant
                n == self.requests@.len(),
                i <= n,
                requests@.len() == i,
                forall|j: int| 0 <= j < i ==> #[trigger] requests@[j]@ == self.requests@[j]@,
            decreases n - i,
        {
            requests.push(self.requests[i].duplicate());
            i = i + 1;
        }
        let r = SaleInfo {
            token_id: self.token_id,
            provider: self.provider.clone(),
            sale_type: self.sale_type,
            duration_type: self.duration_type,
            initial_price: self.initial_price,
            royalty: self.royalty,
            requests,
            sell_index: self.sell_index,
        };
        assert(r@.requests =~= self@.requests);
        r
    }
}

/// A payee and the rate it is paid at.
#[derive(Clone, Debug, PartialEq, Eq)]
pub struct Royalty {
    pub address: String,
    pub rate: u32,
}

/// A payment asset: a native coin by denomination, or a fungible token by contract address.
#[derive(Clone, Debug, PartialEq, Eq)]
pub enum Asset {
    Native(String),
    Cw20(String),
}

/// An amount of a native coin.
#[derive(Clone, Debug, PartialEq, Eq)]
pub struct Coin {
    pub denom: String,
    pub amount: u128,
}

/// An outbound instruction for the host to execute after the call.
#[derive(Clone, Debug, PartialEq, Eq)]
pub enum Transfer {
    /// Move custody of a token into this contract.
    Custody { token_id: u32 },
    /// Hand a token to `recipient`.
    Nft { token_id: u32, recipient: String },
    /// Pay `amount` of the settlement token to `recipient`.
    Token { recipient: String, amount: u128 },
    /// Pay `amount` of a native coin to `recipient`.
    Native { recipient: String, denom: String, amount: u128 },
}

/// The mathematical content of a [`Transfer`].
pub enum TransferModel {
    Custody { token_id: u32 },
    Nft { token_id: u32, recipient: Seq<char> },
    Token { recipient: Seq<char>, amount: u128 },
    Native { recipient: Seq<char>, denom: Seq<char>, amount: u128 },
}

impl View for Transfer {
    type V = TransferModel;

    open spec fn view(&self) -> TransferModel {
        match self {
            Transfer::Custody { token_id } => TransferModel::Custody { token_id: *token_id },
            Transfer::Nft { token_id, recipient } => TransferModel::Nft { token_id: *token_id, recipient: recipient@ },
            Transfer::Token { recipient, amount } => TransferModel::Token { recipient: recipient@, amount: *amount },
            Transfer::Native { recipient, denom, amount } => TransferModel::Native {
                recipient: recipient@,
                denom: denom@,
                amount: *amount,
            },
        }
    }
}

/// The views of a list of transfers.
pub open spec fn transfers_view(v: Seq<Transfer>) -> Seq<TransferModel> {
    v.map_values(|t: Transfer| t@)
}

/// A point after which something is over (block height, or time in nanoseconds).
#[derive(Clone, Copy, Debug, PartialEq, Eq, Structural)]
pub enum Expiration {
    AtHeight(u64),
    AtTime(u64),
    Never,
}

/// A point at which something begins (block height, or time in nanoseconds).
#[derive(Clone, Copy, Debug, PartialEq, Eq, Structural)]
pub enum Scheduled {
    AtHeight(u64),
    AtTime(u64),
}

/// The block a call runs in.
#[derive(Clone, Copy, Debug, PartialEq, Eq, Structural)]
pub struct BlockInfo {
    pub height: u64,
    /// Nanoseconds.
    pub time: u64,
}

impl Expiration {
    pub open spec fn spec_is_expired(&self, block: BlockInfo) -> bool {
        match *self {
            Expiration::AtHeight(h) => block.height >= h,
            Expiration::AtTime(t) => block.time >= t,
            Expiration::Never => false,
        }
    }

    /// Whether `block` is at or past the expiration.
    pub fn is_expired(&self, block: &BlockInfo) -> (r: bool)
        ensures
            r == self.spec_is_expired(*block),
    {
        match *self {
            Expiration::AtHeight(h) => block.height >= h,
            Expiration::AtTime(t) => block.time >= t,
            Expiration::Never => false,
        }
    }
}

impl Scheduled {
    pub open spec fn spec_is_triggered(&self, block: BlockInfo) -> bool {
        match *self {
            Scheduled::AtHeight(h) => block.height >= h,
            Scheduled::AtTime(t) => block.time >= t,
        }
    }

    /// Whether `block` is at or past the scheduled point.
    pub fn is_triggered(&self, block: &BlockInfo) -> (r: bool)
        ensures
            r == self.spec_is_triggered(*block),
    {
        match *self {
            Scheduled::AtHeight(h) => block.height >= h,
            Scheduled::AtTime(t) => block.time >= t,
        }
    }
}

/// Everything that can make an operation fail.
#[derive(Clone, Debug, PartialEq, Eq)]
pub enum ContractError {
    Unauthorized {},
    Disabled {},
    NotSupported {},
    NotMinted {},
    InvalidCw20Token {},
    InvalidMaxTokens {},
    MaxTokensExceed {},
    SoldOut {},
    Uninitialized {},
    CountNotMatch {},
    WrongLength {},
    InvalidTokenReplyId {},
    Cw721AlreadyLinked {},
    IncorrectFunds {},
    VerificationFailed {},
    InvalidHex {},
    CannotMigrate { previous_contract: String },
    StageExpired { stage: u8, expiration: Expiration },
    StageNotBegun { stage: u8, start: Scheduled },
    InsufficientFund {},
    AlreadySold {},
    Claimed {},
    AlreadyOnSale {},
    NotOnSale {},
    CannotEditOnSale {},
    AlreadyExpired {},
    NotExpired {},
    AlreadyFinished {},
    LowerThanPrevious {},
    InvalidSaleType {},
    InvalidBuyParam {},
    InvalidUserOrPrice {},
    InvalidRoyalty {},
    Overflow {},
    NotFound {},
}

/// Migration carries no data.
#[derive(Clone, Copy, Debug, PartialEq, Eq, Structural)]
pub struct MigrateMsg {}

/// Whether an address has claimed its airdrop.
#[derive(Clone, Copy, Debug, PartialEq, Eq, Structural)]
pub struct IsClaimedResponse {
    pub is_claimed: bool,
}

/// The price of one token.
#[derive(Clone, Copy, Debug, PartialEq, Eq, Structural)]
pub struct PriceInfo {
    pub token_id: u32,
    pub price: u128,
}

/// A page of sales.
#[derive(Clone, Debug, PartialEq, Eq)]
pub struct SalesResponse {
    pub list: Vec<SaleInfo>,
}

/// Prices of the tokens asked about.
#[derive(Clone, Debug, PartialEq, Eq)]
pub struct PriceListResponse {
    pub prices: Vec<PriceInfo>,
}

} // verus!
