//! Fixed-point royalty arithmetic.
use vstd::prelude::*;

verus! {

/// Scale of the fine-grained royalty rates: one part in a million.
pub const RATE_SCALE: u32 = 1000000;

/// Scale of the coarse royalty rates: percent.
pub const PERCENT_SCALE: u32 = 100;

/// Share of every settlement taken as the protocol fee (2.5%).
pub const PROTOCOL_FEE_RATE: u32 = 25000;

/// `total * rate / scale`, rounded down, as an exact integer.
pub open spec fn share(total: int, rate: int, scale: int) -> int {
    total * rate / scale
}

/// How a settlement amount is divided among the four payees.
#[derive(Clone, Copy, Debug, PartialEq, Eq)]
pub struct Split {
    pub protocol: u128,
    pub seller: u128,
    pub collection: u128,
    pub remainder: u128,
}

/// The amounts of the three rate-based legs, before the remainder.
pub open spec fn legs_sum(total: int, protocol_rate: int, seller_rate: int, collection_rate: int) -> int {
    share(total, protocol_rate, RATE_SCALE as int) + share(total, seller_rate, RATE_SCALE as int)
        + share(total, collection_rate, RATE_SCALE as int)
}

/// Whether the three rate-based legs fit in the total.
pub open spec fn split_fits(total: int, protocol_rate: int, seller_rate: int, collection_rate: int) -> bool {
    legs_sum(total, protocol_rate, seller_rate, collection_rate) <= total
}

/// `total * rate / scale` rounded down, or `None` when that exceeds `u128`.
/// The product is never formed, so large totals do not overflow.
pub fn mul_div_floor(total: u128, rate: u32, scale: u32) -> (r: Option<u128>)
    requires
        scale > 0,
    ensures
        r.is_some() <==> share(total as int, rate as int, scale as int) <= u128::MAX,
        r.is_some() ==> r.unwrap() == share(total as int, rate as int, scale as int),
{
    let q: u128 = total / (scale as u128);
    let rem: u128 = total % (scale as u128);
    assert(rem * rate <= u64::MAX) by (nonlinear_arith)
        requires rem < scale, scale <= u32::MAX, rate <= u32::MAX;
    let low: u128 = rem * (rate as u128) / (scale as u128);
    proof {
        let t = total as int;
        let s = scale as int;
        let x = rem as int * rate as int;
        let y = x / s;
        let z = x % s;
        assert(t == q as int * s + rem as int) by {
            vstd::arithmetic::div_mod::lemma_fundamental_div_mod(t, s);
        }
        assert(x == y * s + z && 0 <= z < s) by {
            vstd::arithmetic::div_mod::lemma_fundamental_div_mod(x, s);
        }
        assert(t * rate as int == (q as int * rate as int + y) * s + z) by (nonlinear_arith)
            requires t == q as int * s + rem as int, x == rem as int * rate as int, x == y * s + z;
        vstd::arithmetic::div_mod::lemma_fundamental_div_mod_converse(
            t * rate as int, s, q as int * rate as int + y, z);
        assert(q as int * rate as int >= 0) by (nonlinear_arith)
            requires q >= 0, rate >= 0;
        assert(y >= 0) by {
            vstd::arithmetic::div_mod::lemma_div_pos_is_pos(x, s);
        }
    }
    match q.checked_mul(rate as u128) {
        None => None,
        Some(high) => high.checked_add(low),
    }
}

/// Divides `total` among the protocol, the seller, the collection owner and
/// the remainder. Each rate-based leg is `total * rate / RATE_SCALE` rounded
/// down; the remainder absorbs what is left. `None` when the three legs
/// together exceed `total`.
pub fn split(total: u128, protocol_rate: u32, seller_rate: u32, collection_rate: u32) -> (r: Option<Split>)
    ensures
        r.is_some() <==> split_fits(total as int, protocol_rate as int, seller_rate as int, collection_rate as int),
        r.is_some() ==> {
            let s = r.unwrap();
            &&& s.protocol == share(total as int, protocol_rate as int, RATE_SCALE as int)
            &&& s.seller == share(total as int, seller_rate as int, RATE_SCALE as int)
            &&& s.collection == share(total as int, collection_rate as int, RATE_SCALE as int)
            &&& s.remainder == total - s.protocol - s.seller - s.collection
        },
{
    let p = mul_div_floor(total, protocol_rate, RATE_SCALE);
    let s = mul_div_floor(total, seller_rate, RATE_SCALE);
    let c = mul_div_floor(total, collection_rate, RATE_SCALE);
    proof {
        assert(share(total as int, protocol_rate as int, RATE_SCALE as int) >= 0) by (nonlinear_arith);
        assert(share(total as int, seller_rate as int, RATE_SCALE as int) >= 0) by (nonlinear_arith);
        assert(share(total as int, collection_rate as int, RATE_SCALE as int) >= 0) by (nonlinear_arith);
    }
    match (p, s, c) {
        (Some(p), Some(s), Some(c)) => {
            if p <= total && s <= total - p && c <= total - p - s {
                Some(Split { protocol: p, seller: s, collection: c, remainder: total - p - s - c })
            } else {
                None
            }
        },
        _ => None,
    }
}

/// `amount * rate / PERCENT_SCALE` rounded down, or `None` when that exceeds `u128`.
pub fn percent_of(amount: u128, rate: u32) -> (r: Option<u128>)
    ensures
        r.is_some() <==> share(amount as int, rate as int, PERCENT_SCALE as int) <= u128::MAX,
        r.is_some() ==> r.unwrap() == share(amount as int, rate as int, PERCENT_SCALE as int),
{
    mul_div_floor(amount, rate, PERCENT_SCALE)
}

/// Whenever the three rates together do not exceed the scale, the split
/// exists for every total (zero included): its three rate-based legs and the
/// remainder are all non-negative and add up to the total exactly.
pub proof fn lemma_split_conserves(total: u128, protocol_rate: u32, seller_rate: u32, collection_rate: u32)
    requires
        protocol_rate + seller_rate + collection_rate <= RATE_SCALE,
    ensures
        split_fits(total as int, protocol_rate as int, seller_rate as int, collection_rate as int),
        ({
            let p = share(total as int, protocol_rate as int, RATE_SCALE as int);
            let s = share(total as int, seller_rate as int, RATE_SCALE as int);
            let c = share(total as int, collection_rate as int, RATE_SCALE as int);
            let rem = total - p - s - c;
            &&& p >= 0 && s >= 0 && c >= 0 && rem >= 0
            &&& p + s + c + rem == total
        }),
{
    let t = total as int;
    let sc = RATE_SCALE as int;
    let (a, b, c) = (protocol_rate as int, seller_rate as int, collection_rate as int);
    assert(t * a / sc + t * b / sc + t * c / sc <= t) by (nonlinear_arith)
        requires t >= 0, a >= 0, b >= 0, c >= 0, a + b + c <= sc, sc > 0;
    assert(t * a / sc >= 0 && t * b / sc >= 0 && t * c / sc >= 0) by (nonlinear_arith)
        requires t >= 0, a >= 0, b >= 0, c >= 0, sc > 0;
}

} // verus!
