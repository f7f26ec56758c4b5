//! Turning an oracle reading into a USD price at 10^6 scale, fail-closed.
use vstd::prelude::*;
use pyth_sdk_solana::{Price, PriceFeed, PriceIdentifier};
use crate::math::{pow10, pow10_u128, lemma_pow10_values, lemma_pow10_monotonic, lemma_pow10_positive, PRICE_DECIMALS};
use crate::state::CustomErrorCode;
use vstd::arithmetic::div_mod::lemma_basic_div;
use vstd::arithmetic::mul::lemma_mul_inequality;

verus! {

/// Oldest accepted price update, in seconds either side of the current time.
pub const MAX_PRICE_AGE: u64 = 60;

/// The latest reading of a price feed: `price * 10^expo` USD, published at
/// the Unix time `publish_time`.
#[derive(Clone, Copy, Debug, PartialEq, Eq)]
pub struct PriceQuote {
    pub price: i64,
    pub conf: u64,
    pub expo: i32,
    pub publish_time: i64,
}

/// Distance between two instants, in seconds.
pub open spec fn time_distance(a: i64, b: i64) -> int {
    if a >= b {
        a - b
    } else {
        b - a
    }
}

/// Whether `quote` was published within the freshness window around `now`.
pub open spec fn is_fresh(quote: PriceQuote, now: i64) -> bool {
    time_distance(quote.publish_time, now) <= MAX_PRICE_AGE
}

/// `price * 10^expo` rescaled to 10^6, rounded down.
pub open spec fn normalized_price(price: u64, expo: i32) -> int {
    let e = PRICE_DECIMALS + expo;
    if e >= 0 {
        price * pow10(e as nat)
    } else {
        (price as int) / (pow10((-e) as nat) as int)
    }
}

/// What the valuation service answers for a feed reading (`None`: the feed
/// could not be read) at the time `now`.
pub open spec fn price_outcome(oracle: Option<PriceQuote>, now: i64) -> Result<u64, CustomErrorCode> {
    match oracle {
        None => Err(CustomErrorCode::OracleError),
        Some(q) => if !is_fresh(q, now) {
            Err(CustomErrorCode::OracleStale)
        } else if q.price < 0 {
            Err(CustomErrorCode::OracleInvalid)
        } else if normalized_price(q.price as u64, q.expo) > u64::MAX {
            Err(CustomErrorCode::MathOverflow)
        } else {
            Ok(normalized_price(q.price as u64, q.expo) as u64)
        },
    }
}

/// Relies on `PriceFeed::get_price_no_older_than` of pyth-sdk (re-exported by
/// pyth_sdk_solana): it returns the feed's price unchanged when
/// `|publish_time - current_time| <= age`, else `None`. Its subtraction and
/// `abs` panic outside `i64`, hence the `requires`.
#[verifier::external_body]
fn price_no_older_than(quote: PriceQuote, now: i64, age: u64) -> (r: Option<PriceQuote>)
    requires
        i64::MIN < quote.publish_time - now <= i64::MAX,
    ensures
        r == (if time_distance(quote.publish_time, now) <= age {
            Some(quote)
        } else {
            None::<PriceQuote>
        }),
{
    let price = Price {
        price: quote.price,
        conf: quote.conf,
        expo: quote.expo,
        publish_time: quote.publish_time,
    };
    let feed = PriceFeed::new(PriceIdentifier::default(), price, price);
    match feed.get_price_no_older_than(now, age) {
        Some(p) => Some(PriceQuote { price: p.price, conf: p.conf, expo: p.expo, publish_time: p.publish_time }),
        None => None,
    }
}

/// Rescales `price * 10^expo` to 10^6, failing with `MathOverflow` where the
/// result leaves `u64`.
pub fn normalize_price(price: u64, expo: i32) -> (r: Result<u64, CustomErrorCode>)
    ensures
        normalized_price(price, expo) <= u64::MAX ==> r == Ok::<u64, CustomErrorCode>(
            normalized_price(price, expo) as u64,
        ),
        normalized_price(price, expo) > u64::MAX ==> r == Err::<u64, CustomErrorCode>(
            CustomErrorCode::MathOverflow,
        ),
{
    let e: i64 = PRICE_DECIMALS as i64 + expo as i64;
    if e >= 0 {
        if price == 0 {
            assert(0 * pow10(e as nat) == 0);
            return Ok(0);
        }
        if e > 19 {
            proof {
                lemma_pow10_values();
                lemma_pow10_monotonic(20, e as nat);
                lemma_mul_inequality(1, price as int, pow10(e as nat) as int);
            }
            return Err(CustomErrorCode::MathOverflow);
        }
        let scale = pow10_u128(e as u32);
        proof {
            lemma_pow10_values();
            lemma_pow10_monotonic(e as nat, 19);
        }
        match price.checked_mul(scale as u64) {
            Some(v) => Ok(v),
            None => Err(CustomErrorCode::MathOverflow),
        }
    } else {
        let k: i64 = -e;
        if k > 19 {
            proof {
                lemma_pow10_values();
                lemma_pow10_monotonic(20, k as nat);
                lemma_basic_div(price as int, pow10(k as nat) as int);
            }
            return Ok(0);
        }
        let scale = pow10_u128(k as u32);
        proof {
            lemma_pow10_values();
            lemma_pow10_monotonic(k as nat, 19);
            lemma_pow10_positive(k as nat);
        }
        Ok(price / (scale as u64))
    }
}

/// The price of a feed reading at the time `now`: `OracleError` where the
/// feed could not be read, `OracleStale` where it was not published within
/// `MAX_PRICE_AGE` seconds of `now`, `OracleInvalid` where it is negative,
/// `MathOverflow` where its 10^6-scaled value leaves `u64`.
pub fn get_price(oracle: Option<PriceQuote>, now: i64) -> (r: Result<u64, CustomErrorCode>)
    ensures
        r == price_outcome(oracle, now),
{
    let quote = match oracle {
        None => return Err(CustomErrorCode::OracleError),
        Some(q) => q,
    };
    let diff: i128 = quote.publish_time as i128 - now as i128;
    if diff <= i64::MIN as i128 || diff > i64::MAX as i128 {
        // so far apart that no freshness window can hold them
        return Err(CustomErrorCode::OracleStale);
    }
    let fresh = match price_no_older_than(quote, now, MAX_PRICE_AGE) {
        None => return Err(CustomErrorCode::OracleStale),
        Some(q) => q,
    };
    if fresh.price < 0 {
        return Err(CustomErrorCode::OracleInvalid);
    }
    normalize_price(fresh.price as u64, fresh.expo)
}

} // verus!
