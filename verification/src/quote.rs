//! Price quoting, the first half of the business collaborator consumed by
//! the guest.

use vstd::prelude::*;
use vstd::string::StringExecFns;

verus! {

/// One line of a quoted cart.
#[derive(Debug)]
pub struct CartItem {
    pub product_id: String,
    pub quantity: i32,
}

/// A cost split into whole dollars and cents.
#[derive(Debug)]
pub struct Quote {
    pub dollars: i64,
    pub cents: i32,
}

/// An amount of money in a named currency, with the fractional part carried
/// in nanoseconds of a unit (billionths).
#[derive(Debug)]
pub struct Money {
    pub currency_code: String,
    pub units: i64,
    pub nanos: i32,
}

/// The quoting reply: the shipping cost in US dollars.
#[derive(Debug)]
pub struct GetQuoteResponse {
    pub cost_usd: Option<Money>,
}

/// Factor from cents to the billionths carried in [`Money::nanos`].
pub const NANOS_MULTIPLE: u32 = 10000000;

/// The total number of items in a cart, each signed wire quantity
/// reinterpreted as an unsigned count.
pub open spec fn sum_quantities(items: Seq<CartItem>) -> int
    decreases items.len(),
{
    if items.len() == 0 {
        0
    } else {
        sum_quantities(items.drop_last()) + (items.last().quantity as u32)
    }
}

proof fn lemma_sum_prefix_le(items: Seq<CartItem>, j: int)
    requires
        0 <= j <= items.len(),
    ensures
        sum_quantities(items.take(j)) <= sum_quantities(items),
    decreases items.len() - j,
{
    if j < items.len() {
        assert(items.take(j + 1).drop_last() =~= items.take(j));
        assert(items.take(j + 1).last() == items[j]);
        lemma_sum_prefix_le(items, j + 1);
    } else {
        assert(items.take(j) =~= items);
    }
}

/// Count the items of a cart.
pub fn item_count(items: &Vec<CartItem>) -> (n: u32)
    requires
        sum_quantities(items@) <= u32::MAX,
    ensures
        n == sum_quantities(items@),
{
    let mut n: u32 = 0;
    let mut i: usize = 0;
    while i < items.len()
        invariant
            i <= items@.len(),
            n == sum_quantities(items@.take(i as int)),
            sum_quantities(items@) <= u32::MAX,
        decreases items@.len() - i,
    {
        proof {
            assert(items@.take(i + 1).drop_last() =~= items@.take(i as int));
            assert(items@.take(i + 1).last() == items@[i as int]);
            lemma_sum_prefix_le(items@, i + 1);
        }
        n = n + (items[i].quantity as u32);
        i = i + 1;
    }
    proof {
        assert(items@.take(items@.len() as int) =~= items@);
    }
    n
}

/// The quoted shipping cost for a cart of `_count` items.
///
/// The cost is currently a fixed 8 dollars and 99 cents, independent of the
/// item count: the count is accepted but not consulted.
pub fn create_quote_from_count(_count: u32) -> (q: Quote)
    ensures
        q.dollars == 8,
        q.cents == 99,
{
    Quote { dollars: 8, cents: 99 }
}

/// Quote a cart: total the items, price them, and package the cost as US
/// dollars on the wire representation.
pub fn get_quote(items: &Vec<CartItem>) -> (resp: GetQuoteResponse)
    requires
        sum_quantities(items@) <= u32::MAX,
    ensures
        resp.cost_usd matches Some(cost) && cost.units == 8 && cost.nanos == 990000000
            && cost.currency_code@ == "USD"@,
{
    let count = item_count(items);
    let quote = create_quote_from_count(count);
    GetQuoteResponse {
        cost_usd: Some(
            Money {
                currency_code: String::from_str("USD"),
                units: quote.dollars,
                nanos: quote.cents * NANOS_MULTIPLE as i32,
            },
        ),
    }
}

} // verus!
