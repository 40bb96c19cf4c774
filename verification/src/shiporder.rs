//! Order shipment: validate the destination and hand out a tracking
//! identifier.

use vstd::prelude::*;
use vstd::string::StringExecFns;

use crate::quote::CartItem;
use crate::tracking::TrackingStrategy;
use crate::tracking::create_random_tracking_id;
use crate::tracking::create_tracking_id;
use crate::tracking::is_random_tracking_id;

verus! {

/// A shipping destination.
#[derive(Debug)]
pub struct Address {
    pub street_address: String,
    pub city: String,
    pub state: String,
    pub country: String,
    pub zip_code: i32,
}

/// An order to ship: a destination, if one was given, and the cart.
#[derive(Debug)]
pub struct ShipOrderRequest {
    pub address: Option<Address>,
    pub items: Vec<CartItem>,
}

/// The shipment reply: the tracking identifier of the new shipment.
#[derive(Debug)]
pub struct ShipOrderResponse {
    pub tracking_id: String,
}

/// The failures the shipping collaborator signals to its caller.
#[derive(Debug, Clone, Copy, PartialEq, Eq, Structural)]
pub enum ShippingError {
    /// A required part of the request was absent.
    InvalidArgument,
}

impl ShippingError {
    /// The message reported with this failure.
    pub fn message(&self) -> (m: String)
        ensures
            *self is InvalidArgument ==> m@ == "Address is required"@,
    {
        match self {
            ShippingError::InvalidArgument => String::from_str("Address is required"),
        }
    }
}

/// The salt a shipment's tracking identifier is drawn from: street, city and
/// state, comma-separated.
pub open spec fn base_address_spec(a: Address) -> Seq<char> {
    a.street_address@ + ", "@ + a.city@ + ", "@ + a.state@
}

/// Join street, city and state into the tracking salt.
pub fn base_address(a: &Address) -> (s: String)
    ensures
        s@ == base_address_spec(*a),
{
    let mut s = a.street_address.clone();
    s.append(", ");
    s.append(a.city.as_str());
    s.append(", ");
    s.append(a.state.as_str());
    s
}

/// What the tracking identifier of a shipped order looks like under each
/// strategy, for the salt the order's address yields.
pub open spec fn tracking_matches(
    strategy: TrackingStrategy,
    id: Seq<char>,
    salt: Seq<char>,
) -> bool {
    match strategy {
        TrackingStrategy::Fixed => id == "AB-25123-121234567"@,
        TrackingStrategy::Randomized => is_random_tracking_id(id, salt.len()),
    }
}

/// Ship an order. A request without an address is refused with
/// `InvalidArgument` before any tracking identifier is computed; any request
/// with an address succeeds, carrying an identifier of the chosen strategy.
pub fn ship_order(req: &ShipOrderRequest, strategy: TrackingStrategy) -> (r: Result<
    ShipOrderResponse,
    ShippingError,
>)
    ensures
        r is Ok <==> req.address is Some,
        r is Err ==> r == Err::<ShipOrderResponse, ShippingError>(ShippingError::InvalidArgument),
        req.address matches Some(a) ==> (r matches Ok(resp) && tracking_matches(
            strategy,
            resp.tracking_id@,
            base_address_spec(a),
        )),
{
    match &req.address {
        None => Err(ShippingError::InvalidArgument),
        Some(addr) => {
            let salt = base_address(addr);
            let tid = match strategy {
                TrackingStrategy::Fixed => create_tracking_id(salt.as_str()),
                TrackingStrategy::Randomized => create_random_tracking_id(salt.as_str()),
            };
            Ok(ShipOrderResponse { tracking_id: tid })
        },
    }
}

} // verus!
