//! The request that asks the token-grant service for tokens.

use vstd::prelude::*;
use crate::endpoint::SocketAddress;
use crate::keys::PublicKey;

verus! {

/// What the token-grant service is asked: to credit `client_public_key`
/// with `airdrop_request_amount` tokens.
#[derive(Clone, Copy, Debug, PartialEq, Eq)]
pub enum DroneRequest {
    GetAirdrop { airdrop_request_amount: u64, client_public_key: PublicKey },
}

/// One request, and the address of the service to write it to. Each request
/// goes over a connection of its own, and nothing is read back.
#[derive(Clone, Copy, Debug, PartialEq, Eq)]
pub struct AirdropDelivery {
    pub drone_addr: SocketAddress,
    pub request: DroneRequest,
}

/// The amount that the service is asked for when the command says `tokens`:
/// the same number where it is not negative, and otherwise the number that
/// the same 64 bits write without a sign.
pub open spec fn unsigned_amount(tokens: int) -> int {
    if tokens >= 0 {
        tokens
    } else {
        tokens + 0x1_0000_0000_0000_0000
    }
}

/// The amount that the service is asked for when the command says `tokens`.
/// Nothing is turned down here: a negative amount keeps its bits.
pub fn airdrop_amount(tokens: i64) -> (amount: u64)
    ensures
        amount == unsigned_amount(tokens as int),
{
    if tokens >= 0 {
        tokens as u64
    } else {
        let above_least: u64 = (tokens - i64::MIN) as u64;
        above_least + 0x8000_0000_0000_0000u64
    }
}

/// The request for `tokens` tokens for the holder of `id`, to be written to
/// the service at `drone_addr`.
pub fn request_airdrop(drone_addr: &SocketAddress, id: &PublicKey, tokens: u64) -> (delivery:
    AirdropDelivery)
    ensures
        delivery == (AirdropDelivery {
            drone_addr: *drone_addr,
            request: DroneRequest::GetAirdrop {
                airdrop_request_amount: tokens,
                client_public_key: *id,
            },
        }),
{
    AirdropDelivery {
        drone_addr: *drone_addr,
        request: DroneRequest::GetAirdrop {
            airdrop_request_amount: tokens,
            client_public_key: *id,
        },
    }
}

} // verus!
