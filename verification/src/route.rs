use vstd::prelude::*;
use crate::digest::{sha3_256, sha3_256_of};
use crate::hex::{hex_lower, hex_lower_spec, is_lower_hex_text};

verus! {

/// The code with which the routing service reports success.
pub const OSRM_OK_CODE: &'static str = "Ok";

/// Why the routing service found no route, or `None` when it reported
/// success: the service's message when it sent one, else its code.
pub open spec fn osrm_failure_spec(code: Seq<char>, message: Option<Seq<char>>) -> Option<Seq<char>> {
    if code == OSRM_OK_CODE@ {
        None
    } else {
        match message {
            Some(m) => Some(m),
            None => Some(code),
        }
    }
}

/// Checks the status of a routing service answer.
pub fn osrm_failure(code: String, message: Option<String>) -> (res: Option<String>)
    ensures
        match res {
            Some(r) => osrm_failure_spec(
                code@,
                match message {
                    Some(m) => Some(m@),
                    None => None,
                },
            ) == Some(r@),
            None => osrm_failure_spec(
                code@,
                match message {
                    Some(m) => Some(m@),
                    None => None,
                },
            ) is None,
        },
{
    let ok = String::from_str(OSRM_OK_CODE);
    if code.eq(&ok) {
        None
    } else {
        match message {
            Some(m) => Some(m),
            None => Some(code),
        }
    }
}

/// The key under which the routes through some waypoints are stored: the
/// lowercase hexadecimal SHA3-256 of the waypoints' bytes.
pub open spec fn route_hash_spec(waypoint_bytes: Seq<u8>) -> Seq<char> {
    hex_lower_spec(sha3_256_of(waypoint_bytes))
}

/// The key under which the routes through the waypoints whose in-memory
/// bytes (two coordinates of eight bytes each per waypoint) are given.
pub fn route_hash(waypoint_bytes: &[u8]) -> (res: String)
    ensures
        res@ == route_hash_spec(waypoint_bytes@),
        res@.len() == 64,
        is_lower_hex_text(res@),
{
    let digest = sha3_256(waypoint_bytes);
    proof {
        crate::hex::lemma_hex_lower_len(digest@);
        crate::hex::lemma_hex_lower_digits(digest@);
    }
    hex_lower(digest.as_slice())
}

/// Two waypoint lists share a stored key only when their digests are equal.
pub proof fn lemma_route_hash_is_digest(a: Seq<u8>, b: Seq<u8>)
    requires
        route_hash_spec(a) == route_hash_spec(b),
    ensures
        sha3_256_of(a) == sha3_256_of(b),
{
    crate::hex::lemma_hex_lower_injective(sha3_256_of(a), sha3_256_of(b));
}

} // verus!
