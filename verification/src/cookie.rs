//! The connection cookie: a value derived from the requester's address
//! that the requester has to echo before a session is set up.

use crate::address::{address_bytes, Address};
use std::collections::hash_map::DefaultHasher;
use std::hash::Hasher;
use vstd::prelude::*;
use vstd::std_specs::hash::DefaultHasherAdditionalSpecFns;

verus! {

/// The cookie that belongs to an address: the default hasher's digest of
/// the address's bytes, cut down to its low 32 bits.
///
/// The cookie depends on the address alone.  It carries no secret and no
/// time component, so it shows that a peer has seen the listener's reply
/// and nothing more than that.
pub open spec fn cookie_of(addr: Address) -> i32 {
    DefaultHasher::spec_finish(seq![address_bytes(addr)]) as i32
}

/// Computes the cookie for `addr`.
///
/// Two calls with equal addresses return equal cookies.
pub fn cookie(addr: &Address) -> (c: i32)
    ensures
        c == cookie_of(*addr),
{
    let bytes = addr.to_bytes();
    let mut hasher = DefaultHasher::new();
    hasher.write(bytes.as_slice());
    assert(hasher@ =~= seq![address_bytes(*addr)]);
    let digest: u64 = hasher.finish();
    #[verifier::truncate]
    (digest as i32)
}

} // verus!
