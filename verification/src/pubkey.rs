//! Account addresses.

use vstd::prelude::*;

verus! {

/// An account address.
///
/// The hosting ledger identifies every participant — reward tokens, pools,
/// owners, incentives, lockers — by an address. The engine never inspects an
/// address; it only compares addresses for equality, so an opaque identifier
/// suffices.
#[derive(Clone, Copy, Debug, PartialEq, Eq, Structural)]
pub struct Pubkey {
    pub id: u64,
}

impl Pubkey {
    /// The all-zero address, used in events to mean "nobody".
    pub fn zero() -> (r: Pubkey)
        ensures
            r == (Pubkey { id: 0 }),
    {
        Pubkey { id: 0 }
    }
}

} // verus!
