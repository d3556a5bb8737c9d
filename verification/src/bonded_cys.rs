//! The token-bonding wrapper.
//!
//! A separate, self-contained facility: bonding escrows a token one-for-one
//! and mints a bonded derivative; unbonding burns the derivative and
//! releases the escrow, but only once the configured unlock time has passed.
//! All token movement is the custody collaborator's; the engine only decides
//! whether an unbond is allowed yet.

use vstd::prelude::*;

use crate::pubkey::Pubkey;

verus! {

/// The bonding wrapper's one failure.
#[derive(Clone, Copy, Debug, PartialEq, Eq, Structural)]
pub enum BondErrorCode {
    /// Bonded tokens cannot be unbonded before the unlock date.
    CannotUnbondBeforeUnlockDate,
}

/// Event emitted when tokens are bonded.
#[derive(Clone, Copy, Debug, PartialEq, Eq)]
pub struct BondEvent {
    /// The amount of tokens bonded.
    pub amount: u64,
    /// The token account giving out the tokens to bond.
    pub from: Pubkey,
    /// The destination token account receiving bonded tokens.
    pub to: Pubkey,
}

/// Event emitted when tokens are unbonded.
#[derive(Clone, Copy, Debug, PartialEq, Eq)]
pub struct UnbondEvent {
    /// The amount of tokens unbonded.
    pub amount: u64,
    /// The token account unbonding its balance.
    pub from: Pubkey,
    /// The destination token account receiving unbonded tokens.
    pub to: Pubkey,
}

/// Bonds `amount` tokens: the caller escrows `amount` of the underlying
/// token and mints `amount` of the bonded derivative to `to`. Always
/// allowed; the whole movement is the caller's.
pub fn bond(amount: u64, from: Pubkey, to: Pubkey) -> (r: BondEvent)
    ensures
        r == (BondEvent { amount, from, to }),
{
    BondEvent { amount, from, to }
}

/// Unbonds `amount` tokens, allowed only once `unlock_time` has passed: on
/// success the caller burns `amount` of the bonded derivative from `from`
/// and releases `amount` of the escrowed underlying token to `to`.
pub fn unbond(amount: u64, from: Pubkey, to: Pubkey, block_timestamp: u32, unlock_time: u32)
    -> (r: Result<UnbondEvent, BondErrorCode>)
    ensures
        match r {
            Ok(event) => block_timestamp >= unlock_time && event == (UnbondEvent {
                amount,
                from,
                to,
            }),
            Err(e) => block_timestamp < unlock_time
                && e == BondErrorCode::CannotUnbondBeforeUnlockDate,
        },
{
    if block_timestamp < unlock_time {
        return Err(BondErrorCode::CannotUnbondBeforeUnlockDate);
    }
    Ok(UnbondEvent { amount, from, to })
}

} // verus!
