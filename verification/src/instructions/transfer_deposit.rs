//! Transferring ownership of a deposit.

use vstd::prelude::*;

use crate::errors::ErrorCode;
use crate::pubkey::Pubkey;
use crate::state::Deposit;

verus! {

/// Event emitted when ownership of a deposit changes hands, including when a
/// deposit is created (from nobody) or withdrawn (to nobody).
#[derive(Clone, Copy, Debug, PartialEq, Eq)]
pub struct TransferDepositEvent {
    /// The mint of the deposited position.
    pub mint: Pubkey,
    /// The owner before the transfer.
    pub old_owner: Pubkey,
    /// The owner after the transfer.
    pub new_owner: Pubkey,
}

/// Why a deposit transfer is rejected, if it is: only the current owner may
/// reassign the deposit.
pub open spec fn transfer_deposit_error(deposit: Deposit, owner: Pubkey) -> Option<ErrorCode> {
    if deposit.owner != owner {
        Some(ErrorCode::OnlyOwnerCanTransferDeposit)
    } else {
        None
    }
}

/// One deposit transfer: the deposit, the caller, and the recipient.
pub struct TransferDeposit {
    /// The deposit whose ownership changes.
    pub deposit: Deposit,
    /// The caller, who must be the current owner.
    pub owner: Pubkey,
    /// The new owner.
    pub to: Pubkey,
}

impl TransferDeposit {
    /// Reassigns the deposit to the recipient. No tokens move.
    pub fn transfer_deposit(&mut self) -> (r: Result<TransferDepositEvent, ErrorCode>)
        ensures
            match r {
                Ok(event) => {
                    &&& transfer_deposit_error(old(self).deposit, old(self).owner) is None
                    &&& final(self).deposit == (Deposit {
                        owner: old(self).to,
                        ..old(self).deposit
                    })
                    &&& final(self).owner == old(self).owner
                    &&& final(self).to == old(self).to
                    &&& event == (TransferDepositEvent {
                        mint: old(self).deposit.mint,
                        old_owner: old(self).owner,
                        new_owner: old(self).to,
                    })
                },
                Err(e) => {
                    &&& transfer_deposit_error(old(self).deposit, old(self).owner) == Some(e)
                    &&& *final(self) == *old(self)
                },
            },
    {
        if self.deposit.owner != self.owner {
            return Err(ErrorCode::OnlyOwnerCanTransferDeposit);
        }
        let old_owner = self.owner;
        self.deposit.owner = self.to;
        Ok(TransferDepositEvent { mint: self.deposit.mint, old_owner, new_owner: self.to })
    }
}

} // verus!
