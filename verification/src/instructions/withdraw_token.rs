//! Withdrawing a deposited position.

use vstd::prelude::*;

use crate::errors::ErrorCode;
use crate::instructions::transfer_deposit::TransferDepositEvent;
use crate::pubkey::Pubkey;
use crate::state::Deposit;

verus! {

/// Why a withdrawal is rejected, if it is: only the owner may withdraw, the
/// deposit must not be staked anywhere, and the destination must not be the
/// engine's own vault.
pub open spec fn withdraw_token_error(
    deposit: Deposit,
    owner: Pubkey,
    to: Pubkey,
    deposit_vault: Pubkey,
) -> Option<ErrorCode> {
    if deposit.owner != owner {
        Some(ErrorCode::OnlyOwnerCanWithdrawToken)
    } else if deposit.number_of_stakes != 0 {
        Some(ErrorCode::CannotWithdrawTokenWhileStaked)
    } else if to == deposit_vault {
        Some(ErrorCode::CannotWithdrawToStaker)
    } else {
        None
    }
}

/// One withdrawal of a deposited position.
pub struct WithdrawToken {
    /// The deposit being withdrawn.
    pub deposit: Deposit,
    /// The caller, who must be the deposit owner.
    pub owner: Pubkey,
    /// The token account the position is sent to.
    pub to: Pubkey,
    /// The engine's vault currently holding the position.
    pub deposit_vault: Pubkey,
}

impl WithdrawToken {
    /// Releases the custodied position. On success the caller must transfer
    /// the position (quantity one) from the vault to `to` and delete the
    /// deposit record.
    pub fn withdraw_token(&self) -> (r: Result<TransferDepositEvent, ErrorCode>)
        ensures
            match r {
                Ok(event) => {
                    &&& withdraw_token_error(
                        self.deposit,
                        self.owner,
                        self.to,
                        self.deposit_vault,
                    ) is None
                    &&& event == (TransferDepositEvent {
                        mint: self.deposit.mint,
                        old_owner: self.deposit.owner,
                        new_owner: (Pubkey { id: 0 }),
                    })
                },
                Err(e) => withdraw_token_error(
                    self.deposit,
                    self.owner,
                    self.to,
                    self.deposit_vault,
                ) == Some(e),
            },
    {
        if self.deposit.owner != self.owner {
            return Err(ErrorCode::OnlyOwnerCanWithdrawToken);
        }
        if self.deposit.number_of_stakes != 0 {
            return Err(ErrorCode::CannotWithdrawTokenWhileStaked);
        }
        if self.to == self.deposit_vault {
            return Err(ErrorCode::CannotWithdrawToStaker);
        }
        Ok(TransferDepositEvent {
            mint: self.deposit.mint,
            old_owner: self.deposit.owner,
            new_owner: Pubkey::zero(),
        })
    }
}

} // verus!
