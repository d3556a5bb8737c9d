//! Depositing a tokenized liquidity position.

use vstd::prelude::*;

use crate::instructions::transfer_deposit::TransferDepositEvent;
use crate::pubkey::Pubkey;
use crate::state::{Deposit, TokenizedPosition};

verus! {

/// One deposit creation: the position being custodied and its depositor.
///
/// That the position really is an AMM position of the expected kind is the
/// hosting ledger's check; the engine only reads the position's identity,
/// pool and range.
pub struct CreateDeposit {
    /// The position being deposited.
    pub tokenized_position: TokenizedPosition,
    /// The account depositing the position, who becomes its owner.
    pub depositor: Pubkey,
}

impl CreateDeposit {
    /// Registers a deposit owned by the depositor, snapshotting the position's
    /// range. The caller must move custody of the position (quantity one)
    /// into the engine's vault.
    pub fn create_deposit(&self) -> (r: (Deposit, TransferDepositEvent))
        ensures
            r.0 == (Deposit {
                mint: self.tokenized_position.mint,
                owner: self.depositor,
                number_of_stakes: 0,
                tick_lower: self.tokenized_position.tick_lower,
                tick_upper: self.tokenized_position.tick_upper,
            }),
            r.1 == (TransferDepositEvent {
                mint: self.tokenized_position.mint,
                old_owner: (Pubkey { id: 0 }),
                new_owner: self.depositor,
            }),
    {
        let deposit = Deposit {
            mint: self.tokenized_position.mint,
            owner: self.depositor,
            number_of_stakes: 0,
            tick_lower: self.tokenized_position.tick_lower,
            tick_upper: self.tokenized_position.tick_upper,
        };
        let event = TransferDepositEvent {
            mint: self.tokenized_position.mint,
            old_owner: Pubkey::zero(),
            new_owner: self.depositor,
        };
        (deposit, event)
    }
}

} // verus!
