//! Forced settlement of a loan by a third party.
//!
//! A liquidator pays what the borrower owes into the treasury and receives
//! collateral from the borrower's vault in exchange. Both amounts are
//! computed and checked before either transfer is ordered, so that a
//! liquidation is ordered whole or not at all.

use vstd::prelude::*;
use crate::errors::ErrorCode;
use crate::ledger::{Authority, TokenAccount, Transfer};
use crate::math::{amount_due_of, compute_amount_due, compute_collateral_seize, seize_amount_of, seize_fits};
use crate::states::pool_state::PoolState;
use crate::states::pubkey::Pubkey;
use crate::states::treasury_state::TreasuryState;

verus! {

/// The accounts that take part in a liquidation.
#[derive(Clone, Copy, Debug, PartialEq, Eq)]
pub struct LiquidateCollateral {
    /// The principal who settles the loan and signs the operation.
    pub liquidator: Pubkey,
    /// The liquidator's account for the collateral asset; receives the
    /// seized collateral.
    pub liquidator_collateral_mint_ata: TokenAccount,
    /// The liquidator's account for the liquidity asset; pays the debt.
    pub liquidator_loan_mint_ata: TokenAccount,
    /// The borrower, from whom the vault's custody authority derives.
    pub owner: Pubkey,
    /// The vault that holds the borrower's collateral.
    pub vault_ata: TokenAccount,
    /// The borrower's position.
    pub pool_state: PoolState,
    /// The treasury's custody authority.
    pub treasury_authority: Pubkey,
    /// The treasury's books.
    pub treasury_state: TreasuryState,
    /// The treasury's account for the liquidity asset.
    pub treasury_ata: TokenAccount,
    /// The vault's custody authority.
    pub vault_authority: Pubkey,
    /// The asset that is lent.
    pub liquidity_mint: Pubkey,
    /// The asset that is pledged.
    pub collateral_mint: Pubkey,
}

/// The two transfers that settle a liquidation, in the order in which the
/// ledger must carry them out.
#[derive(Clone, Copy, Debug, PartialEq, Eq)]
pub struct Liquidation {
    /// The debt, from the liquidator's liquidity account to the treasury's.
    pub repayment: Transfer,
    /// The collateral, from the vault to the liquidator's collateral account.
    pub seizure: Transfer,
}

impl LiquidateCollateral {
    /// The first fault among the accounts, if any, in the order in which
    /// they are examined: the asset of each of the liquidator's accounts and
    /// of the vault, the pool's collateral, then the asset and the authority
    /// of the treasury's account.
    pub open spec fn account_error(self) -> Option<ErrorCode> {
        if self.liquidator_collateral_mint_ata.mint@ != self.collateral_mint@ {
            Some(ErrorCode::InvalidMint)
        } else if self.liquidator_loan_mint_ata.mint@ != self.liquidity_mint@ {
            Some(ErrorCode::InvalidMint)
        } else if self.vault_ata.mint@ != self.collateral_mint@ {
            Some(ErrorCode::InvalidMint)
        } else if !self.pool_state.is_initialized() {
            Some(ErrorCode::NotInitialized)
        } else if self.treasury_ata.mint@ != self.liquidity_mint@ {
            Some(ErrorCode::InvalidMint)
        } else if self.treasury_ata.owner@ != self.treasury_authority@ {
            Some(ErrorCode::Unauthorized)
        } else {
            None
        }
    }

    /// What the liquidator owes the treasury: the loan and its interest.
    pub open spec fn amount_due(self) -> int {
        amount_due_of(self.pool_state.loan_amount as int, self.pool_state.interest_rate as int)
    }

    /// Why a liquidation at `price` with `bonus_bps` is refused, if it is:
    /// a fault among the accounts, a debt or a seizure that leaves its
    /// integer width, or a vault that holds less than is to be seized.
    pub open spec fn liquidation_error(self, price: u64, bonus_bps: u64) -> Option<ErrorCode> {
        let loan = self.pool_state.loan_amount as int;
        if self.account_error() is Some {
            self.account_error()
        } else if self.amount_due() > u64::MAX {
            Some(ErrorCode::MathOverflow)
        } else if !seize_fits(loan, price as int, bonus_bps as int) {
            Some(ErrorCode::MathOverflow)
        } else if seize_amount_of(loan, price as int, bonus_bps as int) > self.vault_ata.amount {
            Some(ErrorCode::InsufficientLiquidity)
        } else {
            None
        }
    }

    /// The transfers that settle the liquidation: the debt, signed by the
    /// liquidator, and the seized collateral, released by the custody
    /// authority of the borrower's vault.
    pub open spec fn liquidation(self, price: u64, bonus_bps: u64) -> Liquidation {
        Liquidation {
            repayment: Transfer {
                amount: self.amount_due() as u64,
                authority: Authority::Signer { key: self.liquidator },
            },
            seizure: Transfer {
                amount: seize_amount_of(
                    self.pool_state.loan_amount as int,
                    price as int,
                    bonus_bps as int,
                ) as u64,
                authority: Authority::Vault {
                    owner: self.owner,
                    bump: self.pool_state.vault_authority_bump,
                },
            },
        }
    }

    /// The accounts once the liquidation is settled: the pool is closed and
    /// nothing else has changed.
    pub open spec fn settled(self) -> LiquidateCollateral {
        LiquidateCollateral { pool_state: self.pool_state.closed(), ..self }
    }

    /// Examines the accounts and reports the first fault.
    pub fn validate(&self) -> (result: Result<(), ErrorCode>)
        ensures
            match self.account_error() {
                Some(error) => result == Err::<(), ErrorCode>(error),
                None => result == Ok::<(), ErrorCode>(()),
            },
    {
        if self.liquidator_collateral_mint_ata.mint != self.collateral_mint {
            return Err(ErrorCode::InvalidMint);
        }
        if self.liquidator_loan_mint_ata.mint != self.liquidity_mint {
            return Err(ErrorCode::InvalidMint);
        }
        if self.vault_ata.mint != self.collateral_mint {
            return Err(ErrorCode::InvalidMint);
        }
        if self.pool_state.collateral_amount == 0 {
            return Err(ErrorCode::NotInitialized);
        }
        if self.treasury_ata.mint != self.liquidity_mint {
            return Err(ErrorCode::InvalidMint);
        }
        if self.treasury_ata.owner != self.treasury_authority {
            return Err(ErrorCode::Unauthorized);
        }
        Ok(())
    }
}

/// Liquidates the loan of `ctx.pool_state` at `price`, the collateral's
/// price in fixed point with eight decimal places, rewarding the liquidator
/// with `bonus_bps` basis points.
///
/// On success the pool is closed and the two transfers to carry out are
/// returned. On failure nothing has changed; in particular the pool is as
/// active as it was.
pub fn handler(ctx: &mut LiquidateCollateral, price: u64, bonus_bps: u64) -> (result: Result<
    Liquidation,
    ErrorCode,
>)
    ensures
        match old(ctx).liquidation_error(price, bonus_bps) {
            Some(error) => result == Err::<Liquidation, ErrorCode>(error) && *final(ctx) == *old(
                ctx,
            ),
            None => result == Ok::<Liquidation, ErrorCode>(old(ctx).liquidation(price, bonus_bps))
                && *final(ctx) == old(ctx).settled(),
        },
        result is Ok ==> !final(ctx).pool_state.is_active,
        result is Ok ==> final(ctx).pool_state.well_formed(),
        result is Err ==> final(ctx).pool_state.is_active == old(ctx).pool_state.is_active,
{
    match ctx.validate() {
        Ok(()) => {},
        Err(error) => { return Err(error); },
    }
    let amount_to_liquify: u64 = match compute_amount_due(
        ctx.pool_state.loan_amount,
        ctx.pool_state.interest_rate,
    ) {
        Ok(amount) => amount,
        Err(error) => { return Err(error); },
    };
    let seize_amount: u64 = match compute_collateral_seize(
        ctx.pool_state.loan_amount,
        price,
        bonus_bps,
    ) {
        Ok(amount) => amount,
        Err(error) => { return Err(error); },
    };
    if seize_amount > ctx.vault_ata.amount {
        return Err(ErrorCode::InsufficientLiquidity);
    }
    let repayment = Transfer {
        amount: amount_to_liquify,
        authority: Authority::Signer { key: ctx.liquidator },
    };
    let seizure = Transfer {
        amount: seize_amount,
        authority: Authority::Vault { owner: ctx.owner, bump: ctx.pool_state.vault_authority_bump },
    };
    ctx.pool_state.close();
    Ok(Liquidation { repayment, seizure })
}

} // verus!
