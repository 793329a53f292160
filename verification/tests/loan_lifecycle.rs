use capstone_harshit::errors::ErrorCode;
use capstone_harshit::ledger::{Authority, Transfer};
use capstone_harshit::{
    borrow_loan, deposit_collateral, deposit_treasury, initialize_liquidator_state,
    initialize_pool, initialize_treasury, liquidity_withdraw, repay_loan, LiquidatorState,
    PoolState, Pubkey, TreasuryState,
};

fn key(tag: u8) -> Pubkey {
    Pubkey::new_from_array([tag; 32])
}

fn pool(collateral_amount: u64, loan_amount: u64, interest_rate: u64, is_active: bool) -> PoolState {
    PoolState {
        owner: key(1),
        vault_ata: key(2),
        collateral_amount,
        loan_amount,
        interest_rate,
        vault_authority_bump: 254,
        is_active,
    }
}

fn treasury(total_liquidity: u64, total_borrowed: u64) -> TreasuryState {
    TreasuryState { total_liquidity, total_borrowed, treasury_authority_bump: 253 }
}

fn lender(liquidity_amount: u64) -> LiquidatorState {
    LiquidatorState {
        owner: key(3),
        lp_ata: key(4),
        liquidity_mint: key(5),
        liquidity_amount,
        deposit_time: 100,
        last_update_time: 200,
        treasury_authority_bump: 253,
        bump: 252,
    }
}

#[test]
fn identifiers_compare_by_their_bytes() {
    assert_eq!(key(7), key(7));
    assert_ne!(key(7), key(8));
    let mut bytes = [7u8; 32];
    bytes[31] = 8;
    assert_ne!(Pubkey::new_from_array(bytes), key(7));
    assert_eq!(Pubkey::new_from_array(bytes).to_bytes(), bytes);
}

#[test]
fn fresh_records_are_empty() {
    assert_eq!(initialize_treasury(253), treasury(0, 0));
    assert_eq!(initialize_pool(key(1), key(2), 500, 254), pool(0, 0, 500, false));
    let fresh = initialize_liquidator_state(key(3), key(4), key(5), 1_700_000_000, 253, 252);
    let mut expected = lender(0);
    expected.deposit_time = 1_700_000_000;
    expected.last_update_time = 1_700_000_000;
    assert_eq!(fresh, expected);
}

#[test]
fn deposit_raises_treasury_and_lender() {
    let mut t = treasury(1_000, 400);
    let mut l = lender(250);
    let order = deposit_treasury(&mut t, &mut l, 750, 1_700_000_123);
    assert_eq!(order, Ok(Transfer { amount: 750, authority: Authority::Signer { key: key(3) } }));
    assert_eq!(t, treasury(1_750, 400));
    let mut expected = lender(1_000);
    expected.deposit_time = 1_700_000_123;
    expected.last_update_time = 1_700_000_123;
    assert_eq!(l, expected);
}

#[test]
fn deposit_beyond_the_width_is_refused() {
    let mut t = treasury(u64::MAX - 10, 0);
    let mut l = lender(5);
    assert_eq!(deposit_treasury(&mut t, &mut l, 11, 1), Err(ErrorCode::MathOverflow));
    assert_eq!(t, treasury(u64::MAX - 10, 0));
    assert_eq!(l, lender(5));

    let mut t = treasury(5, 0);
    let mut l = lender(u64::MAX - 10);
    assert_eq!(deposit_treasury(&mut t, &mut l, 11, 1), Err(ErrorCode::MathOverflow));
    assert_eq!(t, treasury(5, 0));
    assert_eq!(l, lender(u64::MAX - 10));

    let mut t = treasury(u64::MAX - 10, 0);
    let mut l = lender(u64::MAX - 10);
    assert!(deposit_treasury(&mut t, &mut l, 10, 1).is_ok());
    assert_eq!(t.total_liquidity, u64::MAX);
    assert_eq!(l.liquidity_amount, u64::MAX);
}

#[test]
fn collateral_deposit_raises_the_pool() {
    let mut p = pool(0, 0, 500, false);
    let order = deposit_collateral(&mut p, 5_000);
    assert_eq!(order, Ok(Transfer { amount: 5_000, authority: Authority::Signer { key: key(1) } }));
    assert_eq!(p, pool(5_000, 0, 500, false));

    let mut p = pool(u64::MAX, 0, 500, false);
    assert_eq!(deposit_collateral(&mut p, 1), Err(ErrorCode::MathOverflow));
    assert_eq!(p, pool(u64::MAX, 0, 500, false));
}

#[test]
fn borrow_opens_the_loan() {
    let mut p = pool(5_000, 0, 500, false);
    let mut t = treasury(10_000, 2_000);
    let order = borrow_loan(&mut p, &mut t, 3_000, 4_000);
    assert_eq!(order, Ok(Transfer { amount: 3_000, authority: Authority::Treasury { bump: 253 } }));
    assert_eq!(p, pool(5_000, 3_000, 500, true));
    assert_eq!(t, treasury(10_000, 5_000));
}

#[test]
fn borrow_may_take_all_that_is_left() {
    let mut p = pool(5_000, 0, 500, false);
    let mut t = treasury(10_000, 2_000);
    assert!(borrow_loan(&mut p, &mut t, 8_000, 8_000).is_ok());
    assert_eq!(t, treasury(10_000, 10_000));
    assert_eq!(p.loan_amount, 8_000);
}

#[test]
fn borrow_beyond_liquidity_is_refused() {
    let mut p = pool(5_000, 0, 500, false);
    let mut t = treasury(10_000, 2_000);
    assert_eq!(borrow_loan(&mut p, &mut t, 8_001, u64::MAX), Err(ErrorCode::InsufficientLiquidity));
    assert_eq!(p, pool(5_000, 0, 500, false));
    assert_eq!(t, treasury(10_000, 2_000));

    let mut t = treasury(u64::MAX, u64::MAX - 1);
    assert_eq!(borrow_loan(&mut p, &mut t, 2, u64::MAX), Err(ErrorCode::InsufficientLiquidity));
    assert_eq!(borrow_loan(&mut p, &mut t, u64::MAX, u64::MAX), Err(ErrorCode::InsufficientLiquidity));
    assert_eq!(t, treasury(u64::MAX, u64::MAX - 1));
}

#[test]
fn borrow_beyond_liquidity_is_refused_whatever_the_pool() {
    let mut empty = pool(0, 0, 500, false);
    let mut active = pool(5_000, 1_000, 500, true);
    let mut t = treasury(10_000, 9_000);
    assert_eq!(borrow_loan(&mut empty, &mut t, 1_001, 0), Err(ErrorCode::InsufficientLiquidity));
    assert_eq!(borrow_loan(&mut active, &mut t, 1_001, 0), Err(ErrorCode::InsufficientLiquidity));
    assert_eq!(empty, pool(0, 0, 500, false));
    assert_eq!(active, pool(5_000, 1_000, 500, true));
    assert_eq!(t, treasury(10_000, 9_000));
}

#[test]
fn borrow_without_collateral_is_refused() {
    let mut p = pool(0, 0, 500, false);
    let mut t = treasury(10_000, 2_000);
    assert_eq!(borrow_loan(&mut p, &mut t, 1_000, 4_000), Err(ErrorCode::NotInitialized));
    assert_eq!(p, pool(0, 0, 500, false));
    assert_eq!(t, treasury(10_000, 2_000));
}

#[test]
fn borrow_on_an_active_pool_is_refused() {
    let mut p = pool(5_000, 1_000, 500, true);
    let mut t = treasury(10_000, 2_000);
    assert_eq!(borrow_loan(&mut p, &mut t, 1_000, 4_000), Err(ErrorCode::Unauthorized));
    assert_eq!(p, pool(5_000, 1_000, 500, true));
    assert_eq!(t, treasury(10_000, 2_000));
}

#[test]
fn borrow_above_the_ceiling_is_refused() {
    let mut p = pool(5_000, 0, 500, false);
    let mut t = treasury(10_000, 2_000);
    assert_eq!(borrow_loan(&mut p, &mut t, 4_001, 4_000), Err(ErrorCode::InsufficientLiquidity));
    assert_eq!(p, pool(5_000, 0, 500, false));
    assert_eq!(t, treasury(10_000, 2_000));
    assert!(borrow_loan(&mut p, &mut t, 4_000, 4_000).is_ok());
}

#[test]
fn repay_settles_principal_and_interest() {
    let mut p = pool(5_000_000, 1_000_000, 500, true);
    let mut t = treasury(10_000_000, 3_000_000);
    let order = repay_loan(&mut p, &mut t);
    assert_eq!(
        order,
        Ok(Transfer { amount: 1_050_000, authority: Authority::Signer { key: key(1) } })
    );
    assert_eq!(p, pool(5_000_000, 0, 500, false));
    assert_eq!(t, treasury(10_000_000, 2_000_000));
}

#[test]
fn repay_without_collateral_is_refused() {
    let mut p = pool(0, 0, 500, false);
    let mut t = treasury(10_000, 2_000);
    assert_eq!(repay_loan(&mut p, &mut t), Err(ErrorCode::NotInitialized));
    assert_eq!(p, pool(0, 0, 500, false));
    assert_eq!(t, treasury(10_000, 2_000));
}

#[test]
fn repay_that_overflows_is_refused() {
    let mut p = pool(5_000, u64::MAX, 1, true);
    let mut t = treasury(u64::MAX, u64::MAX);
    assert_eq!(repay_loan(&mut p, &mut t), Err(ErrorCode::MathOverflow));
    assert_eq!(p, pool(5_000, u64::MAX, 1, true));
    assert_eq!(t, treasury(u64::MAX, u64::MAX));

    let mut p = pool(5_000, 3_000, 500, true);
    let mut t = treasury(10_000, 2_999);
    assert_eq!(repay_loan(&mut p, &mut t), Err(ErrorCode::MathOverflow));
    assert_eq!(p, pool(5_000, 3_000, 500, true));
    assert_eq!(t, treasury(10_000, 2_999));
}

#[test]
fn repay_of_a_closed_pool_moves_nothing() {
    let mut p = pool(5_000, 0, 500, false);
    let mut t = treasury(10_000, 2_000);
    let order = repay_loan(&mut p, &mut t);
    assert_eq!(order, Ok(Transfer { amount: 0, authority: Authority::Signer { key: key(1) } }));
    assert_eq!(p, pool(5_000, 0, 500, false));
    assert_eq!(t, treasury(10_000, 2_000));
}

#[test]
fn borrow_then_repay_restores_total_borrowed() {
    for rate in [0u64, 500, 10_000] {
        let mut p = pool(5_000, 0, rate, false);
        let mut t = treasury(10_000, 2_000);
        assert!(borrow_loan(&mut p, &mut t, 3_000, 4_000).is_ok());
        assert_eq!(t.total_borrowed, 5_000);
        let order = repay_loan(&mut p, &mut t).unwrap();
        assert_eq!(order.amount as u128, 3_000 + 3_000 * rate as u128 / 10_000);
        assert_eq!(t, treasury(10_000, 2_000));
        assert_eq!(p, pool(5_000, 0, rate, false));
    }
}

#[test]
fn withdraw_lowers_treasury_and_lender() {
    let mut t = treasury(10_000, 2_000);
    let mut l = lender(6_000);
    let order = liquidity_withdraw(&mut t, &mut l, 4_500);
    assert_eq!(order, Ok(Transfer { amount: 4_500, authority: Authority::Treasury { bump: 253 } }));
    assert_eq!(t, treasury(5_500, 2_000));
    assert_eq!(l, lender(1_500));
}

#[test]
fn withdraw_beyond_the_deposit_is_refused() {
    let mut t = treasury(10_000, 2_000);
    let mut l = lender(6_000);
    assert_eq!(liquidity_withdraw(&mut t, &mut l, 6_001), Err(ErrorCode::InsufficientLiquidity));
    assert_eq!(t, treasury(10_000, 2_000));
    assert_eq!(l, lender(6_000));
    assert!(liquidity_withdraw(&mut t, &mut l, 6_000).is_ok());
    assert_eq!(t, treasury(4_000, 2_000));
    assert_eq!(l, lender(0));
}

#[test]
fn withdraw_that_uncovers_loans_is_refused() {
    let mut t = treasury(10_000, 7_000);
    let mut l = lender(6_000);
    assert_eq!(liquidity_withdraw(&mut t, &mut l, 3_001), Err(ErrorCode::InsufficientLiquidity));
    assert_eq!(t, treasury(10_000, 7_000));
    assert_eq!(l, lender(6_000));
    assert!(liquidity_withdraw(&mut t, &mut l, 3_000).is_ok());
    assert_eq!(t, treasury(7_000, 7_000));

    let mut t = treasury(100, 0);
    let mut l = lender(6_000);
    assert_eq!(liquidity_withdraw(&mut t, &mut l, 101), Err(ErrorCode::InsufficientLiquidity));
    assert_eq!(t, treasury(100, 0));
    assert_eq!(l, lender(6_000));
}

#[test]
fn custody_authorities_carry_their_derivation() {
    let signer = Authority::Signer { key: key(9) };
    assert!(signer.signer_seeds().is_empty());

    let treasury_authority = Authority::Treasury { bump: 253 };
    assert_eq!(
        treasury_authority.signer_seeds(),
        vec![b"treasury-authority".to_vec(), vec![253u8]]
    );

    let vault_authority = Authority::Vault { owner: key(9), bump: 254 };
    assert_eq!(
        vault_authority.signer_seeds(),
        vec![b"vault-authority".to_vec(), vec![9u8; 32], vec![254u8]]
    );
}
