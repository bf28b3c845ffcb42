use coin_flip::account::{GlobalState, Key, Tier, UserState, MAX_TIERS};
use coin_flip::errors::CoinFlipError;
use coin_flip::game::{claim_reward, coinflip, is_win, pay_amount, reward, roll, ClaimReward, CoinFlip};
use coin_flip::treasury::{
    buy_woof_token, deposit_reward, initialize, vault_funding, withdraw_all, Initialize, WithdrawAll,
};
use coin_flip::vault::{Pool, Transfer, VaultLedger};

fn key(b: u8) -> Key {
    Key { bytes: [b; 32] }
}

fn config(tiers: Vec<Tier>) -> GlobalState {
    GlobalState { admin: key(1), woof_mint: key(2), ticket_mint: key(3), vault: key(4), tiers }
}

fn scenario_config() -> GlobalState {
    config(vec![Tier { bet_amount: 100, reward_rate: 200, percentage: 50 }])
}

fn fresh_user() -> UserState {
    UserState { user: key(9), reward_amount: 0, game_mode: 0 }
}

fn flip_ctx(unix_timestamp: i64, answer: i64) -> CoinFlip {
    CoinFlip { user: key(9), unix_timestamp, answer }
}

#[test]
fn scenario_win_then_claim() {
    let g = scenario_config();
    let mut u = fresh_user();
    assert_eq!(roll(37, 3), Some(10));
    let t = coinflip(&flip_ctx(37, 3), &g, &mut u, 0, 0).unwrap();
    assert_eq!(t, Transfer { pool: Pool::Primary, inbound: true, amount: 102 });
    assert_eq!(u.reward_amount, 200);
    let mut vault = VaultLedger { native: 0, primary: 0, reward: 500 };
    let paid = claim_reward(&ClaimReward { user: key(9) }, &mut u).unwrap();
    assert_eq!(paid, vec![Transfer { pool: Pool::Reward, inbound: false, amount: 200 }]);
    assert_eq!(u.reward_amount, 0);
    vault.apply_all(&paid).unwrap();
    assert_eq!(vault.reward, 300);
}

#[test]
fn second_claim_is_noop() {
    let g = scenario_config();
    let mut u = fresh_user();
    coinflip(&flip_ctx(37, 3), &g, &mut u, 0, 0).unwrap();
    let mut vault = VaultLedger { native: 0, primary: 0, reward: 500 };
    let first = claim_reward(&ClaimReward { user: key(9) }, &mut u).unwrap();
    vault.apply_all(&first).unwrap();
    let before = vault;
    let second = claim_reward(&ClaimReward { user: key(9) }, &mut u).unwrap();
    assert!(second.is_empty());
    vault.apply_all(&second).unwrap();
    assert_eq!(vault, before);
    assert_eq!(u.reward_amount, 0);
}

#[test]
fn losing_flip_leaves_nothing_pending() {
    let g = scenario_config();
    let mut u = fresh_user();
    // 51 * 1 = 51, above the tier's 50.
    coinflip(&flip_ctx(51, 1), &g, &mut u, 0, 1).unwrap();
    assert_eq!(u.reward_amount, 0);
    assert_eq!(u.game_mode, 1);
}

#[test]
fn second_flip_replaces_pending_reward() {
    let g = scenario_config();
    let mut u = fresh_user();
    coinflip(&flip_ctx(37, 3), &g, &mut u, 0, 0).unwrap();
    assert_eq!(u.reward_amount, 200);
    coinflip(&flip_ctx(37, 3), &g, &mut u, 0, 0).unwrap();
    assert_eq!(u.reward_amount, 200);
    coinflip(&flip_ctx(51, 1), &g, &mut u, 0, 0).unwrap();
    assert_eq!(u.reward_amount, 0);
}

#[test]
fn native_mode_stakes_and_pays_native() {
    let g = scenario_config();
    let mut u = fresh_user();
    let t = coinflip(&flip_ctx(37, 3), &g, &mut u, 0, 7).unwrap();
    assert_eq!(t, Transfer { pool: Pool::Native, inbound: true, amount: 102 });
    let paid = claim_reward(&ClaimReward { user: key(9) }, &mut u).unwrap();
    assert_eq!(paid, vec![Transfer { pool: Pool::Native, inbound: false, amount: 200 }]);
}

#[test]
fn out_of_range_tier_is_rejected() {
    let g = scenario_config();
    let mut u = UserState { user: key(9), reward_amount: 77, game_mode: 1 };
    for item in [1u8, 9, 10, 255] {
        assert_eq!(coinflip(&flip_ctx(37, 3), &g, &mut u, item, 0), Err(CoinFlipError::InvalidTier));
        assert_eq!(u.reward_amount, 77);
        assert_eq!(u.game_mode, 1);
    }
}

#[test]
fn zero_percent_tier_wins_only_on_zero_roll() {
    let g = config(vec![Tier { bet_amount: 10, reward_rate: 1000, percentage: 0 }]);
    let mut u = fresh_user();
    // 101 * 5 = 505 = 5 * 101: roll 0.
    coinflip(&flip_ctx(101, 5), &g, &mut u, 0, 0).unwrap();
    assert_eq!(u.reward_amount, 100);
    // 102 * 1: roll 1.
    coinflip(&flip_ctx(102, 1), &g, &mut u, 0, 0).unwrap();
    assert_eq!(u.reward_amount, 0);
    assert!(is_win(0, 0));
    assert!(!is_win(1, 0));
}

#[test]
fn full_percent_tier_always_wins() {
    assert!(is_win(100, 100));
    assert!(is_win(0, 100));
    assert!(!is_win(51, 50));
    assert!(is_win(50, 50));
}

#[test]
fn roll_of_negative_seed_is_non_negative() {
    assert_eq!(roll(-1, 1), Some(100));
    assert_eq!(roll(-101, 1), Some(0));
    assert_eq!(roll(-102, 1), Some(100));
    assert_eq!(roll(i64::MIN, 1), Some(((i64::MIN as i128).rem_euclid(101)) as u32));
    assert_eq!(roll(0, 5), Some(0));
    assert_eq!(roll(i64::MAX, 2), None);
}

#[test]
fn pay_amount_adds_two_percent() {
    assert_eq!(pay_amount(100), Some(102));
    assert_eq!(pay_amount(49), Some(49));
    assert_eq!(pay_amount(50), Some(51));
    assert_eq!(pay_amount(0), Some(0));
    assert_eq!(pay_amount(u64::MAX / 2), Some(u64::MAX / 2 + (u64::MAX / 2) * 2 / 100));
    assert_eq!(pay_amount(u64::MAX / 2 + 1), None);
}

#[test]
fn reward_truncates() {
    assert_eq!(reward(100, 200), Some(200));
    assert_eq!(reward(7, 150), Some(10));
    assert_eq!(reward(u64::MAX, 2), None);
}

#[test]
fn flip_overflow_is_rejected() {
    let mut u = fresh_user();
    let big_stake = config(vec![Tier { bet_amount: u64::MAX, reward_rate: 1, percentage: 100 }]);
    assert_eq!(coinflip(&flip_ctx(1, 1), &big_stake, &mut u, 0, 0), Err(CoinFlipError::Overflow));
    let big_rate = config(vec![Tier { bet_amount: u64::MAX / 4, reward_rate: 100, percentage: 100 }]);
    assert_eq!(coinflip(&flip_ctx(1, 1), &big_rate, &mut u, 0, 0), Err(CoinFlipError::Overflow));
    let g = scenario_config();
    assert_eq!(coinflip(&flip_ctx(i64::MAX, 3), &g, &mut u, 0, 0), Err(CoinFlipError::Overflow));
    assert_eq!(u.reward_amount, 0);
}

#[test]
fn claim_by_other_user_is_rejected() {
    let mut u = UserState { user: key(9), reward_amount: 50, game_mode: 0 };
    assert_eq!(claim_reward(&ClaimReward { user: key(8) }, &mut u), Err(CoinFlipError::Unauthorized));
    assert_eq!(u.reward_amount, 50);
}

#[test]
fn withdraw_by_non_admin_is_rejected() {
    let g = scenario_config();
    for (a, b, c) in [(0u64, 0u64, 0u64), (1, 2, 3), (u64::MAX, u64::MAX, u64::MAX)] {
        assert_eq!(
            withdraw_all(&WithdrawAll { admin: key(5) }, &g, a, b, c),
            Err(CoinFlipError::Unauthorized)
        );
    }
}

#[test]
fn withdraw_by_admin_skips_zero_amounts() {
    let g = scenario_config();
    let ts = withdraw_all(&WithdrawAll { admin: key(1) }, &g, 5, 0, 7).unwrap();
    assert_eq!(
        ts,
        vec![
            Transfer { pool: Pool::Native, inbound: false, amount: 5 },
            Transfer { pool: Pool::Reward, inbound: false, amount: 7 },
        ]
    );
    assert!(withdraw_all(&WithdrawAll { admin: key(1) }, &g, 0, 0, 0).unwrap().is_empty());
}

#[test]
fn deposit_then_payouts_within_deposit() {
    let mut vault = VaultLedger { native: 0, primary: 0, reward: 0 };
    vault.apply_all(&deposit_reward(300)).unwrap();
    assert_eq!(vault.reward, 300);
    let payouts = vec![
        Transfer { pool: Pool::Reward, inbound: false, amount: 200 },
        Transfer { pool: Pool::Reward, inbound: false, amount: 100 },
    ];
    vault.apply_all(&payouts).unwrap();
    assert_eq!(vault.reward, 0);
}

#[test]
fn payouts_beyond_deposit_fail_without_change() {
    let mut vault = VaultLedger { native: 0, primary: 0, reward: 0 };
    vault.apply_all(&deposit_reward(250)).unwrap();
    let payouts = vec![
        Transfer { pool: Pool::Reward, inbound: false, amount: 200 },
        Transfer { pool: Pool::Reward, inbound: false, amount: 100 },
    ];
    assert_eq!(vault.apply_all(&payouts), Err(CoinFlipError::InsufficientFunds));
    assert_eq!(vault.reward, 250);
}

#[test]
fn inbound_overflow_is_rejected() {
    let mut vault = VaultLedger { native: u64::MAX, primary: 0, reward: 0 };
    let t = Transfer { pool: Pool::Native, inbound: true, amount: 1 };
    assert_eq!(vault.apply(t), Err(CoinFlipError::Overflow));
    assert_eq!(vault.native, u64::MAX);
}

#[test]
fn buy_pays_fixed_rate() {
    let ts = buy_woof_token(3).unwrap();
    assert_eq!(
        ts,
        vec![
            Transfer { pool: Pool::Native, inbound: true, amount: 3 },
            Transfer { pool: Pool::Primary, inbound: false, amount: 3000 },
        ]
    );
    assert_eq!(buy_woof_token(u64::MAX), Err(CoinFlipError::Overflow));
}

#[test]
fn initialize_copies_active_tiers() {
    let accts = Initialize { admin: key(1), vault: key(4), vault_lamports: 0 };
    let bets = [10u64, 20, 30, 40, 50, 60, 70, 80, 90, 100];
    let rates = [100u32; 10];
    let pcts = [50u32; 10];
    let (g, t) = initialize(&accts, key(2), key(3), bets, rates, pcts, 3).unwrap();
    assert_eq!(g.item_count(), 3);
    assert_eq!(g.tiers.len(), 3);
    assert_eq!(g.tiers[2].bet_amount, 30);
    assert!(g.admin.same(&key(1)));
    assert!(g.vault.same(&key(4)));
    assert!(g.tier(3).is_err());
    // The default rent-exempt minimum for an empty account.
    assert_eq!(t, Transfer { pool: Pool::Native, inbound: true, amount: 890880 });
    let all = initialize(&accts, key(2), key(3), bets, rates, pcts, MAX_TIERS as u32).unwrap().0;
    assert_eq!(all.tiers.len(), 10);
}

#[test]
fn initialize_rejects_too_many_tiers() {
    let accts = Initialize { admin: key(1), vault: key(4), vault_lamports: 0 };
    let r = initialize(&accts, key(2), key(3), [1; 10], [1; 10], [1; 10], 11);
    assert!(matches!(r, Err(CoinFlipError::TooManyTiers)));
}

#[test]
fn initialize_tops_up_only_what_is_missing() {
    let accts = Initialize { admin: key(1), vault: key(4), vault_lamports: 890000 };
    let (_, t) = initialize(&accts, key(2), key(3), [1; 10], [1; 10], [1; 10], 1).unwrap();
    assert_eq!(t.amount, 880);
    assert_eq!(vault_funding(0, 0), 1);
    assert_eq!(vault_funding(500, 900), 0);
    assert_eq!(vault_funding(500, 200), 300);
}
