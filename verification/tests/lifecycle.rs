use duel_escrow::{
    create_duel, distribute_rewards, initialize, join_duel, start_duel, Address, CustomError,
    Duel, DuelCreated, DuelDecided, DuelJoined, DuelStarted, DuelStatus, EscrowVault, State,
};

const BUMP: u8 = 254;

fn party(tag: u8) -> Address {
    Address::new([tag; 32])
}

fn owner() -> Address {
    party(1)
}

fn company() -> Address {
    party(2)
}

fn pool() -> Address {
    party(3)
}

fn mint() -> Address {
    party(4)
}

fn host() -> Address {
    party(10)
}

fn joiner() -> Address {
    party(11)
}

fn config(company_percentage: u8, pool_percentage: u8) -> State {
    initialize(owner(), company_percentage, pool_percentage, company(), pool(), mint(), BUMP)
        .unwrap()
}

fn funded_vault(host_amount: u64, joiner_amount: u64) -> EscrowVault {
    let mut vault = EscrowVault::open(BUMP, 0);
    vault.set_balance(host(), host_amount);
    vault.set_balance(joiner(), joiner_amount);
    vault
}

fn active_duel(state: &mut State, vault: &mut EscrowVault, wager: u64) -> Duel {
    let (mut duel, _) =
        create_duel(state, host(), vault.balance_of(&host()), wager, 1_700_000_000, 7).unwrap();
    join_duel(&mut duel, joiner(), vault.balance_of(&joiner())).unwrap();
    start_duel(state, &mut duel, vault).unwrap();
    duel
}

#[test]
fn scenario_five_and_two_per_cent_of_two_thousand() {
    let mut state = config(5, 2);
    let mut vault = funded_vault(1000, 1000);

    let (mut duel, created) =
        create_duel(&mut state, host(), vault.balance_of(&host()), 1000, 1_700_000_000, 7)
            .unwrap();
    assert_eq!(created, DuelCreated { duel_id: 1, owner: host() });
    assert_eq!(duel.status, DuelStatus::Pending);

    let joined = join_duel(&mut duel, joiner(), vault.balance_of(&joiner())).unwrap();
    assert_eq!(joined, DuelJoined { duel_id: 1, owner: joiner() });
    assert_eq!(duel.status, DuelStatus::Joined);
    assert_eq!(vault.custody(), 0);

    let started = start_duel(&state, &mut duel, &mut vault).unwrap();
    assert_eq!(started, DuelStarted { duel_id: 1, owner: host() });
    assert_eq!(duel.status, DuelStatus::Active);
    assert_eq!(vault.custody(), 2000);
    assert_eq!(vault.balance_of(&host()), 0);
    assert_eq!(vault.balance_of(&joiner()), 0);

    let (decided, split) =
        distribute_rewards(&state, &mut duel, &mut vault, owner(), host()).unwrap();
    assert_eq!(decided, DuelDecided { duel_id: 1, winner_id: host() });
    assert_eq!(split.total_wager, 2000);
    assert_eq!(split.company_amount, 100);
    assert_eq!(split.pool_amount, 40);
    assert_eq!(split.reward_amount, 1860);
    assert_eq!(vault.balance_of(&host()), 1860);
    assert_eq!(vault.balance_of(&company()), 100);
    assert_eq!(vault.balance_of(&pool()), 40);
    assert_eq!(vault.balance_of(&joiner()), 0);
    assert_eq!(vault.custody(), 0);
    assert_eq!(duel.status, DuelStatus::Completed);
    assert_eq!(duel.winner, host());
}

#[test]
fn joiner_may_win_too() {
    let mut state = config(5, 2);
    let mut vault = funded_vault(1500, 1200);
    let mut duel = active_duel(&mut state, &mut vault, 1000);
    assert_eq!(vault.balance_of(&host()), 500);
    assert_eq!(vault.balance_of(&joiner()), 200);
    distribute_rewards(&state, &mut duel, &mut vault, owner(), joiner()).unwrap();
    assert_eq!(vault.balance_of(&joiner()), 200 + 1860);
    assert_eq!(vault.balance_of(&host()), 500);
    assert_eq!(duel.winner, joiner());
}

#[test]
fn statuses_follow_one_another() {
    let mut state = config(5, 2);
    let mut vault = funded_vault(10, 10);
    let (mut duel, _) = create_duel(&mut state, host(), 10, 10, 0, 0).unwrap();
    let mut seen = vec![duel.status];
    join_duel(&mut duel, joiner(), 10).unwrap();
    seen.push(duel.status);
    start_duel(&state, &mut duel, &mut vault).unwrap();
    seen.push(duel.status);
    distribute_rewards(&state, &mut duel, &mut vault, owner(), host()).unwrap();
    seen.push(duel.status);
    assert_eq!(
        seen,
        vec![
            DuelStatus::Pending,
            DuelStatus::Joined,
            DuelStatus::Active,
            DuelStatus::Completed
        ]
    );
}

#[test]
fn no_operation_skips_a_status() {
    let mut state = config(5, 2);
    let mut vault = funded_vault(10, 10);
    let (mut duel, _) = create_duel(&mut state, host(), 10, 10, 0, 0).unwrap();
    let pending = duel;

    assert_eq!(start_duel(&state, &mut duel, &mut vault), Err(CustomError::DuelNotReady));
    assert_eq!(duel, pending);
    assert_eq!(
        distribute_rewards(&state, &mut duel, &mut vault, owner(), host()),
        Err(CustomError::DuelNotActive)
    );
    assert_eq!(duel, pending);

    join_duel(&mut duel, joiner(), 10).unwrap();
    let joined = duel;
    assert_eq!(
        distribute_rewards(&state, &mut duel, &mut vault, owner(), host()),
        Err(CustomError::DuelNotActive)
    );
    assert_eq!(duel, joined);

    start_duel(&state, &mut duel, &mut vault).unwrap();
    let active = duel;
    assert_eq!(start_duel(&state, &mut duel, &mut vault), Err(CustomError::DuelNotReady));
    assert_eq!(duel, active);
    assert_eq!(vault.custody(), 20);
}

#[test]
fn join_needs_a_pending_duel() {
    let mut state = config(5, 2);
    let mut vault = funded_vault(10, 10);
    let (mut duel, _) = create_duel(&mut state, host(), 10, 10, 0, 0).unwrap();
    join_duel(&mut duel, joiner(), 10).unwrap();

    let joined = duel;
    assert_eq!(join_duel(&mut duel, party(12), 10), Err(CustomError::DuelNotOpen));
    assert_eq!(duel, joined);

    start_duel(&state, &mut duel, &mut vault).unwrap();
    let active = duel;
    assert_eq!(join_duel(&mut duel, party(12), 10), Err(CustomError::DuelNotOpen));
    assert_eq!(duel, active);

    distribute_rewards(&state, &mut duel, &mut vault, owner(), host()).unwrap();
    let completed = duel;
    assert_eq!(join_duel(&mut duel, party(12), 10), Err(CustomError::DuelNotOpen));
    assert_eq!(duel, completed);
    // The status is looked at first: even the host is told that the duel is not open.
    assert_eq!(join_duel(&mut duel, host(), 0), Err(CustomError::DuelNotOpen));
}

#[test]
fn join_refuses_the_host_then_a_short_balance() {
    let mut state = config(5, 2);
    let (mut duel, _) = create_duel(&mut state, host(), 10, 10, 0, 0).unwrap();
    let pending = duel;
    assert_eq!(join_duel(&mut duel, host(), 10), Err(CustomError::CannotPlayAgainstSelf));
    assert_eq!(join_duel(&mut duel, host(), 0), Err(CustomError::CannotPlayAgainstSelf));
    assert_eq!(join_duel(&mut duel, joiner(), 9), Err(CustomError::InsufficientFunds));
    assert_eq!(duel, pending);
    assert_eq!(join_duel(&mut duel, joiner(), 10), Ok(DuelJoined { duel_id: 1, owner: joiner() }));
    assert_eq!(duel.joiner, joiner());
    assert_eq!(duel.status, DuelStatus::Joined);
    assert_eq!(duel.winner, Address::default());
    assert_eq!(duel.host, host());
    assert_eq!(duel.wager_amount, 10);
}

#[test]
fn start_fails_whole_when_the_host_cannot_pay() {
    let mut state = config(5, 2);
    let mut vault = funded_vault(1000, 1000);
    let (mut duel, _) = create_duel(&mut state, host(), 1000, 1000, 0, 0).unwrap();
    join_duel(&mut duel, joiner(), 1000).unwrap();
    // The host spends part of its balance before the duel starts.
    vault.set_balance(host(), 999);
    let before = duel;
    assert_eq!(start_duel(&state, &mut duel, &mut vault), Err(CustomError::InsufficientFunds));
    assert_eq!(duel, before);
    assert_eq!(duel.status, DuelStatus::Joined);
    assert_eq!(vault.custody(), 0);
    assert_eq!(vault.balance_of(&host()), 999);
    assert_eq!(vault.balance_of(&joiner()), 1000);
}

#[test]
fn start_fails_whole_when_the_joiner_cannot_pay() {
    let mut state = config(5, 2);
    let mut vault = funded_vault(1000, 1000);
    let (mut duel, _) = create_duel(&mut state, host(), 1000, 1000, 0, 0).unwrap();
    join_duel(&mut duel, joiner(), 1000).unwrap();
    vault.set_balance(joiner(), 1);
    let before = duel;
    assert_eq!(start_duel(&state, &mut duel, &mut vault), Err(CustomError::InsufficientFunds));
    assert_eq!(duel, before);
    assert_eq!(vault.custody(), 0);
    // The host's stake, which could have moved, has not.
    assert_eq!(vault.balance_of(&host()), 1000);
    assert_eq!(vault.balance_of(&joiner()), 1);

    // The duel can be started once the joiner holds the wager again.
    vault.set_balance(joiner(), 1000);
    assert_eq!(
        start_duel(&state, &mut duel, &mut vault),
        Ok(DuelStarted { duel_id: 1, owner: host() })
    );
    assert_eq!(vault.custody(), 2000);
}

#[test]
fn start_fails_whole_when_the_vault_is_full() {
    let mut state = config(5, 2);
    let mut vault = EscrowVault::open(BUMP, u64::MAX - 15);
    vault.set_balance(host(), 10);
    vault.set_balance(joiner(), 10);
    let (mut duel, _) = create_duel(&mut state, host(), 10, 10, 0, 0).unwrap();
    join_duel(&mut duel, joiner(), 10).unwrap();
    // The first stake fits, the second does not.
    assert_eq!(start_duel(&state, &mut duel, &mut vault), Err(CustomError::ArithmeticOverflow));
    assert_eq!(duel.status, DuelStatus::Joined);
    assert_eq!(vault.custody(), u64::MAX - 15);
    assert_eq!(vault.balance_of(&host()), 10);
    assert_eq!(vault.balance_of(&joiner()), 10);
}

#[test]
fn start_needs_the_vault_of_the_configuration() {
    let mut state = config(5, 2);
    let mut vault = EscrowVault::open(BUMP - 1, 0);
    vault.set_balance(host(), 10);
    vault.set_balance(joiner(), 10);
    let (mut duel, _) = create_duel(&mut state, host(), 10, 10, 0, 0).unwrap();
    // The status comes first.
    assert_eq!(start_duel(&state, &mut duel, &mut vault), Err(CustomError::DuelNotReady));
    join_duel(&mut duel, joiner(), 10).unwrap();
    assert_eq!(start_duel(&state, &mut duel, &mut vault), Err(CustomError::Unauthorized));
    assert_eq!(duel.status, DuelStatus::Joined);
    assert_eq!(vault.custody(), 0);
}

#[test]
fn a_stranger_cannot_win() {
    let mut state = config(5, 2);
    let mut vault = funded_vault(1000, 1000);
    let mut duel = active_duel(&mut state, &mut vault, 1000);
    let before = duel;
    for stranger in [party(12), owner(), company(), pool(), Address::default()] {
        assert_eq!(
            distribute_rewards(&state, &mut duel, &mut vault, owner(), stranger),
            Err(CustomError::InvalidWinner)
        );
        // Whoever calls: the winner is looked at before the caller.
        assert_eq!(
            distribute_rewards(&state, &mut duel, &mut vault, stranger, stranger),
            Err(CustomError::InvalidWinner)
        );
        assert_eq!(duel, before);
        assert_eq!(vault.custody(), 2000);
        assert_eq!(vault.balance_of(&stranger), 0);
        assert_eq!(vault.balance_of(&host()), 0);
        assert_eq!(vault.balance_of(&joiner()), 0);
        assert_eq!(vault.balance_of(&company()), 0);
        assert_eq!(vault.balance_of(&pool()), 0);
    }
}

#[test]
fn rewards_are_paid_once() {
    let mut state = config(5, 2);
    let mut vault = funded_vault(2000, 2000);
    let mut first = active_duel(&mut state, &mut vault, 1000);
    // A second duel keeps funds in the vault that a repeated payout could take.
    let _second = active_duel(&mut state, &mut vault, 1000);
    assert_eq!(vault.custody(), 4000);

    distribute_rewards(&state, &mut first, &mut vault, owner(), host()).unwrap();
    assert_eq!(vault.custody(), 2000);
    let completed = first;
    for winner in [host(), joiner(), party(12)] {
        for caller in [owner(), party(12)] {
            assert_eq!(
                distribute_rewards(&state, &mut first, &mut vault, caller, winner),
                Err(CustomError::DuelNotActive)
            );
        }
    }
    assert_eq!(first, completed);
    assert_eq!(vault.custody(), 2000);
    assert_eq!(vault.balance_of(&host()), 1860);
    assert_eq!(vault.balance_of(&company()), 100);
    assert_eq!(vault.balance_of(&pool()), 40);
}

#[test]
fn only_the_owner_decides() {
    let mut state = config(5, 2);
    let mut vault = funded_vault(1000, 1000);
    let mut duel = active_duel(&mut state, &mut vault, 1000);
    let before = duel;
    for caller in [host(), joiner(), company(), Address::default()] {
        assert_eq!(
            distribute_rewards(&state, &mut duel, &mut vault, caller, host()),
            Err(CustomError::Unauthorized)
        );
    }
    assert_eq!(duel, before);
    assert_eq!(vault.custody(), 2000);
    assert_eq!(vault.balance_of(&host()), 0);
}

#[test]
fn payout_needs_the_capability_of_the_vault() {
    let mut state = config(5, 2);
    let mut vault = funded_vault(1000, 1000);
    let mut duel = active_duel(&mut state, &mut vault, 1000);
    let mut forged = state;
    forged.vault_bump = BUMP - 1;
    let before = duel;
    assert_eq!(
        distribute_rewards(&forged, &mut duel, &mut vault, owner(), host()),
        Err(CustomError::Unauthorized)
    );
    assert_eq!(duel, before);
    assert_eq!(vault.custody(), 2000);
    assert_eq!(vault.balance_of(&host()), 0);
}

#[test]
fn fees_over_the_pot_are_refused() {
    // Nothing stops a configuration whose fees sum to more than 100 per cent.
    let mut state = config(60, 50);
    let mut vault = funded_vault(1000, 1000);
    let mut duel = active_duel(&mut state, &mut vault, 1000);
    let before = duel;
    assert_eq!(
        distribute_rewards(&state, &mut duel, &mut vault, owner(), host()),
        Err(CustomError::ArithmeticOverflow)
    );
    assert_eq!(duel, before);
    assert_eq!(vault.custody(), 2000);
    assert_eq!(vault.balance_of(&host()), 0);
    assert_eq!(vault.balance_of(&company()), 0);
    assert_eq!(vault.balance_of(&pool()), 0);
}

#[test]
fn fees_of_exactly_the_pot_leave_no_reward() {
    let mut state = config(60, 40);
    let mut vault = funded_vault(1000, 1000);
    let mut duel = active_duel(&mut state, &mut vault, 1000);
    let (_, split) = distribute_rewards(&state, &mut duel, &mut vault, owner(), host()).unwrap();
    assert_eq!(split.reward_amount, 0);
    assert_eq!(split.company_amount, 1200);
    assert_eq!(split.pool_amount, 800);
    assert_eq!(vault.balance_of(&host()), 0);
    assert_eq!(vault.balance_of(&company()), 1200);
    assert_eq!(vault.balance_of(&pool()), 800);
    assert_eq!(vault.custody(), 0);
}

#[test]
fn a_pot_over_sixty_four_bits_is_refused() {
    let state = config(5, 2);
    let mut vault = EscrowVault::open(BUMP, u64::MAX);
    let mut duel = Duel {
        id: 1,
        host: host(),
        joiner: joiner(),
        wager_amount: u64::MAX / 2 + 1,
        status: DuelStatus::Active,
        winner: Address::default(),
        start_time: 0,
        bump: 0,
    };
    let before = duel;
    assert_eq!(
        distribute_rewards(&state, &mut duel, &mut vault, owner(), host()),
        Err(CustomError::ArithmeticOverflow)
    );
    assert_eq!(duel, before);
    assert_eq!(vault.custody(), u64::MAX);
}

#[test]
fn the_largest_pot_is_paid() {
    let state = config(5, 2);
    let wager = u64::MAX / 2;
    let mut vault = EscrowVault::open(BUMP, u64::MAX);
    let mut duel = Duel {
        id: 1,
        host: host(),
        joiner: joiner(),
        wager_amount: wager,
        status: DuelStatus::Active,
        winner: Address::default(),
        start_time: 0,
        bump: 0,
    };
    let (_, split) = distribute_rewards(&state, &mut duel, &mut vault, owner(), joiner()).unwrap();
    let total = u64::MAX - 1;
    assert_eq!(split.total_wager, total);
    assert_eq!(split.company_amount, 922_337_203_685_477_580);
    assert_eq!(split.pool_amount, 368_934_881_474_191_032);
    assert_eq!(split.reward_amount, total - 922_337_203_685_477_580 - 368_934_881_474_191_032);
    assert_eq!(vault.custody(), 1);
    assert_eq!(vault.balance_of(&joiner()), split.reward_amount);
}

#[test]
fn payout_fails_whole_when_the_vault_is_short() {
    let mut state = config(5, 2);
    let mut vault = funded_vault(1000, 1000);
    let (mut duel, _) = create_duel(&mut state, host(), 1000, 1000, 0, 0).unwrap();
    join_duel(&mut duel, joiner(), 1000).unwrap();
    start_duel(&state, &mut duel, &mut vault).unwrap();
    // A vault that holds less than the pot: the reward can be paid, the company's fee
    // can, the pool's fee cannot.
    let mut short = EscrowVault::open(BUMP, 1999);
    let before = duel;
    assert_eq!(
        distribute_rewards(&state, &mut duel, &mut short, owner(), host()),
        Err(CustomError::InsufficientFunds)
    );
    assert_eq!(duel, before);
    assert_eq!(short.custody(), 1999);
    assert_eq!(short.balance_of(&host()), 0);
    assert_eq!(short.balance_of(&company()), 0);
    assert_eq!(short.balance_of(&pool()), 0);
}

#[test]
fn payout_fails_whole_when_a_recipient_is_full() {
    let mut state = config(5, 2);
    let mut vault = funded_vault(1000, 1000);
    let mut duel = active_duel(&mut state, &mut vault, 1000);
    vault.set_balance(pool(), u64::MAX - 39);
    let before = duel;
    assert_eq!(
        distribute_rewards(&state, &mut duel, &mut vault, owner(), host()),
        Err(CustomError::ArithmeticOverflow)
    );
    assert_eq!(duel, before);
    assert_eq!(vault.custody(), 2000);
    assert_eq!(vault.balance_of(&host()), 0);
    assert_eq!(vault.balance_of(&company()), 0);
    assert_eq!(vault.balance_of(&pool()), u64::MAX - 39);
    vault.set_balance(pool(), u64::MAX - 40);
    distribute_rewards(&state, &mut duel, &mut vault, owner(), host()).unwrap();
    assert_eq!(vault.balance_of(&pool()), u64::MAX);
}

#[test]
fn one_party_may_be_paid_more_than_once() {
    // The company's address is also the pool's, and the winner's.
    let mut state =
        initialize(owner(), 5, 2, host(), host(), mint(), BUMP).unwrap();
    let mut vault = funded_vault(1000, 1000);
    let mut duel = active_duel(&mut state, &mut vault, 1000);
    distribute_rewards(&state, &mut duel, &mut vault, owner(), host()).unwrap();
    assert_eq!(vault.balance_of(&host()), 2000);
    assert_eq!(vault.balance_of(&joiner()), 0);
    assert_eq!(vault.custody(), 0);
}

#[test]
fn the_vault_holds_the_stakes_of_active_duels_only() {
    let mut state = config(10, 10);
    let mut vault = funded_vault(600, 600);
    let mut first = active_duel(&mut state, &mut vault, 100);
    assert_eq!(vault.custody(), 200);
    let mut second = active_duel(&mut state, &mut vault, 250);
    assert_eq!(vault.custody(), 200 + 500);
    distribute_rewards(&state, &mut first, &mut vault, owner(), joiner()).unwrap();
    assert_eq!(vault.custody(), 500);
    distribute_rewards(&state, &mut second, &mut vault, owner(), host()).unwrap();
    assert_eq!(vault.custody(), 0);
    // Nothing was lost: the parties hold together what they held at first.
    let held = vault.balance_of(&host())
        + vault.balance_of(&joiner())
        + vault.balance_of(&company())
        + vault.balance_of(&pool());
    assert_eq!(held, 1200);
    assert_eq!(vault.balance_of(&company()), 20 + 50);
    assert_eq!(vault.balance_of(&pool()), 20 + 50);
    assert_eq!(vault.balance_of(&joiner()), 600 - 100 - 250 + 160);
    assert_eq!(vault.balance_of(&host()), 600 - 100 - 250 + 400);
}
