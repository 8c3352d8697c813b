use gorbage_hands::controller::LifecycleController;
use gorbage_hands::error::GorbageError;
use gorbage_hands::identity::Identity;
use gorbage_hands::instructions::initialize_season::SeasonParams;
use gorbage_hands::state::season::SeasonStatus;

const REG_START: i64 = 1_000;
const REG_END: i64 = 2_000;
const SEASON_END: i64 = 3_000;

fn id(byte: u8) -> Identity {
    Identity::new([byte; 32])
}

fn admin() -> Identity {
    id(200)
}

fn authority() -> Identity {
    id(201)
}

fn oracle() -> Identity {
    id(202)
}

fn params(season_id: u64, entry_fee: u64, max_participants: u32) -> SeasonParams {
    SeasonParams {
        season_id,
        authority: authority(),
        oracle: Some(oracle()),
        name: String::from("Season One"),
        entry_fee,
        max_participants,
        registration_start: REG_START,
        registration_end: REG_END,
        season_end: SEASON_END,
    }
}

fn open_season(entry_fee: u64, wallets: u8) -> LifecycleController {
    let mut controller = LifecycleController::new();
    controller.initialize_config(admin()).unwrap();
    controller.initialize_season(admin(), params(1, entry_fee, 100)).unwrap();
    for wallet in 1..=wallets {
        assert_eq!(controller.register_participant(id(wallet), 1, REG_START), Ok(entry_fee));
    }
    controller
}

fn pool(controller: &LifecycleController) -> u64 {
    controller.registry().accounts[0].season.pool_balance
}

fn vault(controller: &LifecycleController) -> u64 {
    controller.registry().accounts[0].vault.balance
}

#[test]
fn bootstrap_happens_once() {
    let mut controller = LifecycleController::new();
    assert!(controller.config().is_none());
    assert_eq!(controller.initialize_config(admin()), Ok(()));
    assert!(controller.config().unwrap().admin.same(&admin()));
    assert_eq!(controller.initialize_config(id(9)), Err(GorbageError::AlreadyInitialized));
    assert!(controller.config().unwrap().admin.same(&admin()));
}

#[test]
fn only_the_admin_transfers_the_role() {
    let mut controller = LifecycleController::new();
    assert_eq!(controller.transfer_admin(admin(), id(9)), Err(GorbageError::Unauthorized));
    controller.initialize_config(admin()).unwrap();
    assert_eq!(controller.transfer_admin(id(9), id(9)), Err(GorbageError::Unauthorized));
    assert!(controller.config().unwrap().admin.same(&admin()));
    assert_eq!(controller.transfer_admin(admin(), id(9)), Ok(()));
    assert!(controller.config().unwrap().admin.same(&id(9)));
    assert_eq!(controller.transfer_admin(admin(), admin()), Err(GorbageError::Unauthorized));
}

#[test]
fn season_creation_sets_the_initial_state() {
    let mut controller = LifecycleController::new();
    controller.initialize_config(admin()).unwrap();
    assert_eq!(controller.initialize_season(admin(), params(5, 100, 10)), Ok(()));
    let account = &controller.registry().accounts[0];
    assert_eq!(account.season.season_id, 5);
    assert!(account.season.authority.same(&authority()));
    assert!(account.season.oracle.unwrap().same(&oracle()));
    assert_eq!(account.season.name, "Season One");
    assert_eq!(account.season.entry_fee, 100);
    assert_eq!(account.season.pool_balance, 0);
    assert_eq!(account.season.participant_count, 0);
    assert_eq!(account.season.max_participants, 10);
    assert_eq!(account.season.registration_start, REG_START);
    assert_eq!(account.season.registration_end, REG_END);
    assert_eq!(account.season.season_end, SEASON_END);
    assert_eq!(account.season.status, SeasonStatus::Registration);
    assert!(!account.season.winners_set);
    assert!(account.season.winners.is_empty());
    assert!(!account.season.fee_collected);
    assert_eq!(account.season.fee_amount, 0);
    assert!(!account.season.emergency_active);
    assert_eq!(account.vault.season_id, 5);
    assert_eq!(account.vault.balance, 0);
    assert!(account.participants.is_empty());
}

#[test]
fn season_creation_checks_caller_parameters_and_id() {
    let mut controller = LifecycleController::new();
    assert_eq!(
        controller.initialize_season(admin(), params(1, 100, 10)),
        Err(GorbageError::Unauthorized)
    );
    controller.initialize_config(admin()).unwrap();
    assert_eq!(
        controller.initialize_season(authority(), params(1, 100, 10)),
        Err(GorbageError::Unauthorized)
    );
    assert_eq!(
        controller.initialize_season(admin(), params(1, 0, 10)),
        Err(GorbageError::InvalidParameter)
    );
    assert_eq!(
        controller.initialize_season(admin(), params(1, 100, 0)),
        Err(GorbageError::InvalidParameter)
    );
    assert_eq!(
        controller.initialize_season(admin(), params(1, 100, 4445)),
        Err(GorbageError::InvalidParameter)
    );
    let mut long_name = params(1, 100, 10);
    long_name.name = "x".repeat(33);
    assert_eq!(controller.initialize_season(admin(), long_name), Err(GorbageError::InvalidParameter));
    let mut bad_window = params(1, 100, 10);
    bad_window.registration_end = REG_START;
    assert_eq!(controller.initialize_season(admin(), bad_window), Err(GorbageError::InvalidParameter));
    let mut bad_end = params(1, 100, 10);
    bad_end.season_end = REG_END;
    assert_eq!(controller.initialize_season(admin(), bad_end), Err(GorbageError::InvalidParameter));
    assert!(controller.registry().accounts.is_empty());

    let mut longest_name = params(1, 100, 4444);
    longest_name.name = "é".repeat(32);
    assert_eq!(controller.initialize_season(admin(), longest_name), Ok(()));
    assert_eq!(
        controller.initialize_season(admin(), params(1, 100, 10)),
        Err(GorbageError::DuplicateId)
    );
    assert_eq!(controller.registry().accounts.len(), 1);
    assert_eq!(controller.initialize_season(admin(), params(2, 100, 10)), Ok(()));
    assert_eq!(controller.registry().accounts.len(), 2);
}

#[test]
fn registration_escrows_the_fee_and_writes_a_record() {
    let mut controller = open_season(100, 0);
    assert_eq!(controller.register_participant(id(1), 1, REG_START + 5), Ok(100));
    let account = &controller.registry().accounts[0];
    assert_eq!(account.season.pool_balance, 100);
    assert_eq!(account.vault.balance, 100);
    assert_eq!(account.season.participant_count, 1);
    assert_eq!(account.participants.len(), 1);
    let record = account.participants[0];
    assert!(record.wallet.same(&id(1)));
    assert_eq!(record.season_id, 1);
    assert_eq!(record.registered_at, REG_START + 5);
    assert_eq!(record.entry_fee_paid, 100);
    assert_eq!(record.rank, 0);
    assert_eq!(record.payable_amount, 0);
    assert!(!record.claimed);
    assert!(!record.emergency_withdrawn);
}

#[test]
fn duplicate_registration_is_refused_and_changes_nothing() {
    let mut controller = open_season(100, 3);
    assert_eq!(
        controller.register_participant(id(2), 1, REG_START + 1),
        Err(GorbageError::DuplicateRegistration)
    );
    assert_eq!(pool(&controller), 300);
    assert_eq!(vault(&controller), 300);
    assert_eq!(controller.registry().accounts[0].season.participant_count, 3);
    assert_eq!(controller.registry().accounts[0].participants.len(), 3);
}

#[test]
fn registration_outside_the_window_is_a_state_conflict() {
    let mut controller = open_season(100, 2);
    assert_eq!(controller.register_participant(id(7), 1, REG_END), Err(GorbageError::StateConflict));
    assert_eq!(
        controller.register_participant(id(7), 1, REG_END + 10),
        Err(GorbageError::StateConflict)
    );
    assert_eq!(
        controller.register_participant(id(7), 1, REG_START - 1),
        Err(GorbageError::StateConflict)
    );
    assert_eq!(pool(&controller), 200);
    assert_eq!(vault(&controller), 200);
    assert_eq!(controller.registry().accounts[0].season.participant_count, 2);
    assert_eq!(controller.register_participant(id(7), 1, REG_END - 1), Ok(100));
    assert_eq!(controller.register_participant(id(8), 2, REG_START), Err(GorbageError::StateConflict));
}

#[test]
fn registration_stops_at_capacity() {
    let mut controller = LifecycleController::new();
    controller.initialize_config(admin()).unwrap();
    controller.initialize_season(admin(), params(1, 10, 2)).unwrap();
    assert_eq!(controller.register_participant(id(1), 1, REG_START), Ok(10));
    assert_eq!(controller.register_participant(id(2), 1, REG_START), Ok(10));
    assert_eq!(
        controller.register_participant(id(3), 1, REG_START),
        Err(GorbageError::CapacityExceeded)
    );
    assert_eq!(
        controller.register_participant(id(1), 1, REG_START),
        Err(GorbageError::CapacityExceeded)
    );
    assert_eq!(pool(&controller), 20);
    assert_eq!(controller.registry().accounts[0].season.participant_count, 2);
}

#[test]
fn registration_refuses_a_pool_that_would_wrap() {
    let mut controller = LifecycleController::new();
    controller.initialize_config(admin()).unwrap();
    controller.initialize_season(admin(), params(1, u64::MAX - 1, 10)).unwrap();
    assert_eq!(controller.register_participant(id(1), 1, REG_START), Ok(u64::MAX - 1));
    assert_eq!(
        controller.register_participant(id(2), 1, REG_START),
        Err(GorbageError::ArithmeticOverflow)
    );
    assert_eq!(pool(&controller), u64::MAX - 1);
    assert_eq!(vault(&controller), u64::MAX - 1);
    assert_eq!(controller.registry().accounts[0].season.participant_count, 1);
}

#[test]
fn fee_is_collected_once() {
    let mut controller = open_season(100, 10);
    assert_eq!(pool(&controller), 1000);
    assert_eq!(controller.collect_fee(authority(), 1, REG_END + 1), Ok(200));
    assert_eq!(pool(&controller), 800);
    assert_eq!(vault(&controller), 800);
    assert!(controller.registry().accounts[0].season.fee_collected);
    assert_eq!(controller.registry().accounts[0].season.fee_amount, 200);
    assert_eq!(
        controller.collect_fee(authority(), 1, REG_END + 2),
        Err(GorbageError::FeeAlreadyCollected)
    );
    assert_eq!(pool(&controller), 800);
    assert_eq!(vault(&controller), 800);
    assert_eq!(controller.registry().accounts[0].season.fee_amount, 200);
}

#[test]
fn fee_collection_checks_caller_time_and_pool() {
    let mut controller = open_season(100, 0);
    assert_eq!(controller.collect_fee(oracle(), 1, REG_END + 1), Err(GorbageError::Unauthorized));
    assert_eq!(controller.collect_fee(authority(), 1, REG_END), Err(GorbageError::StateConflict));
    assert_eq!(
        controller.collect_fee(authority(), 1, REG_END + 1),
        Err(GorbageError::InsufficientFunds)
    );
    assert_eq!(controller.collect_fee(authority(), 9, REG_END + 1), Err(GorbageError::StateConflict));
    assert!(!controller.registry().accounts[0].season.fee_collected);
}

#[test]
fn three_winners_empty_a_pool_of_one_thousand() {
    let mut controller = open_season(100, 10);
    assert_eq!(
        controller.set_winners(authority(), 1, vec![id(4), id(2), id(9)], SEASON_END + 1),
        Ok(())
    );
    let account = &controller.registry().accounts[0];
    assert_eq!(account.season.status, SeasonStatus::WinnersSet);
    assert!(account.season.winners_set);
    assert_eq!(account.season.winners.len(), 3);
    assert!(account.season.winners[0].wallet.same(&id(4)));
    assert_eq!(account.season.winners[0].rank, 1);
    assert_eq!(account.season.winners[0].payable_amount, 500);
    assert_eq!(account.season.winners[1].payable_amount, 300);
    assert_eq!(account.season.winners[2].payable_amount, 200);
    assert_eq!(account.participants[3].rank, 1);
    assert_eq!(account.participants[3].payable_amount, 500);
    assert_eq!(account.participants[1].rank, 2);
    assert_eq!(account.participants[1].payable_amount, 300);
    assert_eq!(account.participants[8].rank, 3);
    assert_eq!(account.participants[8].payable_amount, 200);
    assert_eq!(account.participants[0].rank, 0);
    assert_eq!(account.participants[0].payable_amount, 0);
    assert_eq!(account.season.pool_balance, 1000);

    assert_eq!(controller.claim_prize(id(4), 1), Ok(500));
    assert_eq!(vault(&controller), 500);
    assert_eq!(pool(&controller), 500);
    assert_eq!(controller.claim_prize(id(2), 1), Ok(300));
    assert_eq!(controller.claim_prize(id(9), 1), Ok(200));
    assert_eq!(vault(&controller), 0);
    assert_eq!(pool(&controller), 0);
    assert!(controller.registry().accounts[0].participants[3].claimed);
    assert!(controller.registry().accounts[0].participants[1].claimed);
    assert!(controller.registry().accounts[0].participants[8].claimed);
}

#[test]
fn two_winners_split_sixty_forty_and_others_win_nothing() {
    let mut controller = open_season(25, 4);
    assert_eq!(pool(&controller), 100);
    assert_eq!(controller.set_winners(oracle(), 1, vec![id(1), id(3)], SEASON_END + 1), Ok(()));
    assert_eq!(controller.claim_prize(id(1), 1), Ok(60));
    assert_eq!(controller.claim_prize(id(3), 1), Ok(40));
    assert_eq!(controller.claim_prize(id(2), 1), Err(GorbageError::NotAWinner));
    assert_eq!(vault(&controller), 0);
    assert_eq!(pool(&controller), 0);
    assert!(!controller.registry().accounts[0].participants[1].claimed);
}

#[test]
fn a_prize_is_paid_once() {
    let mut controller = open_season(100, 3);
    controller.set_winners(authority(), 1, vec![id(2)], SEASON_END + 1).unwrap();
    assert_eq!(controller.claim_prize(id(2), 1), Ok(300));
    assert_eq!(controller.claim_prize(id(2), 1), Err(GorbageError::PrizeAlreadyClaimed));
    assert_eq!(controller.claim_prize(id(2), 1), Err(GorbageError::PrizeAlreadyClaimed));
    assert_eq!(vault(&controller), 0);
    assert_eq!(pool(&controller), 0);
}

#[test]
fn claims_wait_for_winners_and_need_a_record() {
    let mut controller = open_season(100, 3);
    assert_eq!(controller.claim_prize(id(1), 1), Err(GorbageError::WinnersNotSet));
    assert_eq!(controller.claim_prize(id(77), 1), Err(GorbageError::NotRegistered));
    assert_eq!(controller.claim_prize(id(1), 5), Err(GorbageError::StateConflict));
    assert_eq!(vault(&controller), 300);
}

#[test]
fn a_rank_that_pays_nothing_cannot_be_claimed() {
    let mut controller = open_season(1, 3);
    assert_eq!(pool(&controller), 3);
    controller.set_winners(authority(), 1, vec![id(1), id(2), id(3)], SEASON_END + 1).unwrap();
    assert_eq!(controller.registry().accounts[0].participants[0].payable_amount, 1);
    assert_eq!(controller.registry().accounts[0].participants[1].payable_amount, 0);
    assert_eq!(controller.registry().accounts[0].participants[2].payable_amount, 0);
    assert_eq!(controller.claim_prize(id(2), 1), Err(GorbageError::InvalidPlacement));
    assert!(!controller.registry().accounts[0].participants[1].claimed);
    assert_eq!(controller.claim_prize(id(1), 1), Ok(1));
    assert_eq!(vault(&controller), 2);
    assert_eq!(controller.close_season(authority(), 1), Ok(2));
}

#[test]
fn winners_are_set_once_after_the_season_by_authority_or_oracle() {
    let mut controller = open_season(100, 5);
    assert_eq!(
        controller.set_winners(id(1), 1, vec![id(1)], SEASON_END + 1),
        Err(GorbageError::Unauthorized)
    );
    assert_eq!(
        controller.set_winners(authority(), 1, vec![id(1)], SEASON_END),
        Err(GorbageError::StateConflict)
    );
    assert_eq!(
        controller.set_winners(authority(), 1, vec![], SEASON_END + 1),
        Err(GorbageError::InvalidWinnerCount)
    );
    assert_eq!(
        controller.set_winners(authority(), 1, vec![id(1), id(2), id(3), id(4)], SEASON_END + 1),
        Err(GorbageError::InvalidWinnerCount)
    );
    assert_eq!(
        controller.set_winners(authority(), 1, vec![id(1), id(66)], SEASON_END + 1),
        Err(GorbageError::NotRegistered)
    );
    assert_eq!(
        controller.set_winners(authority(), 7, vec![id(1)], SEASON_END + 1),
        Err(GorbageError::StateConflict)
    );
    assert!(!controller.registry().accounts[0].season.winners_set);
    assert_eq!(controller.registry().accounts[0].participants[0].rank, 0);
    assert_eq!(controller.set_winners(oracle(), 1, vec![id(1)], SEASON_END + 1), Ok(()));
    assert_eq!(
        controller.set_winners(authority(), 1, vec![id(2)], SEASON_END + 2),
        Err(GorbageError::WinnersAlreadySet)
    );
    assert_eq!(controller.registry().accounts[0].participants[0].payable_amount, 500);
    assert_eq!(controller.registry().accounts[0].participants[1].rank, 0);
}

#[test]
fn winners_share_what_the_fee_left() {
    let mut controller = open_season(100, 10);
    controller.collect_fee(authority(), 1, REG_END + 1).unwrap();
    controller.set_winners(authority(), 1, vec![id(1), id(2), id(3)], SEASON_END + 1).unwrap();
    assert_eq!(controller.claim_prize(id(1), 1), Ok(400));
    assert_eq!(controller.claim_prize(id(2), 1), Ok(240));
    assert_eq!(controller.claim_prize(id(3), 1), Ok(160));
    assert_eq!(vault(&controller), 0);
}

#[test]
fn closing_sweeps_the_remainder_and_removes_the_season() {
    let mut controller = open_season(101, 10);
    assert_eq!(pool(&controller), 1010);
    assert_eq!(controller.close_season(authority(), 1), Err(GorbageError::WinnersNotSet));
    controller.set_winners(authority(), 1, vec![id(1), id(2), id(3)], SEASON_END + 1).unwrap();
    assert_eq!(controller.close_season(id(1), 1), Err(GorbageError::Unauthorized));
    assert_eq!(controller.claim_prize(id(1), 1), Ok(505));
    assert_eq!(controller.claim_prize(id(2), 1), Ok(303));
    assert_eq!(controller.claim_prize(id(3), 1), Ok(202));
    assert_eq!(vault(&controller), 0);
    assert_eq!(controller.close_season(authority(), 1), Ok(0));
    assert!(controller.registry().accounts.is_empty());
    assert_eq!(controller.close_season(authority(), 1), Err(GorbageError::StateConflict));
    assert_eq!(controller.claim_prize(id(1), 1), Err(GorbageError::StateConflict));
    assert_eq!(controller.initialize_season(admin(), params(1, 5, 5)), Ok(()));
}

#[test]
fn closing_returns_what_the_floors_left_over() {
    let mut controller = open_season(1009, 1);
    controller.register_participant(id(2), 1, REG_START).unwrap();
    controller.register_participant(id(3), 1, REG_START).unwrap();
    let total = 3 * 1009;
    controller.set_winners(authority(), 1, vec![id(1), id(2), id(3)], SEASON_END + 1).unwrap();
    let first = controller.claim_prize(id(1), 1).unwrap();
    let second = controller.claim_prize(id(2), 1).unwrap();
    let third = controller.claim_prize(id(3), 1).unwrap();
    assert_eq!((first, second, third), (1513, 908, 605));
    assert_eq!(controller.close_season(authority(), 1), Ok(total - first - second - third));
}

#[test]
fn emergency_refunds_the_whole_entry_fee_once() {
    let mut controller = open_season(100, 5);
    assert_eq!(controller.emergency_withdraw(id(1), 1), Err(GorbageError::StateConflict));
    controller.collect_fee(authority(), 1, REG_END + 1).unwrap();
    assert_eq!(vault(&controller), 400);
    assert_eq!(controller.emergency_stop(id(1), 1), Err(GorbageError::Unauthorized));
    assert_eq!(controller.emergency_stop(authority(), 1), Ok(()));
    assert!(controller.registry().accounts[0].season.emergency_active);
    assert_eq!(controller.emergency_stop(authority(), 1), Err(GorbageError::StateConflict));
    assert_eq!(controller.emergency_stop(authority(), 4), Err(GorbageError::StateConflict));

    assert_eq!(controller.emergency_withdraw(id(1), 1), Ok(100));
    assert_eq!(vault(&controller), 300);
    assert_eq!(pool(&controller), 300);
    assert!(controller.registry().accounts[0].participants[0].emergency_withdrawn);
    assert_eq!(controller.emergency_withdraw(id(1), 1), Err(GorbageError::PrizeAlreadyClaimed));
    assert_eq!(vault(&controller), 300);
    assert_eq!(controller.emergency_withdraw(id(50), 1), Err(GorbageError::NotRegistered));

    assert_eq!(controller.emergency_withdraw(id(2), 1), Ok(100));
    assert_eq!(controller.emergency_withdraw(id(3), 1), Ok(100));
    assert_eq!(controller.emergency_withdraw(id(4), 1), Ok(100));
    assert_eq!(vault(&controller), 0);
    assert_eq!(controller.emergency_withdraw(id(5), 1), Err(GorbageError::InsufficientFunds));
    assert!(!controller.registry().accounts[0].participants[4].emergency_withdrawn);
    assert_eq!(controller.registry().accounts[0].season.participant_count, 5);
}

#[test]
fn a_winner_cannot_take_the_emergency_refund() {
    let mut controller = open_season(100, 3);
    controller.set_winners(authority(), 1, vec![id(1)], SEASON_END + 1).unwrap();
    controller.emergency_stop(authority(), 1).unwrap();
    assert_eq!(controller.emergency_withdraw(id(1), 1), Err(GorbageError::StateConflict));
    assert_eq!(controller.emergency_withdraw(id(2), 1), Ok(100));
    assert_eq!(controller.claim_prize(id(1), 1), Err(GorbageError::InsufficientVaultFunds));
    assert_eq!(vault(&controller), 200);
    assert_eq!(pool(&controller), 200);
    assert!(!controller.registry().accounts[0].participants[0].claimed);
}

#[test]
fn retiming_rewrites_the_windows_before_the_game() {
    let mut controller = open_season(100, 0);
    assert_eq!(
        controller.update_season_timings(id(1), 1, REG_START, 10, 5),
        Err(GorbageError::Unauthorized)
    );
    assert_eq!(
        controller.update_season_timings(authority(), 1, REG_END, 10, 5),
        Err(GorbageError::StateConflict)
    );
    assert_eq!(
        controller.update_season_timings(authority(), 1, REG_START, 0, 5),
        Err(GorbageError::InvalidParameter)
    );
    assert_eq!(
        controller.update_season_timings(authority(), 1, REG_START, 73, 5),
        Err(GorbageError::InvalidParameter)
    );
    assert_eq!(
        controller.update_season_timings(authority(), 1, REG_START, 10, 0),
        Err(GorbageError::InvalidParameter)
    );
    assert_eq!(
        controller.update_season_timings(authority(), 1, REG_START, 10, 31),
        Err(GorbageError::InvalidParameter)
    );
    assert_eq!(
        controller.update_season_timings(authority(), 2, REG_START, 10, 5),
        Err(GorbageError::StateConflict)
    );
    assert_eq!(controller.registry().accounts[0].season.registration_end, REG_END);

    assert_eq!(controller.update_season_timings(authority(), 1, REG_START + 500, 2, 3), Ok(()));
    let season = &controller.registry().accounts[0].season;
    assert_eq!(season.registration_start, REG_START);
    assert_eq!(season.registration_end, REG_START + 500 + 2 * 3600);
    assert_eq!(season.season_end, REG_START + 500 + 2 * 3600 + 3 * 86400);

    assert_eq!(controller.update_season_timings(authority(), 1, REG_START - 100, 72, 30), Ok(()));
    let season = &controller.registry().accounts[0].season;
    assert_eq!(season.registration_end, REG_START + 72 * 3600);
    assert_eq!(season.season_end, REG_START + 72 * 3600 + 30 * 86400);
}

#[test]
fn retiming_refuses_timestamps_that_do_not_fit() {
    let mut controller = LifecycleController::new();
    controller.initialize_config(admin()).unwrap();
    let mut late = params(1, 100, 10);
    late.registration_start = i64::MAX - 100_000;
    late.registration_end = i64::MAX - 50_000;
    late.season_end = i64::MAX;
    controller.initialize_season(admin(), late).unwrap();
    assert_eq!(
        controller.update_season_timings(authority(), 1, 0, 72, 1),
        Err(GorbageError::ArithmeticOverflow)
    );
    assert_eq!(controller.registry().accounts[0].season.registration_end, i64::MAX - 50_000);
    assert_eq!(controller.registry().accounts[0].season.season_end, i64::MAX);
}

#[test]
fn vault_and_pool_agree_after_every_step() {
    let mut controller = open_season(37, 7);
    let check = |c: &LifecycleController| {
        for account in c.registry().accounts.iter() {
            assert_eq!(account.vault.balance, account.season.pool_balance);
        }
    };
    check(&controller);
    let _ = controller.register_participant(id(1), 1, REG_START);
    check(&controller);
    controller.collect_fee(authority(), 1, REG_END + 1).unwrap();
    check(&controller);
    controller.emergency_stop(authority(), 1).unwrap();
    controller.emergency_withdraw(id(7), 1).unwrap();
    check(&controller);
    controller.set_winners(authority(), 1, vec![id(1), id(2)], SEASON_END + 1).unwrap();
    check(&controller);
    controller.claim_prize(id(2), 1).unwrap();
    check(&controller);
    let _ = controller.claim_prize(id(2), 1);
    check(&controller);
    controller.claim_prize(id(1), 1).unwrap();
    check(&controller);
}

#[test]
fn seasons_do_not_touch_each_other() {
    let mut controller = open_season(100, 3);
    controller.initialize_season(admin(), params(2, 10, 5)).unwrap();
    controller.register_participant(id(1), 2, REG_START).unwrap();
    assert_eq!(controller.registry().accounts[0].season.pool_balance, 300);
    assert_eq!(controller.registry().accounts[1].season.pool_balance, 10);
    assert_eq!(controller.registry().accounts[1].vault.season_id, 2);
    controller.set_winners(authority(), 1, vec![id(3)], SEASON_END + 1).unwrap();
    controller.close_season(authority(), 1).unwrap();
    assert_eq!(controller.registry().accounts.len(), 1);
    assert_eq!(controller.registry().accounts[0].season.season_id, 2);
    assert_eq!(controller.season_count(), 1);
    assert!(controller.account(1).is_none());
    assert_eq!(controller.account(2).unwrap().vault.balance, 10);
    assert_eq!(controller.participant(2, &id(1)).unwrap().entry_fee_paid, 10);
    assert!(controller.participant(2, &id(2)).is_none());
    assert!(controller.participant(1, &id(1)).is_none());
}
