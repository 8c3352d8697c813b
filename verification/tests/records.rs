use gorbage_hands::error::{GorbageError, PnlError};
use gorbage_hands::identity::Identity;
use gorbage_hands::instructions::{
    claim_prize, close_season, collect_fee, emergency_stop, emergency_withdraw, initialize_config,
    initialize_season, register_participant, set_winners, transfer_admin, update_season_timings,
};
use gorbage_hands::state::config::ProgramConfig;
use gorbage_hands::state::participant::Participant;
use gorbage_hands::state::season::{Season, SeasonStatus, Winner};
use gorbage_hands::vault::Vault;

fn id(byte: u8) -> Identity {
    Identity::new([byte; 32])
}

fn season(pool_balance: u64) -> Season {
    Season {
        season_id: 1,
        authority: id(201),
        oracle: None,
        name: String::from("Cup"),
        entry_fee: 100,
        pool_balance,
        participant_count: 0,
        max_participants: 10,
        registration_start: 1_000,
        registration_end: 2_000,
        season_end: 3_000,
        status: SeasonStatus::Registration,
        winners_set: false,
        winners: Vec::new(),
        fee_collected: false,
        fee_amount: 0,
        emergency_active: false,
    }
}

fn decided(pool_balance: u64, winner: Identity, payable_amount: u64) -> Season {
    let mut season = season(pool_balance);
    season.status = SeasonStatus::WinnersSet;
    season.winners_set = true;
    season.winners = vec![Winner { wallet: winner, rank: 1, payable_amount }];
    season
}

fn ranked(wallet: Identity, rank: u8, payable_amount: u64) -> Participant {
    let mut record = Participant::new(1, wallet, 1_500, 100);
    record.rank = rank;
    record.payable_amount = payable_amount;
    record
}

#[test]
fn identities_compare_by_their_bytes() {
    let mut bytes = [5u8; 32];
    assert!(Identity::new(bytes).same(&id(5)));
    bytes[31] = 6;
    assert!(!Identity::new(bytes).same(&id(5)));
    assert_eq!(Identity::new(bytes).to_bytes(), bytes);
}

#[test]
fn every_error_has_its_message() {
    assert_eq!(GorbageError::NotAWinner.message(), "Not a winner");
    assert_eq!(GorbageError::PrizeAlreadyClaimed.message(), "Prize already claimed");
    assert_eq!(GorbageError::InsufficientVaultFunds.message(), "Insufficient funds in vault");
    assert_eq!(GorbageError::ArithmeticOverflow.message(), "Arithmetic overflow");
    assert_eq!(PnlError::InvalidSignature.message(), "Invalid backend signature");
    assert_eq!(PnlError::InvalidNftOwnership.message(), "Invalid Gorbagio NFT ownership");
}

#[test]
fn season_window_is_half_open() {
    let season = season(0);
    assert!(!season.is_registration_open(999));
    assert!(season.is_registration_open(1_000));
    assert!(season.is_registration_open(1_999));
    assert!(!season.is_registration_open(2_000));
    let mut running = season;
    running.status = SeasonStatus::Active;
    assert!(!running.is_registration_open(1_500));
    assert!(!running.has_ended(3_000));
    assert!(running.has_ended(3_001));
}

#[test]
fn config_is_created_once_and_handed_on_by_its_admin() {
    let mut slot: Option<ProgramConfig> = None;
    assert_eq!(initialize_config::handler(&mut slot, id(1)), Ok(()));
    assert_eq!(initialize_config::handler(&mut slot, id(2)), Err(GorbageError::AlreadyInitialized));
    let mut config = slot.unwrap();
    assert!(config.admin.same(&id(1)));
    assert_eq!(transfer_admin::handler(&mut config, &id(2), id(2)), Err(GorbageError::Unauthorized));
    assert_eq!(transfer_admin::handler(&mut config, &id(1), id(2)), Ok(()));
    assert!(config.admin.same(&id(2)));
}

#[test]
fn created_season_comes_with_an_empty_vault() {
    let config = ProgramConfig { admin: id(1) };
    let params = initialize_season::SeasonParams {
        season_id: 9,
        authority: id(2),
        oracle: None,
        name: String::new(),
        entry_fee: 1,
        max_participants: 1,
        registration_start: -5,
        registration_end: 0,
        season_end: 1,
    };
    let (season, vault) = initialize_season::handler(&config, &id(1), params).unwrap();
    assert_eq!(season.season_id, 9);
    assert_eq!(season.status, SeasonStatus::Registration);
    assert!(season.oracle.is_none());
    assert_eq!(vault, Vault { season_id: 9, balance: 0 });
}

#[test]
fn registration_moves_season_and_vault_together() {
    let mut season = season(0);
    let mut vault = Vault::new(1);
    let record = register_participant::handler(&mut season, &mut vault, false, id(1), 1_200).unwrap();
    assert_eq!(record.entry_fee_paid, 100);
    assert_eq!(record.registered_at, 1_200);
    assert_eq!((season.pool_balance, vault.balance, season.participant_count), (100, 100, 1));
    assert_eq!(
        register_participant::handler(&mut season, &mut vault, true, id(1), 1_200).err(),
        Some(GorbageError::DuplicateRegistration)
    );
    assert_eq!((season.pool_balance, vault.balance, season.participant_count), (100, 100, 1));
}

#[test]
fn registration_refuses_a_vault_that_would_wrap() {
    let mut season = season(0);
    let mut vault = Vault { season_id: 1, balance: u64::MAX - 50 };
    assert_eq!(
        register_participant::handler(&mut season, &mut vault, false, id(1), 1_200).err(),
        Some(GorbageError::ArithmeticOverflow)
    );
    assert_eq!((season.pool_balance, vault.balance, season.participant_count), (0, u64::MAX - 50, 0));
}

#[test]
fn fee_needs_a_vault_that_covers_it() {
    let mut season = season(1_000);
    let mut vault = Vault { season_id: 1, balance: 199 };
    assert_eq!(
        collect_fee::handler(&mut season, &mut vault, &id(201), 2_001),
        Err(GorbageError::InsufficientVaultFunds)
    );
    assert_eq!((season.pool_balance, vault.balance, season.fee_collected), (1_000, 199, false));
    vault.balance = 200;
    assert_eq!(collect_fee::handler(&mut season, &mut vault, &id(201), 2_001), Ok(200));
    assert_eq!((season.pool_balance, vault.balance, season.fee_amount), (800, 0, 200));
}

#[test]
fn winners_take_their_amounts_from_the_pool_as_it_stands() {
    let mut season = season(999);
    assert_eq!(set_winners::check(&season, &id(201), &vec![id(1), id(2)], 3_001), None);
    assert_eq!(
        set_winners::check(&season, &id(5), &vec![id(1), id(2)], 3_001),
        Some(GorbageError::Unauthorized)
    );
    assert_eq!(set_winners::handler(&mut season, &id(201), &vec![id(1), id(2)], 3_001), Ok(()));
    assert_eq!(season.status, SeasonStatus::WinnersSet);
    assert_eq!(season.winners.len(), 2);
    assert_eq!((season.winners[0].rank, season.winners[0].payable_amount), (1, 599));
    assert_eq!((season.winners[1].rank, season.winners[1].payable_amount), (2, 399));
    assert!(season.winners[1].wallet.same(&id(2)));
    assert_eq!(season.pool_balance, 999);
}

#[test]
fn prize_is_written_into_the_record_of_the_rank_holder() {
    let mut season = season(1_000);
    let mut first = Participant::new(1, id(1), 1_100, 100);
    assert_eq!(
        set_winners::set_winner_prize(&season, &mut first, &id(201), 1),
        Err(GorbageError::WinnersNotSet)
    );
    set_winners::handler(&mut season, &id(201), &vec![id(1), id(2), id(3)], 3_001).unwrap();
    assert_eq!(
        set_winners::set_winner_prize(&season, &mut first, &id(9), 1),
        Err(GorbageError::Unauthorized)
    );
    assert_eq!(
        set_winners::set_winner_prize(&season, &mut first, &id(201), 0),
        Err(GorbageError::InvalidPlacement)
    );
    assert_eq!(
        set_winners::set_winner_prize(&season, &mut first, &id(201), 4),
        Err(GorbageError::InvalidPlacement)
    );
    assert_eq!(
        set_winners::set_winner_prize(&season, &mut first, &id(201), 2),
        Err(GorbageError::NotAWinner)
    );
    let mut elsewhere = Participant::new(2, id(1), 1_100, 100);
    assert_eq!(
        set_winners::set_winner_prize(&season, &mut elsewhere, &id(201), 1),
        Err(GorbageError::NotRegistered)
    );
    assert_eq!((first.rank, first.payable_amount), (0, 0));
    assert_eq!(set_winners::set_winner_prize(&season, &mut first, &id(201), 1), Ok(()));
    assert_eq!((first.rank, first.payable_amount), (1, 500));
    let mut third = Participant::new(1, id(3), 1_100, 100);
    assert_eq!(set_winners::set_winner_prize(&season, &mut third, &id(201), 3), Ok(()));
    assert_eq!((third.rank, third.payable_amount), (3, 200));
    assert!(third.is_winner());
}

#[test]
fn claim_checks_owner_season_and_funds_before_it_pays() {
    let mut season = decided(500, id(1), 500);
    let mut vault = Vault { season_id: 1, balance: 499 };
    let mut record = ranked(id(1), 1, 500);
    assert_eq!(
        claim_prize::handler(&mut season, &mut record, &mut vault, &id(2)),
        Err(GorbageError::Unauthorized)
    );
    assert_eq!(
        claim_prize::handler(&mut season, &mut record, &mut vault, &id(1)),
        Err(GorbageError::InsufficientVaultFunds)
    );
    assert!(!record.claimed);
    assert_eq!((season.pool_balance, vault.balance), (500, 499));
    vault.balance = 700;
    season.pool_balance = 400;
    assert_eq!(
        claim_prize::handler(&mut season, &mut record, &mut vault, &id(1)),
        Err(GorbageError::ArithmeticOverflow)
    );
    season.pool_balance = 700;
    let mut stranger = ranked(id(1), 1, 500);
    stranger.season_id = 2;
    assert_eq!(
        claim_prize::handler(&mut season, &mut stranger, &mut vault, &id(1)),
        Err(GorbageError::NotRegistered)
    );
    assert_eq!(claim_prize::handler(&mut season, &mut record, &mut vault, &id(1)), Ok(500));
    assert!(record.claimed);
    assert_eq!((season.pool_balance, vault.balance), (200, 200));
    assert_eq!(
        claim_prize::handler(&mut season, &mut record, &mut vault, &id(1)),
        Err(GorbageError::PrizeAlreadyClaimed)
    );
    assert_eq!((season.pool_balance, vault.balance), (200, 200));
}

#[test]
fn closing_needs_winners_and_a_season_that_is_not_running() {
    let mut season = season(30);
    let mut vault = Vault { season_id: 1, balance: 30 };
    assert_eq!(
        close_season::handler(&mut season, &mut vault, &id(201)),
        Err(GorbageError::WinnersNotSet)
    );
    season.winners_set = true;
    season.status = SeasonStatus::Active;
    assert_eq!(
        close_season::handler(&mut season, &mut vault, &id(201)),
        Err(GorbageError::StateConflict)
    );
    assert_eq!((season.pool_balance, vault.balance), (30, 30));
    season.status = SeasonStatus::WinnersSet;
    assert_eq!(close_season::handler(&mut season, &mut vault, &id(201)), Ok(30));
    assert_eq!((season.pool_balance, vault.balance), (0, 0));
    assert_eq!(season.status, SeasonStatus::Finalized);
    assert!(season.is_finalized());
}

#[test]
fn finished_season_takes_no_emergency_stop() {
    let mut season = season(0);
    season.status = SeasonStatus::Finalized;
    assert_eq!(emergency_stop::handler(&mut season, &id(201)), Err(GorbageError::StateConflict));
    assert!(!season.emergency_active);
    season.status = SeasonStatus::Ended;
    assert_eq!(emergency_stop::handler(&mut season, &id(201)), Ok(()));
    assert!(season.emergency_active);
}

#[test]
fn refund_checks_owner_and_pool() {
    let mut season = season(50);
    season.emergency_active = true;
    let mut vault = Vault { season_id: 1, balance: 500 };
    let mut record = Participant::new(1, id(1), 1_100, 100);
    assert_eq!(
        emergency_withdraw::handler(&mut season, &mut record, &mut vault, &id(2)),
        Err(GorbageError::Unauthorized)
    );
    assert_eq!(
        emergency_withdraw::handler(&mut season, &mut record, &mut vault, &id(1)),
        Err(GorbageError::ArithmeticOverflow)
    );
    assert!(!record.emergency_withdrawn);
    season.pool_balance = 500;
    assert_eq!(emergency_withdraw::handler(&mut season, &mut record, &mut vault, &id(1)), Ok(100));
    assert!(record.emergency_withdrawn);
    assert_eq!((season.pool_balance, vault.balance), (400, 400));
}

#[test]
fn retiming_counts_from_now_once_registration_has_begun() {
    let mut season = season(0);
    assert_eq!(update_season_timings::handler(&mut season, &id(201), 1_000, 1, 1), Ok(()));
    assert_eq!(season.registration_end, 1_000 + 3_600);
    assert_eq!(season.season_end, 1_000 + 3_600 + 86_400);
    assert_eq!(update_season_timings::handler(&mut season, &id(201), 999, 1, 1), Ok(()));
    assert_eq!(season.registration_end, 1_000 + 3_600);
    assert_eq!(
        update_season_timings::handler(&mut season, &id(201), 4_600, 1, 1),
        Err(GorbageError::StateConflict)
    );
}
