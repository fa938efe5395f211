use amm_sim_rs::evm::strategy::EVMError;
use amm_sim_rs::simulation::engine::{decimal_string, pool_name, stream_seeds, SimulationError};
use amm_sim_rs::simulation::runner::{validate_strategy_count, worker_count};
use amm_sim_rs::types::result::{overall_winner, win_counts, MatchOutcome};

#[test]
fn simulation_error_messages() {
    assert_eq!(SimulationError::EVMError("a".to_string()).message(), "EVM error: a");
    assert_eq!(SimulationError::InvalidConfig("b".to_string()).message(), "Invalid config: b");
    let e = SimulationError::from_evm(&EVMError::DeploymentFailed("boom".to_string()));
    match &e {
        SimulationError::EVMError(m) => assert_eq!(m, "Deployment failed: boom"),
        other => panic!("unexpected: {:?}", other),
    }
    assert_eq!(e.message(), "EVM error: Deployment failed: boom");
    let e = SimulationError::from_evm(&EVMError::OutOfGas);
    assert_eq!(e.message(), "EVM error: Out of gas");
}

#[test]
fn stream_seeds_differ_by_one() {
    assert_eq!(stream_seeds(Some(42)), (42, 43));
    assert_eq!(stream_seeds(None), (0, 1));
    assert_eq!(stream_seeds(Some(0)), (0, 1));
    assert_eq!(stream_seeds(Some(u64::MAX - 1)), (u64::MAX - 1, u64::MAX));
}

fn config_error(n: usize) -> String {
    match validate_strategy_count(n) {
        Err(SimulationError::InvalidConfig(m)) => m,
        other => panic!("unexpected: {:?}", other),
    }
}

#[test]
fn n_way_match_takes_two_to_ten_strategies() {
    assert_eq!(config_error(0), "At least 2 strategies required for n-way match");
    assert_eq!(config_error(1), "At least 2 strategies required for n-way match");
    for n in 2..=10 {
        assert!(validate_strategy_count(n).is_ok());
    }
    assert_eq!(config_error(11), "Maximum 10 strategies allowed for n-way match");
    assert_eq!(config_error(usize::MAX), "Maximum 10 strategies allowed for n-way match");
}

#[test]
fn workers_default_to_at_most_eight() {
    assert_eq!(worker_count(Some(3), 64), 3);
    assert_eq!(worker_count(Some(32), 4), 32);
    assert_eq!(worker_count(None, 4), 4);
    assert_eq!(worker_count(None, 8), 8);
    assert_eq!(worker_count(None, 64), 8);
    assert_eq!(worker_count(None, 0), 0);
}

#[test]
fn wins_and_draws_are_counted() {
    assert_eq!(win_counts(&[]), (0, 0, 0));
    assert_eq!(win_counts(&[MatchOutcome::FirstWins]), (1, 0, 0));
    let outcomes = [
        MatchOutcome::FirstWins,
        MatchOutcome::SecondWins,
        MatchOutcome::Draw,
        MatchOutcome::FirstWins,
        MatchOutcome::FirstWins,
        MatchOutcome::Draw,
        MatchOutcome::SecondWins,
    ];
    let (a, b, d) = win_counts(&outcomes);
    assert_eq!((a, b, d), (3, 2, 2));
    assert_eq!((a + b + d) as usize, outcomes.len());
}

#[test]
fn more_wins_take_the_batch() {
    assert_eq!(overall_winner(3, 2), MatchOutcome::FirstWins);
    assert_eq!(overall_winner(2, 3), MatchOutcome::SecondWins);
    assert_eq!(overall_winner(2, 2), MatchOutcome::Draw);
    assert_eq!(overall_winner(0, 0), MatchOutcome::Draw);
}

#[test]
fn pools_are_named_by_their_place() {
    assert_eq!(pool_name(0, true), "submission");
    assert_eq!(pool_name(1, true), "normalizer");
    assert_eq!(pool_name(2, true), "Strategy_2");
    assert_eq!(pool_name(0, false), "Strategy_0");
    assert_eq!(pool_name(1, false), "Strategy_1");
    assert_eq!(pool_name(9, false), "Strategy_9");
    assert_eq!(pool_name(10, false), "Strategy_10");
    assert_eq!(pool_name(12345, false), "Strategy_12345");
}

#[test]
fn numbers_are_written_in_decimal() {
    assert_eq!(decimal_string(0), "0");
    assert_eq!(decimal_string(7), "7");
    assert_eq!(decimal_string(10), "10");
    assert_eq!(decimal_string(109), "109");
    assert_eq!(decimal_string(usize::MAX), usize::MAX.to_string());
}
