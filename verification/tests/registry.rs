use xfighter_contracts::tournament::contract::{ContractRuntime, TournamentContract};
use xfighter_contracts::tournament::registry::parse_bet_status;
use xfighter_contracts::tournament::state::{MatchBetStatus, MatchMetadata, TournamentMatch, TournamentState};
use xfighter_contracts::tournament::Parameters;
use xfighter_contracts::tournament_shared::TournamentMatchInput;

const PUBLISHER: &str = "aaaaaaaaaaaaaaaaaaaaaaaaaaaaaaaaaaaaaaaaaaaaaaaaaaaaaaaaaaaaaaaa";
const OWNER: &str = "0x9999999999999999999999999999999999999999999999999999999999999999";

fn contract_at(now: u64) -> TournamentContract {
    TournamentContract {
        state: TournamentState::new(),
        runtime: ContractRuntime {
            chain_id: PUBLISHER.to_string(),
            application_creator_chain_id: PUBLISHER.to_string(),
            system_time_micros: now,
            authenticated_signer: Some(OWNER.to_string()),
            message_is_bouncing: None,
            application_parameters: Parameters {
                fungible_app_id: "fungible".to_string(),
                tournament_owner: OWNER.to_string(),
                publisher_chain_id: PUBLISHER.to_string(),
            },
        },
    }
}

fn input(match_id: &str, player1: &str, player2: &str, round: &str) -> TournamentMatchInput {
    TournamentMatchInput {
        match_id: match_id.to_string(),
        player1: player1.to_string(),
        player2: player2.to_string(),
        winner: None,
        round: round.to_string(),
        status: "scheduled".to_string(),
    }
}

fn waiting(match_id: &str, player1: &str, player2: &str) -> MatchMetadata {
    MatchMetadata {
        match_id: match_id.to_string(),
        betting_deadline_unix: 0,
        betting_start_unix: None,
        bet_status: MatchBetStatus::Waiting,
        player1: player1.to_string(),
        player2: player2.to_string(),
        total_bets_a: 0,
        total_bets_b: 0,
        total_bets_count: 0,
        odds_a: 1000,
        odds_b: 1000,
    }
}

#[test]
fn new_state_is_empty() {
    let contract = TournamentContract::load(contract_at(0).runtime);
    assert_eq!(contract.state.matches.len(), 0);
    assert_eq!(contract.state.bets.len(), 0);
    assert_eq!(contract.state.current_tournament, 0);
    assert_eq!(contract.state.airdrop_amount, 0);
    assert!(contract.state.participants.is_empty());
    assert_eq!(contract.runtime.chain_id, PUBLISHER);
}

#[test]
fn bracket_entry_registers_the_match_as_waiting() {
    let mut contract = contract_at(0);
    contract.set_bracket(vec![input("m1", "alice", "bob", "semi"), input("m2", "carol", "dave", "semi")]);
    assert_eq!(contract.state.matches.get(&"m1".to_string()), Some(&waiting("m1", "alice", "bob")));
    assert_eq!(contract.state.matches.get(&"m2".to_string()), Some(&waiting("m2", "carol", "dave")));
    assert_eq!(
        contract.state.bracket.get(&"m1".to_string()),
        Some(&TournamentMatch {
            match_id: "m1".to_string(),
            player1: "alice".to_string(),
            player2: "bob".to_string(),
            winner: None,
            round: "semi".to_string(),
            match_status: "scheduled".to_string(),
        })
    );
}

#[test]
fn setting_a_bracket_entry_again_keeps_the_betting_metadata() {
    let mut contract = contract_at(7);
    contract.set_bracket(vec![input("m1", "alice", "bob", "semi")]);
    contract.set_match_metadata("m1".to_string(), 5, None, Some("Open".to_string()));
    contract.set_bracket(vec![input("m1", "alice", "zed", "final")]);
    let meta = contract.state.matches.get(&"m1".to_string()).unwrap();
    assert_eq!(meta.bet_status, MatchBetStatus::Open);
    assert_eq!(meta.player2, "bob");
    let entry = contract.state.bracket.get(&"m1".to_string()).unwrap();
    assert_eq!(entry.player2, "zed");
    assert_eq!(entry.round, "final");
    assert_eq!(contract.state.bracket.len(), 1);
}

#[test]
fn opening_sets_start_and_deadline() {
    let mut contract = contract_at(1_000_000);
    contract.set_bracket(vec![input("m1", "alice", "bob", "semi")]);
    contract.set_match_metadata("m1".to_string(), 3, None, Some("Open".to_string()));
    assert_eq!(
        contract.state.matches.get(&"m1".to_string()),
        Some(&MatchMetadata {
            betting_deadline_unix: 1_000_000 + 3 * 60 * 1_000_000,
            betting_start_unix: Some(1_000_000),
            bet_status: MatchBetStatus::Open,
            ..waiting("m1", "alice", "bob")
        })
    );
    contract.set_match_metadata("m1".to_string(), 0, Some(5), Some("Open".to_string()));
    let meta = contract.state.matches.get(&"m1".to_string()).unwrap();
    assert_eq!(meta.betting_start_unix, Some(5));
    assert_eq!(meta.betting_deadline_unix, 1_000_000);
    assert_eq!(meta.bet_status, MatchBetStatus::Open);
}

#[test]
fn waiting_match_may_stay_waiting() {
    let mut contract = contract_at(9);
    contract.set_bracket(vec![input("m1", "alice", "bob", "semi")]);
    contract.set_match_metadata("m1".to_string(), 1, Some(5), None);
    let meta = contract.state.matches.get(&"m1".to_string()).unwrap();
    assert_eq!(meta.bet_status, MatchBetStatus::Waiting);
    assert_eq!(meta.betting_start_unix, Some(5));
    assert_eq!(meta.betting_deadline_unix, 9 + 60_000_000);
    contract.set_match_metadata("m2".to_string(), 1, None, Some("nonsense".to_string()));
    assert_eq!(
        contract.state.matches.get(&"m2".to_string()).unwrap().bet_status,
        MatchBetStatus::Waiting
    );
}

#[test]
fn status_follows_the_lifecycle_only() {
    let status = |contract: &TournamentContract| {
        contract.state.matches.get(&"m1".to_string()).map(|m| (m.bet_status, m.betting_deadline_unix))
    };
    let set = |contract: &mut TournamentContract, minutes: u64, text: &str| {
        contract.set_match_metadata("m1".to_string(), minutes, None, Some(text.to_string()));
    };
    let mut contract = contract_at(0);
    // a match that is not registered cannot start out closed or settled
    set(&mut contract, 1, "Closed");
    set(&mut contract, 1, "Settled");
    assert_eq!(status(&contract), None);
    contract.set_bracket(vec![input("m1", "alice", "bob", "semi")]);
    set(&mut contract, 1, "Closed");
    set(&mut contract, 1, "Settled");
    assert_eq!(status(&contract), Some((MatchBetStatus::Waiting, 0)));
    set(&mut contract, 1, "Open");
    assert_eq!(status(&contract), Some((MatchBetStatus::Open, 60_000_000)));
    // an open match does not go back to waiting and is not settled by hand
    set(&mut contract, 5, "Waiting");
    set(&mut contract, 5, "Settled");
    contract.set_match_metadata("m1".to_string(), 5, None, None);
    assert_eq!(status(&contract), Some((MatchBetStatus::Open, 60_000_000)));
    set(&mut contract, 2, "Open");
    assert_eq!(status(&contract), Some((MatchBetStatus::Open, 120_000_000)));
    set(&mut contract, 3, "Closed");
    assert_eq!(status(&contract), Some((MatchBetStatus::Closed, 180_000_000)));
    // a closed match stays closed
    set(&mut contract, 9, "Open");
    set(&mut contract, 9, "Waiting");
    set(&mut contract, 9, "Settled");
    assert_eq!(status(&contract), Some((MatchBetStatus::Closed, 180_000_000)));
    set(&mut contract, 4, "Closed");
    assert_eq!(status(&contract), Some((MatchBetStatus::Closed, 240_000_000)));
    contract.settle_match_simple("m1".to_string(), "alice".to_string());
    let settled = status(&contract);
    assert_eq!(settled, Some((MatchBetStatus::Settled, 240_000_000)));
    for text in ["Waiting", "Open", "Closed", "Settled"] {
        set(&mut contract, 7, text);
        assert_eq!(status(&contract), settled);
    }
}

#[test]
fn metadata_keeps_the_pool_of_a_match_with_wagers() {
    let mut contract = contract_at(0);
    contract.set_bracket(vec![input("m1", "alice", "bob", "semi")]);
    contract.set_match_metadata("m1".to_string(), 1, None, Some("Open".to_string()));
    contract.store_bet("b1".into(), "m1".into(), "alice".into(), 100, "u".into(), OWNER.into(), PUBLISHER.into());
    contract.store_bet("b2".into(), "m1".into(), "bob".into(), 300, "u".into(), OWNER.into(), PUBLISHER.into());
    contract.runtime.system_time_micros = 10;

    contract.set_match_metadata("m1".to_string(), 2, Some(3), Some("Open".to_string()));

    assert_eq!(
        contract.state.matches.get(&"m1".to_string()),
        Some(&MatchMetadata {
            betting_deadline_unix: 10 + 120_000_000,
            betting_start_unix: Some(3),
            bet_status: MatchBetStatus::Open,
            total_bets_a: 100,
            total_bets_b: 300,
            total_bets_count: 2,
            odds_a: 4000,
            odds_b: 1333,
            ..waiting("m1", "alice", "bob")
        })
    );
    assert_eq!(contract.state.bets.get(&"m1".to_string()).unwrap().len(), 2);

    contract.set_match_metadata("m1".to_string(), 2, None, Some("Closed".to_string()));
    let meta = contract.state.matches.get(&"m1".to_string()).unwrap();
    assert_eq!((meta.total_bets_a, meta.total_bets_b, meta.total_bets_count), (100, 300, 2));
    assert_eq!(meta.bet_status, MatchBetStatus::Closed);
}

#[test]
fn metadata_gives_a_match_without_wagers_a_fresh_pool() {
    let mut contract = contract_at(0);
    contract.state.matches.insert(
        "m1".to_string(),
        MatchMetadata { total_bets_a: 5, total_bets_count: 1, odds_b: 7, ..waiting("m1", "alice", "bob") },
    );
    contract.state.bets.insert("m1".to_string(), Vec::new());
    contract.set_match_metadata("m1".to_string(), 1, None, Some("Open".to_string()));
    assert_eq!(
        contract.state.matches.get(&"m1".to_string()),
        Some(&MatchMetadata {
            betting_deadline_unix: 60_000_000,
            betting_start_unix: Some(0),
            bet_status: MatchBetStatus::Open,
            ..waiting("m1", "alice", "bob")
        })
    );
}

#[test]
fn opening_a_match_that_is_only_in_the_bracket_takes_its_players() {
    let mut contract = contract_at(0);
    contract.state.bracket.insert(
        "m9".to_string(),
        TournamentMatch {
            match_id: "m9".to_string(),
            player1: "p".to_string(),
            player2: "q".to_string(),
            winner: None,
            round: "r".to_string(),
            match_status: "s".to_string(),
        },
    );
    contract.set_match_metadata("m9".to_string(), 1, None, Some("Open".to_string()));
    let meta = contract.state.matches.get(&"m9".to_string()).unwrap();
    assert_eq!((meta.player1.as_str(), meta.player2.as_str()), ("p", "q"));
}

#[test]
fn opening_an_unknown_match_uses_placeholders() {
    let mut contract = contract_at(0);
    contract.set_match_metadata("nowhere".to_string(), 1, None, Some("Open".to_string()));
    let meta = contract.state.matches.get(&"nowhere".to_string()).unwrap();
    assert_eq!(meta.player1, "Unknown");
    assert_eq!(meta.player2, "Unknown");
    assert_eq!(meta.bet_status, MatchBetStatus::Open);
}

#[test]
fn settled_match_is_not_reopened() {
    let mut contract = contract_at(0);
    contract.set_bracket(vec![input("m1", "alice", "bob", "semi")]);
    contract.set_match_metadata("m1".to_string(), 1, None, Some("Open".to_string()));
    contract.settle_match_simple("m1".to_string(), "alice".to_string());
    let settled = contract.state.matches.get(&"m1".to_string()).unwrap().clone();
    assert_eq!(settled.bet_status, MatchBetStatus::Settled);

    contract.runtime.system_time_micros = 99;
    contract.set_match_metadata("m1".to_string(), 10, None, Some("Open".to_string()));

    assert_eq!(contract.state.matches.get(&"m1".to_string()), Some(&settled));
}

#[test]
fn status_texts_are_read_as_written() {
    assert_eq!(parse_bet_status(&Some("Waiting".to_string())), MatchBetStatus::Waiting);
    assert_eq!(parse_bet_status(&Some("Open".to_string())), MatchBetStatus::Open);
    assert_eq!(parse_bet_status(&Some("Closed".to_string())), MatchBetStatus::Closed);
    assert_eq!(parse_bet_status(&Some("Settled".to_string())), MatchBetStatus::Settled);
    assert_eq!(parse_bet_status(&Some("open".to_string())), MatchBetStatus::Waiting);
    assert_eq!(parse_bet_status(&Some(String::new())), MatchBetStatus::Waiting);
    assert_eq!(parse_bet_status(&None), MatchBetStatus::Waiting);
}

#[test]
fn participants_get_a_row_with_score_zero() {
    let mut contract = contract_at(0);
    contract.state.tournament_leaderboard.insert("alice".to_string(), 4);
    contract.state.tournament_leaderboard.insert("zed".to_string(), 2);
    contract.set_participants(vec!["alice".to_string(), "bob".to_string()]);
    assert_eq!(contract.state.participants, vec!["alice".to_string(), "bob".to_string()]);
    assert_eq!(contract.state.tournament_leaderboard.get(&"alice".to_string()), Some(&0));
    assert_eq!(contract.state.tournament_leaderboard.get(&"bob".to_string()), Some(&0));
    assert_eq!(contract.state.tournament_leaderboard.get(&"zed".to_string()), Some(&2));
    assert_eq!(contract.state.tournament_leaderboard.len(), 3);
}

#[test]
fn recorded_match_completes_the_bracket_and_counts_the_win() {
    let mut contract = contract_at(0);
    contract.instantiate(None);
    contract.start_tournament_season("S".to_string());
    contract.set_bracket(vec![input("m1", "alice", "bob", "semi")]);
    contract.record_match("m1".to_string(), "alice".to_string(), "bob".to_string());
    assert_eq!(
        contract.state.results.get(&"m1".to_string()),
        Some(&("alice".to_string(), "bob".to_string()))
    );
    let entry = contract.state.bracket.get(&"m1".to_string()).unwrap();
    assert_eq!(entry.winner, Some("alice".to_string()));
    assert_eq!(entry.match_status, "completed");
    assert_eq!(contract.state.tournament_leaderboard.get(&"alice".to_string()), Some(&1));
    assert_eq!(contract.state.current_champion, "alice");
    assert_eq!(contract.state.current_runner_up, "");
    let meta = contract.state.tournament_metadata.get(&1).unwrap();
    assert_eq!(meta.champion, Some("alice".to_string()));
    assert_eq!(meta.runner_up, None);
}

#[test]
fn invalid_result_is_ignored() {
    let mut contract = contract_at(0);
    contract.record_match(String::new(), "alice".to_string(), "bob".to_string());
    contract.record_match("m1".to_string(), String::new(), "bob".to_string());
    contract.record_match("m1".to_string(), "alice".to_string(), String::new());
    assert_eq!(contract.state.results.len(), 0);
    assert_eq!(contract.state.tournament_leaderboard.len(), 0);
    assert_eq!(contract.state.current_champion, "");
}

#[test]
fn champion_and_runner_up_follow_the_scores() {
    let mut contract = contract_at(0);
    let win = |c: &mut TournamentContract, who: &str| c.update_tournament_leaderboard(&who.to_string());
    win(&mut contract, "alice");
    assert_eq!((contract.state.current_champion.as_str(), contract.state.current_runner_up.as_str()), ("alice", ""));
    win(&mut contract, "bob");
    // bob has 1, alice has 1: bob does not pass alice, but passes the empty runner-up
    assert_eq!((contract.state.current_champion.as_str(), contract.state.current_runner_up.as_str()), ("alice", "bob"));
    win(&mut contract, "bob");
    assert_eq!((contract.state.current_champion.as_str(), contract.state.current_runner_up.as_str()), ("bob", "alice"));
    win(&mut contract, "bob");
    assert_eq!((contract.state.current_champion.as_str(), contract.state.current_runner_up.as_str()), ("bob", "alice"));
    win(&mut contract, "carol");
    win(&mut contract, "carol");
    assert_eq!((contract.state.current_champion.as_str(), contract.state.current_runner_up.as_str()), ("bob", "carol"));
    assert_eq!(contract.state.tournament_leaderboard.get(&"bob".to_string()), Some(&3));
    assert_eq!(contract.state.tournament_leaderboard.get(&"carol".to_string()), Some(&2));
}
