use xfighter_contracts::tournament::contract::{ContractRuntime, TournamentContract};
use xfighter_contracts::tournament::state::{PendingClaim, TournamentState};
use xfighter_contracts::tournament::Parameters;
use xfighter_contracts::tournament_shared::{TournamentMatchInput, TournamentMetadata, TournamentStatus};

const PUBLISHER: &str = "aaaaaaaaaaaaaaaaaaaaaaaaaaaaaaaaaaaaaaaaaaaaaaaaaaaaaaaaaaaaaaaa";
const CHAIN_A: &str = "1111111111111111111111111111111111111111111111111111111111111111";
const OWNER: &str = "0x9999999999999999999999999999999999999999999999999999999999999999";

fn contract_at(now: u64) -> TournamentContract {
    let mut contract = TournamentContract {
        state: TournamentState::new(),
        runtime: ContractRuntime {
            chain_id: PUBLISHER.to_string(),
            application_creator_chain_id: PUBLISHER.to_string(),
            system_time_micros: now,
            authenticated_signer: Some(OWNER.to_string()),
            message_is_bouncing: None,
            application_parameters: Parameters {
                fungible_app_id: "fungible".to_string(),
                tournament_owner: OWNER.to_string(),
                publisher_chain_id: PUBLISHER.to_string(),
            },
        },
    };
    contract.instantiate(None);
    contract
}

fn play_a_season(contract: &mut TournamentContract) {
    contract.set_bracket(vec![TournamentMatchInput {
        match_id: "m1".to_string(),
        player1: "alice".to_string(),
        player2: "bob".to_string(),
        winner: None,
        round: "final".to_string(),
        status: "scheduled".to_string(),
    }]);
    contract.set_match_metadata("m1".to_string(), 60, None, Some("Open".to_string()));
    contract.store_bet("b1".into(), "m1".into(), "alice".into(), 10, "u1".into(), OWNER.into(), CHAIN_A.into());
    contract.store_bet("b2".into(), "m1".into(), "bob".into(), 30, "u2".into(), OWNER.into(), CHAIN_A.into());
    contract.store_bet("b3".into(), "m1".into(), "bob".into(), 5, "u3".into(), OWNER.into(), CHAIN_A.into());
    contract.record_match("m1".into(), "alice".into(), "bob".into());
    contract.record_match("m0".into(), "alice".into(), "carol".into());
    contract.record_match("m2".into(), "bob".into(), "carol".into());
    contract.settle_match_simple("m1".into(), "alice".into());
}

#[test]
fn instantiate_records_season_zero_as_ended() {
    let mut contract = TournamentContract::load(contract_at(0).runtime);
    contract.state.current_total_payouts = 5;
    contract.instantiate(Some(vec!["alice".to_string()]));
    assert_eq!(
        contract.state.tournament_metadata.get(&0),
        Some(&TournamentMetadata {
            name: "Tournament 0".to_string(),
            start_time: 0,
            end_time: Some(0),
            status: TournamentStatus::Ended,
            champion: None,
            runner_up: None,
        })
    );
    assert_eq!(contract.state.participants, vec!["alice".to_string()]);
    assert_eq!(contract.state.airdrop_amount, 10000);
    assert_eq!(contract.state.current_total_payouts, 0);
    assert_eq!(contract.state.current_tournament, 0);
}

#[test]
fn first_season_starts_as_number_one() {
    let mut contract = contract_at(77);
    contract.start_tournament_season("Spring".to_string());
    assert_eq!(contract.state.current_tournament, 1);
    assert_eq!(contract.state.status, "active");
    assert_eq!(
        contract.state.tournament_metadata.get(&1),
        Some(&TournamentMetadata {
            name: "Spring".to_string(),
            start_time: 77,
            end_time: None,
            status: TournamentStatus::Active,
            champion: None,
            runner_up: None,
        })
    );
    // season 0 was ended already: nothing is archived for it
    assert_eq!(contract.state.past_tournament_bets_placed.len(), 0);
    assert_eq!(contract.state.past_tournament_leaderboards.len(), 0);
}

#[test]
fn ending_a_season_archives_and_keeps_the_live_leaderboard() {
    let mut contract = contract_at(100);
    contract.start_tournament_season("Spring".to_string());
    play_a_season(&mut contract);
    contract.runtime.system_time_micros = 900;

    contract.end_tournament_season();

    assert_eq!(contract.state.status, "ended");
    assert_eq!(
        contract.state.tournament_metadata.get(&1),
        Some(&TournamentMetadata {
            name: "Spring".to_string(),
            start_time: 100,
            end_time: Some(900),
            status: TournamentStatus::Ended,
            champion: Some("alice".to_string()),
            runner_up: Some("bob".to_string()),
        })
    );
    assert_eq!(contract.state.past_tournament_leaderboards.get(&(1, "alice".to_string())), Some(&2));
    assert_eq!(contract.state.past_tournament_leaderboards.get(&(1, "bob".to_string())), Some(&1));
    assert_eq!(contract.state.past_tournament_leaderboards.len(), 2);
    assert_eq!(contract.state.past_tournament_bets_placed.get(&1), Some(&3));
    assert_eq!(contract.state.past_tournament_bets_settled.get(&1), Some(&3));
    assert_eq!(contract.state.past_tournament_payouts.get(&1), Some(&45));
    // the live data stays until the next start
    assert_eq!(contract.state.tournament_leaderboard.get(&"alice".to_string()), Some(&2));
    assert_eq!(contract.state.tournament_leaderboard.len(), 2);
    assert_eq!(contract.state.current_total_bets_placed, 3);
    assert_eq!(contract.state.current_tournament, 1);
}

#[test]
fn starting_a_season_archives_the_active_one_and_clears() {
    let mut contract = contract_at(100);
    contract.start_tournament_season("Spring".to_string());
    play_a_season(&mut contract);
    contract.state.airdrop_recipients.insert("c:k".to_string(), ());
    contract.state.pending_claims.insert(
        "c:j".to_string(),
        PendingClaim { user_chain: "c".into(), user_public_key: "j".into(), requested_at: 1 },
    );
    contract.state.participants = vec!["alice".to_string()];
    contract.runtime.system_time_micros = 2_000;

    contract.start_tournament_season("Summer".to_string());

    assert_eq!(contract.state.current_tournament, 2);
    assert_eq!(contract.state.tournament_metadata.get(&1).unwrap().status, TournamentStatus::Ended);
    assert_eq!(contract.state.tournament_metadata.get(&1).unwrap().end_time, Some(2_000));
    assert_eq!(contract.state.tournament_metadata.get(&2).unwrap().status, TournamentStatus::Active);
    assert_eq!(contract.state.tournament_metadata.get(&2).unwrap().name, "Summer");
    assert_eq!(contract.state.past_tournament_leaderboards.get(&(1, "alice".to_string())), Some(&2));
    assert_eq!(contract.state.past_tournament_leaderboards.get(&(1, "bob".to_string())), Some(&1));
    assert_eq!(contract.state.past_tournament_bets_placed.get(&1), Some(&3));
    assert_eq!(contract.state.past_tournament_bets_settled.get(&1), Some(&3));
    assert_eq!(contract.state.past_tournament_payouts.get(&1), Some(&45));
    assert_eq!(contract.state.tournament_leaderboard.len(), 0);
    assert_eq!(contract.state.bracket.len(), 0);
    assert_eq!(contract.state.results.len(), 0);
    assert_eq!(contract.state.bets.len(), 0);
    assert_eq!(contract.state.matches.len(), 0);
    assert_eq!(contract.state.airdrop_recipients.len(), 0);
    assert_eq!(contract.state.pending_claims.len(), 0);
    assert!(contract.state.participants.is_empty());
    assert_eq!(contract.state.current_champion, "");
    assert_eq!(contract.state.current_runner_up, "");
    assert_eq!(contract.state.current_total_bets_placed, 0);
    assert_eq!(contract.state.current_total_bets_settled, 0);
    assert_eq!(contract.state.current_total_payouts, 0);
    assert_eq!(contract.state.status, "active");
}

#[test]
fn archive_of_an_earlier_season_survives_later_seasons() {
    let mut contract = contract_at(100);
    contract.start_tournament_season("Spring".to_string());
    play_a_season(&mut contract);
    contract.start_tournament_season("Summer".to_string());
    contract.record_match("x".into(), "dave".into(), "erin".into());
    contract.start_tournament_season("Autumn".to_string());

    assert_eq!(contract.state.current_tournament, 3);
    assert_eq!(contract.state.past_tournament_leaderboards.get(&(1, "alice".to_string())), Some(&2));
    assert_eq!(contract.state.past_tournament_leaderboards.get(&(2, "dave".to_string())), Some(&1));
    assert_eq!(contract.state.past_tournament_leaderboards.get(&(2, "alice".to_string())), None);
    assert_eq!(contract.state.past_tournament_payouts.get(&1), Some(&45));
    assert_eq!(contract.state.past_tournament_payouts.get(&2), Some(&0));
}

#[test]
fn clearing_removes_what_belongs_to_a_season_only() {
    let mut contract = contract_at(100);
    contract.start_tournament_season("Spring".to_string());
    play_a_season(&mut contract);
    contract.end_tournament_season();
    contract.clear_tournament_data(1);
    assert_eq!(contract.state.tournament_leaderboard.len(), 0);
    assert_eq!(contract.state.matches.len(), 0);
    assert_eq!(contract.state.bets.len(), 0);
    assert_eq!(contract.state.past_tournament_leaderboards.len(), 2);
    assert_eq!(contract.state.tournament_metadata.len(), 2);
    assert_eq!(contract.state.current_total_bets_placed, 3);
    assert_eq!(contract.state.current_champion, "alice");
}
