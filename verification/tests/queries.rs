use xfighter_contracts::tournament::contract::{ContractRuntime, TournamentContract};
use xfighter_contracts::tournament::service::{
    bet_status_name, pool_share_percent, AirdropInfo, BettingAnalytics, MatchMetadataOutput,
    MatchResultOutput, PastTournamentAnalytics, PendingClaimOutput, TournamentService,
};
use xfighter_contracts::tournament::state::{MatchBetStatus, TournamentState};
use xfighter_contracts::tournament::Parameters;
use xfighter_contracts::tournament_shared::{LeaderboardEntry, TournamentInfo, TournamentMatchInput};

const PUBLISHER: &str = "aaaaaaaaaaaaaaaaaaaaaaaaaaaaaaaaaaaaaaaaaaaaaaaaaaaaaaaaaaaaaaaa";
const CHAIN_A: &str = "1111111111111111111111111111111111111111111111111111111111111111";
const OWNER: &str = "0x9999999999999999999999999999999999999999999999999999999999999999";

fn contract_at(now: u64) -> TournamentContract {
    let mut contract = TournamentContract {
        state: TournamentState::new(),
        runtime: ContractRuntime {
            chain_id: PUBLISHER.to_string(),
            application_creator_chain_id: PUBLISHER.to_string(),
            system_time_micros: now,
            authenticated_signer: Some(OWNER.to_string()),
            message_is_bouncing: None,
            application_parameters: Parameters {
                fungible_app_id: "fungible".to_string(),
                tournament_owner: OWNER.to_string(),
                publisher_chain_id: PUBLISHER.to_string(),
            },
        },
    };
    contract.instantiate(None);
    contract
}

fn open_match(contract: &mut TournamentContract, match_id: &str) {
    contract.set_bracket(vec![TournamentMatchInput {
        match_id: match_id.to_string(),
        player1: "alice".to_string(),
        player2: "bob".to_string(),
        winner: None,
        round: "final".to_string(),
        status: "scheduled".to_string(),
    }]);
    contract.set_match_metadata(match_id.to_string(), 1, None, Some("Open".to_string()));
}

fn bet(contract: &mut TournamentContract, bet_id: &str, match_id: &str, player: &str, amount: u64) {
    contract.store_bet(bet_id.into(), match_id.into(), player.into(), amount, "u".into(), OWNER.into(), CHAIN_A.into());
}

fn row(name: &str, score: u64) -> LeaderboardEntry {
    LeaderboardEntry { username: name.to_string(), score }
}

#[test]
fn match_report_computes_odds_and_shares_from_the_totals() {
    let mut contract = contract_at(10);
    open_match(&mut contract, "m1");
    bet(&mut contract, "b1", "m1", "alice", 100);
    bet(&mut contract, "b2", "m1", "bob", 300);
    bet(&mut contract, "b3", "m1", "carol", 1);
    let service = TournamentService { state: contract.state };
    assert_eq!(
        service.match_metadata("m1".to_string()),
        Some(MatchMetadataOutput {
            match_id: "m1".to_string(),
            player1: "alice".to_string(),
            player2: "bob".to_string(),
            betting_deadline_unix: 10 + 60_000_000,
            betting_start_unix: Some(10),
            odds_a: 4000,
            odds_b: 1333,
            total_bets_a: 100,
            total_bets_b: 300,
            total_pool: 400,
            total_bets_count: 2,
            bet_distribution_a: 25,
            bet_distribution_b: 75,
            bet_status: "Open".to_string(),
        })
    );
    assert_eq!(service.match_metadata("other".to_string()), None);
    assert_eq!(service.get_bets("m1".to_string()).len(), 2);
    assert_eq!(service.get_bets("m1".to_string())[1].predicted, "bob");
    assert!(service.get_bets("other".to_string()).is_empty());
}

#[test]
fn match_report_of_an_empty_pool_is_even() {
    let mut contract = contract_at(10);
    open_match(&mut contract, "m1");
    let service = TournamentService { state: contract.state };
    let report = service.match_metadata("m1".to_string()).unwrap();
    assert_eq!((report.odds_a, report.odds_b), (1000, 1000));
    assert_eq!((report.bet_distribution_a, report.bet_distribution_b), (50, 50));
    assert_eq!(report.total_pool, 0);
    assert_eq!(report.total_bets_count, 0);
}

#[test]
fn match_report_of_a_settled_match_shows_the_frozen_count() {
    let mut contract = contract_at(10);
    open_match(&mut contract, "m1");
    bet(&mut contract, "b1", "m1", "alice", 1);
    bet(&mut contract, "b2", "m1", "bob", 2);
    contract.settle_match_simple("m1".to_string(), "bob".to_string());
    let service = TournamentService { state: contract.state };
    let report = service.match_metadata("m1".to_string()).unwrap();
    assert_eq!(report.total_bets_count, 2);
    assert_eq!(report.bet_status, "Settled");
    assert_eq!(report.bet_distribution_a, 33);
    assert_eq!(report.bet_distribution_b, 67);
    assert!(service.get_bets("m1".to_string()).is_empty());
}

#[test]
fn shares_and_status_names() {
    assert_eq!(pool_share_percent(0, 0), 50);
    assert_eq!(pool_share_percent(0, 10), 0);
    assert_eq!(pool_share_percent(10, 10), 100);
    assert_eq!(pool_share_percent(1, 3), 33);
    assert_eq!(pool_share_percent(u64::MAX, u64::MAX), 100);
    assert_eq!(bet_status_name(MatchBetStatus::Waiting), "Waiting");
    assert_eq!(bet_status_name(MatchBetStatus::Open), "Open");
    assert_eq!(bet_status_name(MatchBetStatus::Closed), "Closed");
    assert_eq!(bet_status_name(MatchBetStatus::Settled), "Settled");
}

#[test]
fn seasons_are_reported_from_metadata_or_by_default() {
    let mut contract = contract_at(1_000);
    contract.start_tournament_season("Spring".to_string());
    contract.record_match("m".into(), "alice".into(), "bob".into());
    contract.runtime.system_time_micros = 4_000;
    contract.start_tournament_season("Summer".to_string());
    let service = TournamentService { state: contract.state };
    assert_eq!(
        service.tournament_info(1),
        Some(TournamentInfo {
            number: 1,
            name: "Spring".to_string(),
            start_time: 1_000,
            end_time: Some(4_000),
            duration_micros: Some(3_000),
            status: "ended".to_string(),
            champion: Some("alice".to_string()),
            runner_up: None,
        })
    );
    assert_eq!(
        service.current_tournament_info(),
        Some(TournamentInfo {
            number: 2,
            name: "Summer".to_string(),
            start_time: 4_000,
            end_time: None,
            duration_micros: None,
            status: "active".to_string(),
            champion: None,
            runner_up: None,
        })
    );
    assert_eq!(service.get_tournament_info(0).unwrap().duration_micros, Some(0));
    let mut service = service;
    service.state.tournament_metadata.remove(&1);
    assert_eq!(
        service.tournament_info(1),
        Some(TournamentInfo {
            number: 1,
            name: "Tournament 1".to_string(),
            start_time: 0,
            end_time: None,
            duration_micros: None,
            status: "ended".to_string(),
            champion: None,
            runner_up: None,
        })
    );
    let unknown = service.tournament_info(40).unwrap();
    assert_eq!(unknown.name, "Tournament 40");
    assert_eq!(unknown.status, "active");
    assert_eq!(service.tournament_numbers(), vec![0, 2]);
}

#[test]
fn leaderboards_are_ordered_by_score() {
    let mut contract = contract_at(0);
    contract.start_tournament_season("Spring".to_string());
    contract.set_participants(vec!["dave".to_string()]);
    for winner in ["alice", "bob", "bob", "carol", "carol", "carol", "alice"] {
        contract.record_match("m".into(), winner.into(), "x".into());
    }
    contract.start_tournament_season("Summer".to_string());
    contract.record_match("m".into(), "zed".into(), "x".into());
    let service = TournamentService { state: contract.state };
    assert_eq!(service.tournament_leaderboard(), vec![row("zed", 1)]);
    assert_eq!(
        service.past_tournament_leaderboard(1),
        vec![row("carol", 3), row("alice", 2), row("bob", 2), row("dave", 0)]
    );
    assert_eq!(service.get_past_tournament_entries(2), vec![]);
    assert_eq!(service.participants(), Vec::<String>::new());
    assert_eq!(
        service.results(),
        vec![MatchResultOutput { match_id: "m".into(), winner: "zed".into(), loser: "x".into() }]
    );
}

#[test]
fn analytics_are_reported_latest_season_first() {
    let mut contract = contract_at(0);
    contract.start_tournament_season("One".to_string());
    open_match(&mut contract, "m1");
    bet(&mut contract, "b1", "m1", "alice", 100);
    contract.settle_match_simple("m1".into(), "alice".into());
    contract.start_tournament_season("Two".to_string());
    open_match(&mut contract, "m2");
    bet(&mut contract, "b2", "m2", "alice", 1);
    bet(&mut contract, "b3", "m2", "bob", 1);
    contract.start_tournament_season("Three".to_string());
    let mut service = TournamentService { state: contract.state };
    let one = PastTournamentAnalytics { tournament_number: 1, total_bets_placed: 1, total_bets_settled: 1, total_payouts: 100 };
    let two = PastTournamentAnalytics { tournament_number: 2, total_bets_placed: 2, total_bets_settled: 0, total_payouts: 0 };
    assert_eq!(service.all_tournament_analytics(), vec![two, one]);
    assert_eq!(service.past_tournament_analytics(1), Some(one));
    assert_eq!(service.past_tournament_analytics(3), None);
    assert_eq!(
        service.betting_analytics(),
        BettingAnalytics { current_total_bets_placed: 0, current_total_bets_settled: 0, current_total_payouts: 0, current_tournament: 3 }
    );
    service.state.past_tournament_payouts.remove(&2);
    assert_eq!(service.all_tournament_analytics(), vec![one]);
    assert_eq!(service.past_tournament_analytics(2), None);
    assert_eq!(service.airdrop_info(), AirdropInfo { amount: 10000 });
}

#[test]
fn bracket_claims_and_applications_are_listed() {
    let mut contract = contract_at(3);
    open_match(&mut contract, "m1");
    open_match(&mut contract, "m2");
    contract.request_initial_claim("c1".to_string(), "k1".to_string());
    contract.state.user_xfighter_app_ids.insert("c1".to_string(), "app1".to_string());
    let service = TournamentService { state: contract.state };
    let bracket = service.bracket();
    assert_eq!(bracket.len(), 2);
    assert_eq!(bracket[0].match_id, "m1");
    assert_eq!(bracket[1].match_id, "m2");
    assert_eq!(
        service.pending_claims(),
        vec![PendingClaimOutput {
            user_key: "c1:k1".to_string(),
            user_chain: "c1".to_string(),
            user_public_key: "k1".to_string(),
            requested_at: 3,
        }]
    );
    assert_eq!(service.registered_userxfighter_apps(), vec![("c1".to_string(), "app1".to_string())]);
}
