use xfighter_contracts::leaderboard::contract::LeaderboardContract;
use xfighter_contracts::leaderboard::service::{take_top, LeaderboardService};
use xfighter_contracts::leaderboard::state::Board;
use xfighter_contracts::leaderboard::{
    LeaderboardEntry, Operation, RecordScoreMessage, SeasonInfo, SeasonMetadata, SeasonStatus,
    UserGlobalStats,
};

fn entry(name: &str, matches: u64, wins: u64, losses: u64) -> LeaderboardEntry {
    LeaderboardEntry {
        user_name: name.to_string(),
        total_matches: matches,
        total_wins: wins,
        total_losses: losses,
        score: wins,
    }
}

fn started(now: u64) -> LeaderboardContract {
    let mut contract = LeaderboardContract::load(now);
    contract.instantiate();
    contract.start_season("ignored".to_string());
    contract
}

fn score(contract: &mut LeaderboardContract, user: &str, win: bool, match_id: &str) {
    contract.update_score_and_stats(user.to_string(), win, match_id.to_string());
}

#[test]
fn leaderboard_starts_with_season_zero_ended() {
    let mut contract = LeaderboardContract::load(5);
    contract.instantiate();
    assert_eq!(contract.state.current_season, 0);
    assert_eq!(
        contract.state.season_metadata.get(&0),
        Some(&SeasonMetadata {
            name: "Season 0".to_string(),
            start_time: 0,
            end_time: Some(0),
            status: SeasonStatus::Ended,
        })
    );
}

#[test]
fn results_are_not_counted_while_the_season_is_ended() {
    let mut contract = LeaderboardContract::load(5);
    contract.instantiate();
    score(&mut contract, "alice", true, "m1");
    assert_eq!(contract.state.global.scores.len(), 0);
    assert_eq!(contract.state.processed_match_ids.len(), 0);
    assert_eq!(contract.state.last_play_timestamps.len(), 0);
}

#[test]
fn results_are_counted_when_no_metadata_says_otherwise() {
    let mut contract = LeaderboardContract::load(5);
    score(&mut contract, "alice", true, "m1");
    assert_eq!(contract.state.global.scores.get(&"alice".to_string()), Some(&1));
}

#[test]
fn wins_and_losses_are_counted_globally_and_per_season() {
    let mut contract = started(10);
    score(&mut contract, "alice", true, "m1");
    score(&mut contract, "bob", false, "m1");
    contract.system_time_micros = 20;
    score(&mut contract, "alice", false, "m2");
    contract.execute_message(RecordScoreMessage {
        user_name: "alice".to_string(),
        is_winner: true,
        match_id: "m3".to_string(),
    });
    contract.execute_operation(Operation::RecordScore {
        user_name: "bob".to_string(),
        is_winner: true,
        match_id: "m3".to_string(),
    });

    let service = LeaderboardService { state: contract.state };
    assert_eq!(service.global_leaderboard(None), vec![entry("alice", 3, 2, 1), entry("bob", 2, 1, 1)]);
    assert_eq!(service.current_season_leaderboard(None), vec![entry("alice", 3, 2, 1), entry("bob", 2, 1, 1)]);
    assert_eq!(service.state.processed_match_ids.len(), 3);
    assert_eq!(service.state.processed_match_ids.get(&"m2".to_string()), Some(&true));
    assert_eq!(service.state.last_play_timestamps.get(&"alice".to_string()), Some(&20));
    assert_eq!(service.state.last_play_timestamps.get(&"bob".to_string()), Some(&20));
    assert_eq!(
        service.user_global_stats("alice".to_string()),
        Some(UserGlobalStats {
            user_name: "alice".to_string(),
            total_matches: 3,
            total_wins: 2,
            total_losses: 1,
            score: 2,
            last_play: Some(20),
        })
    );
    assert_eq!(service.user_global_stats("nobody".to_string()), None);
}

#[test]
fn new_season_archives_and_resets_the_season_board_only() {
    let mut contract = started(10);
    score(&mut contract, "alice", true, "m1");
    score(&mut contract, "bob", false, "m1");
    score(&mut contract, "alice", true, "m2");
    contract.system_time_micros = 500;

    contract.execute_operation(Operation::StartSeason { name: "whatever".to_string() });

    assert_eq!(contract.state.current_season, 2);
    assert_eq!(
        contract.state.season_metadata.get(&1),
        Some(&SeasonMetadata {
            name: "Season 1".to_string(),
            start_time: 10,
            end_time: Some(500),
            status: SeasonStatus::Ended,
        })
    );
    assert_eq!(
        contract.state.season_metadata.get(&2),
        Some(&SeasonMetadata {
            name: "Season 2".to_string(),
            start_time: 500,
            end_time: None,
            status: SeasonStatus::Active,
        })
    );
    score(&mut contract, "carol", true, "m9");
    let service = LeaderboardService { state: contract.state };
    assert_eq!(service.current_season_leaderboard(None), vec![entry("carol", 1, 1, 0)]);
    assert_eq!(
        service.global_leaderboard(None),
        vec![entry("alice", 2, 2, 0), entry("carol", 1, 1, 0), entry("bob", 1, 0, 1)]
    );
    assert_eq!(service.season_leaderboard(1, None), vec![entry("alice", 2, 2, 0), entry("bob", 1, 0, 1)]);
    assert_eq!(service.season_leaderboard(1, Some(1)), vec![entry("alice", 2, 2, 0)]);
    assert_eq!(service.season_leaderboard(2, None), vec![]);
}

#[test]
fn ending_a_season_keeps_the_season_board() {
    let mut contract = started(10);
    score(&mut contract, "alice", true, "m1");
    contract.system_time_micros = 70;
    contract.execute_operation(Operation::EndSeason);
    assert_eq!(contract.state.season.scores.get(&"alice".to_string()), Some(&1));
    assert_eq!(contract.state.past.scores.get(&(1, "alice".to_string())), Some(&1));
    assert_eq!(contract.state.past.matches.get(&(1, "alice".to_string())), Some(&1));
    assert_eq!(contract.state.past.wins.get(&(1, "alice".to_string())), Some(&1));
    assert_eq!(contract.state.past.losses.get(&(1, "alice".to_string())), Some(&0));
    assert_eq!(contract.state.season_metadata.get(&1).unwrap().end_time, Some(70));
    // ended: further results are not counted
    score(&mut contract, "alice", true, "m2");
    assert_eq!(contract.state.season.scores.get(&"alice".to_string()), Some(&1));
    assert_eq!(contract.state.global.scores.get(&"alice".to_string()), Some(&1));
}

#[test]
fn incomplete_row_is_not_archived() {
    let mut contract = started(10);
    score(&mut contract, "alice", true, "m1");
    contract.state.season.scores.insert("ghost".to_string(), 4);
    contract.end_season();
    assert_eq!(contract.state.past.scores.get(&(1, "ghost".to_string())), None);
    assert_eq!(contract.state.past.scores.len(), 1);
}

#[test]
fn limits_cut_the_leaderboard() {
    let mut contract = started(10);
    for (i, user) in ["a", "b", "c", "d", "e", "f", "g", "h", "i", "j"].iter().enumerate() {
        for _ in 0..=i {
            score(&mut contract, user, true, "m");
        }
    }
    let service = LeaderboardService { state: contract.state };
    let top: Vec<String> = service.tournament_top_8().into_iter().map(|e| e.user_name).collect();
    assert_eq!(top, vec!["j", "i", "h", "g", "f", "e", "d", "c"]);
    assert_eq!(service.global_leaderboard(Some(0)), vec![]);
    assert_eq!(service.global_leaderboard(Some(2)).len(), 2);
    assert_eq!(service.global_leaderboard(Some(100)).len(), 10);
    assert_eq!(service.get_leaderboard_entries("global", Some(1)), vec![entry("j", 10, 10, 0)]);
    assert_eq!(service.get_leaderboard_entries("season", Some(1)), vec![entry("j", 10, 10, 0)]);
    assert_eq!(take_top(vec![entry("x", 1, 1, 0), entry("y", 1, 0, 1)], Some(1)), vec![entry("x", 1, 1, 0)]);
    assert_eq!(take_top(vec![entry("x", 1, 1, 0)], None), vec![entry("x", 1, 1, 0)]);
}

#[test]
fn seasons_are_reported_with_their_players() {
    let mut contract = started(100);
    score(&mut contract, "alice", true, "m1");
    score(&mut contract, "bob", true, "m1");
    contract.system_time_micros = 400;
    contract.start_season("x".to_string());
    score(&mut contract, "carol", true, "m2");
    let mut service = LeaderboardService { state: contract.state };
    assert_eq!(
        service.season_info(1),
        Some(SeasonInfo {
            number: 1,
            name: "Season 1".to_string(),
            start_time: 100,
            end_time: Some(400),
            duration_micros: Some(300),
            status: "ended".to_string(),
            total_players: 2,
        })
    );
    assert_eq!(
        service.current_season_info(),
        Some(SeasonInfo {
            number: 2,
            name: "Season 2".to_string(),
            start_time: 400,
            end_time: None,
            duration_micros: None,
            status: "active".to_string(),
            total_players: 1,
        })
    );
    service.state.season_metadata.remove(&1);
    assert_eq!(
        service.get_season_info(1),
        Some(SeasonInfo {
            number: 1,
            name: "Season 1".to_string(),
            start_time: 0,
            end_time: None,
            duration_micros: None,
            status: "ended".to_string(),
            total_players: 0,
        })
    );
    assert_eq!(service.get_season_info(7).unwrap().status, "active");
    assert_eq!(service.get_season_info(7).unwrap().name, "Season 7");
}

#[test]
fn board_counts_one_match_at_a_time() {
    let mut board = Board::new();
    board.count_match(&"u".to_string(), false);
    board.count_match(&"u".to_string(), true);
    board.count_match(&"u".to_string(), false);
    assert_eq!(board.total_matches.get(&"u".to_string()), Some(&3));
    assert_eq!(board.total_wins.get(&"u".to_string()), Some(&1));
    assert_eq!(board.total_losses.get(&"u".to_string()), Some(&2));
    assert_eq!(board.scores.get(&"u".to_string()), Some(&1));
}
