//! The leaderboard application: win and loss counters per user, over all
//! time and per season, with past seasons archived.

use vstd::prelude::*;

pub mod contract;
pub mod service;
pub mod state;

verus! {

/// One row of a leaderboard.
#[derive(Debug, PartialEq, Eq)]
pub struct LeaderboardEntry {
    pub user_name: String,
    pub total_matches: u64,
    pub total_wins: u64,
    pub total_losses: u64,
    pub score: u64,
}

/// Abstract value of a [`LeaderboardEntry`].
pub struct LeaderboardEntryView {
    pub user_name: Seq<char>,
    pub total_matches: u64,
    pub total_wins: u64,
    pub total_losses: u64,
    pub score: u64,
}

impl DeepView for LeaderboardEntry {
    type V = LeaderboardEntryView;

    open spec fn deep_view(&self) -> LeaderboardEntryView {
        LeaderboardEntryView {
            user_name: self.user_name@,
            total_matches: self.total_matches,
            total_wins: self.total_wins,
            total_losses: self.total_losses,
            score: self.score,
        }
    }
}

impl View for LeaderboardEntry {
    type V = LeaderboardEntryView;

    open spec fn view(&self) -> LeaderboardEntryView {
        self.deep_view()
    }
}

impl crate::ranking::Ranked for LeaderboardEntry {
    open spec fn rank_of(row: LeaderboardEntryView) -> u64 {
        row.score
    }

    fn rank(&self) -> (rank: u64) {
        self.score
    }
}

/// The all-time counters of one user.
#[derive(Debug, PartialEq, Eq)]
pub struct UserGlobalStats {
    pub user_name: String,
    pub total_matches: u64,
    pub total_wins: u64,
    pub total_losses: u64,
    pub score: u64,
    /// When the user last played, in microseconds.
    pub last_play: Option<u64>,
}

/// Abstract value of a [`UserGlobalStats`].
pub struct UserGlobalStatsView {
    pub user_name: Seq<char>,
    pub total_matches: u64,
    pub total_wins: u64,
    pub total_losses: u64,
    pub score: u64,
    pub last_play: Option<u64>,
}

impl DeepView for UserGlobalStats {
    type V = UserGlobalStatsView;

    open spec fn deep_view(&self) -> UserGlobalStatsView {
        UserGlobalStatsView {
            user_name: self.user_name@,
            total_matches: self.total_matches,
            total_wins: self.total_wins,
            total_losses: self.total_losses,
            score: self.score,
            last_play: self.last_play,
        }
    }
}

impl View for UserGlobalStats {
    type V = UserGlobalStatsView;

    open spec fn view(&self) -> UserGlobalStatsView {
        self.deep_view()
    }
}

/// A season as the query surface reports it. The length of an ended season
/// is given in microseconds.
#[derive(Debug, PartialEq, Eq)]
pub struct SeasonInfo {
    pub number: u64,
    pub name: String,
    pub start_time: u64,
    pub end_time: Option<u64>,
    pub duration_micros: Option<u64>,
    pub status: String,
    pub total_players: u64,
}

/// Abstract value of a [`SeasonInfo`].
pub struct SeasonInfoView {
    pub number: u64,
    pub name: Seq<char>,
    pub start_time: u64,
    pub end_time: Option<u64>,
    pub duration_micros: Option<u64>,
    pub status: Seq<char>,
    pub total_players: u64,
}

impl DeepView for SeasonInfo {
    type V = SeasonInfoView;

    open spec fn deep_view(&self) -> SeasonInfoView {
        SeasonInfoView {
            number: self.number,
            name: self.name@,
            start_time: self.start_time,
            end_time: self.end_time,
            duration_micros: self.duration_micros,
            status: self.status@,
            total_players: self.total_players,
        }
    }
}

impl View for SeasonInfo {
    type V = SeasonInfoView;

    open spec fn view(&self) -> SeasonInfoView {
        self.deep_view()
    }
}

/// Lifecycle of a season.
#[derive(Clone, Copy, Debug, PartialEq, Eq, Structural)]
pub enum SeasonStatus {
    Active,
    Ended,
}

/// What is recorded about one season.
#[derive(Debug, PartialEq, Eq)]
pub struct SeasonMetadata {
    pub name: String,
    /// In microseconds.
    pub start_time: u64,
    /// In microseconds; `None` while the season is active.
    pub end_time: Option<u64>,
    pub status: SeasonStatus,
}

/// Abstract value of a [`SeasonMetadata`].
pub struct SeasonMetadataView {
    pub name: Seq<char>,
    pub start_time: u64,
    pub end_time: Option<u64>,
    pub status: SeasonStatus,
}

impl DeepView for SeasonMetadata {
    type V = SeasonMetadataView;

    open spec fn deep_view(&self) -> SeasonMetadataView {
        SeasonMetadataView {
            name: self.name@,
            start_time: self.start_time,
            end_time: self.end_time,
            status: self.status,
        }
    }
}

impl View for SeasonMetadata {
    type V = SeasonMetadataView;

    open spec fn view(&self) -> SeasonMetadataView {
        self.deep_view()
    }
}

impl Clone for SeasonMetadata {
    fn clone(&self) -> (copy: Self)
        ensures
            copy@ == self@,
    {
        SeasonMetadata {
            name: self.name.clone(),
            start_time: self.start_time,
            end_time: self.end_time,
            status: self.status,
        }
    }
}

/// What the leaderboard application is asked to do.
#[derive(Debug, PartialEq, Eq)]
pub enum Operation {
    RecordScore { user_name: String, is_winner: bool, match_id: String },
    StartSeason { name: String },
    EndSeason,
}

/// Abstract value of an [`Operation`].
pub enum OperationView {
    RecordScore { user_name: Seq<char>, is_winner: bool, match_id: Seq<char> },
    StartSeason { name: Seq<char> },
    EndSeason,
}

impl DeepView for Operation {
    type V = OperationView;

    open spec fn deep_view(&self) -> OperationView {
        match self {
            Operation::RecordScore { user_name, is_winner, match_id } => OperationView::RecordScore {
                user_name: user_name@,
                is_winner: *is_winner,
                match_id: match_id@,
            },
            Operation::StartSeason { name } => OperationView::StartSeason { name: name@ },
            Operation::EndSeason => OperationView::EndSeason,
        }
    }
}

impl View for Operation {
    type V = OperationView;

    open spec fn view(&self) -> OperationView {
        self.deep_view()
    }
}

/// The result of one match for one user, as it arrives from another chain.
#[derive(Debug, PartialEq, Eq)]
pub struct RecordScoreMessage {
    pub user_name: String,
    pub is_winner: bool,
    pub match_id: String,
}

/// Abstract value of a [`RecordScoreMessage`].
pub struct RecordScoreMessageView {
    pub user_name: Seq<char>,
    pub is_winner: bool,
    pub match_id: Seq<char>,
}

impl DeepView for RecordScoreMessage {
    type V = RecordScoreMessageView;

    open spec fn deep_view(&self) -> RecordScoreMessageView {
        RecordScoreMessageView {
            user_name: self.user_name@,
            is_winner: self.is_winner,
            match_id: self.match_id@,
        }
    }
}

impl View for RecordScoreMessage {
    type V = RecordScoreMessageView;

    open spec fn view(&self) -> RecordScoreMessageView {
        self.deep_view()
    }
}

} // verus!
