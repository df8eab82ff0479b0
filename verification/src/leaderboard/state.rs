//! What the leaderboard application keeps between operations.

use vstd::prelude::*;
use crate::leaderboard::{SeasonMetadata, SeasonMetadataView};
use crate::store::Table;

verus! {

/// Four counters per user: score, matches, wins and losses.
pub struct Board {
    pub scores: Table<String, u64>,
    pub total_matches: Table<String, u64>,
    pub total_wins: Table<String, u64>,
    pub total_losses: Table<String, u64>,
}

/// Abstract value of a [`Board`].
pub struct BoardView {
    pub scores: Map<Seq<char>, u64>,
    pub total_matches: Map<Seq<char>, u64>,
    pub total_wins: Map<Seq<char>, u64>,
    pub total_losses: Map<Seq<char>, u64>,
}

impl View for Board {
    type V = BoardView;

    open spec fn view(&self) -> BoardView {
        BoardView {
            scores: self.scores@,
            total_matches: self.total_matches@,
            total_wins: self.total_wins@,
            total_losses: self.total_losses@,
        }
    }
}

/// The counters of past seasons, by season number and user.
pub struct Archive {
    pub scores: Table<(u64, String), u64>,
    pub matches: Table<(u64, String), u64>,
    pub wins: Table<(u64, String), u64>,
    pub losses: Table<(u64, String), u64>,
}

/// Abstract value of an [`Archive`].
pub struct ArchiveView {
    pub scores: Map<(u64, Seq<char>), u64>,
    pub matches: Map<(u64, Seq<char>), u64>,
    pub wins: Map<(u64, Seq<char>), u64>,
    pub losses: Map<(u64, Seq<char>), u64>,
}

impl View for Archive {
    type V = ArchiveView;

    open spec fn view(&self) -> ArchiveView {
        ArchiveView {
            scores: self.scores@,
            matches: self.matches@,
            wins: self.wins@,
            losses: self.losses@,
        }
    }
}

/// The state of the leaderboard application.
pub struct LeaderboardState {
    /// The all-time counters; never reset.
    pub global: Board,
    /// The counters of the current season.
    pub season: Board,
    pub current_season: u64,
    /// The matches whose result was counted.
    pub processed_match_ids: Table<String, bool>,
    /// When each user last played, in microseconds.
    pub last_play_timestamps: Table<String, u64>,
    pub past: Archive,
    pub season_metadata: Table<u64, SeasonMetadata>,
}

/// Abstract value of a [`LeaderboardState`].
pub struct LeaderboardStateView {
    pub global: BoardView,
    pub season: BoardView,
    pub current_season: u64,
    pub processed_match_ids: Map<Seq<char>, bool>,
    pub last_play_timestamps: Map<Seq<char>, u64>,
    pub past: ArchiveView,
    pub season_metadata: Map<u64, SeasonMetadataView>,
}

impl View for LeaderboardState {
    type V = LeaderboardStateView;

    open spec fn view(&self) -> LeaderboardStateView {
        LeaderboardStateView {
            global: self.global@,
            season: self.season@,
            current_season: self.current_season,
            processed_match_ids: self.processed_match_ids@,
            last_play_timestamps: self.last_play_timestamps@,
            past: self.past@,
            season_metadata: self.season_metadata@,
        }
    }
}

impl Board {
    /// A board without rows.
    pub fn new() -> (board: Self)
        ensures
            board@ == Self::empty_view(),
    {
        Board {
            scores: Table::new(),
            total_matches: Table::new(),
            total_wins: Table::new(),
            total_losses: Table::new(),
        }
    }

    /// The abstract value of a board without rows.
    pub open spec fn empty_view() -> BoardView {
        BoardView {
            scores: Map::empty(),
            total_matches: Map::empty(),
            total_wins: Map::empty(),
            total_losses: Map::empty(),
        }
    }
}

impl LeaderboardState {
    /// The state of an application that has done nothing yet.
    pub fn new() -> (state: Self)
        ensures
            state@ == Self::empty_view(),
    {
        LeaderboardState {
            global: Board::new(),
            season: Board::new(),
            current_season: 0,
            processed_match_ids: Table::new(),
            last_play_timestamps: Table::new(),
            past: Archive {
                scores: Table::new(),
                matches: Table::new(),
                wins: Table::new(),
                losses: Table::new(),
            },
            season_metadata: Table::new(),
        }
    }

    /// The abstract value of a fresh state.
    pub open spec fn empty_view() -> LeaderboardStateView {
        LeaderboardStateView {
            global: Board::empty_view(),
            season: Board::empty_view(),
            current_season: 0,
            processed_match_ids: Map::empty(),
            last_play_timestamps: Map::empty(),
            past: ArchiveView {
                scores: Map::empty(),
                matches: Map::empty(),
                wins: Map::empty(),
                losses: Map::empty(),
            },
            season_metadata: Map::empty(),
        }
    }
}

} // verus!
