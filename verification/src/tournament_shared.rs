//! Types shared by the tournament application and the applications that talk
//! to it: season metadata, bracket input, and the operations and messages
//! that cross application and chain boundaries.
//!
//! Chain, application and account identifiers are held in their canonical
//! text form.

use vstd::prelude::*;

verus! {

/// Lifecycle of a tournament season.
#[derive(Clone, Copy, Debug, PartialEq, Eq, Structural)]
pub enum TournamentStatus {
    Active,
    Ended,
}

impl DeepView for TournamentStatus {
    type V = TournamentStatus;

    open spec fn deep_view(&self) -> TournamentStatus {
        *self
    }
}

/// One row of a tournament leaderboard.
#[derive(Debug, PartialEq, Eq)]
pub struct LeaderboardEntry {
    pub username: String,
    pub score: u64,
}

/// Abstract value of a [`LeaderboardEntry`].
pub struct LeaderboardEntryView {
    pub username: Seq<char>,
    pub score: u64,
}

impl DeepView for LeaderboardEntry {
    type V = LeaderboardEntryView;

    open spec fn deep_view(&self) -> LeaderboardEntryView {
        LeaderboardEntryView { username: self.username@, score: self.score }
    }
}

impl View for LeaderboardEntry {
    type V = LeaderboardEntryView;

    open spec fn view(&self) -> LeaderboardEntryView {
        self.deep_view()
    }
}

impl Clone for LeaderboardEntry {
    fn clone(&self) -> (copy: Self)
        ensures
            copy@ == self@,
    {
        LeaderboardEntry { username: self.username.clone(), score: self.score }
    }
}

/// What is recorded about one season.
#[derive(Debug, PartialEq, Eq)]
pub struct TournamentMetadata {
    pub name: String,
    pub start_time: u64,
    pub end_time: Option<u64>,
    pub status: TournamentStatus,
    pub champion: Option<String>,
    pub runner_up: Option<String>,
}

/// Abstract value of a [`TournamentMetadata`].
pub struct TournamentMetadataView {
    pub name: Seq<char>,
    pub start_time: u64,
    pub end_time: Option<u64>,
    pub status: TournamentStatus,
    pub champion: Option<Seq<char>>,
    pub runner_up: Option<Seq<char>>,
}

impl DeepView for TournamentMetadata {
    type V = TournamentMetadataView;

    open spec fn deep_view(&self) -> TournamentMetadataView {
        TournamentMetadataView {
            name: self.name@,
            start_time: self.start_time,
            end_time: self.end_time,
            status: self.status,
            champion: self.champion.deep_view(),
            runner_up: self.runner_up.deep_view(),
        }
    }
}

impl View for TournamentMetadata {
    type V = TournamentMetadataView;

    open spec fn view(&self) -> TournamentMetadataView {
        self.deep_view()
    }
}

/// A copy of an optional text.
pub fn clone_optional_text(text: &Option<String>) -> (copy: Option<String>)
    ensures
        copy.deep_view() == text.deep_view(),
{
    match text {
        Some(t) => Some(t.clone()),
        None => None,
    }
}

impl Clone for TournamentMetadata {
    fn clone(&self) -> (copy: Self)
        ensures
            copy@ == self@,
    {
        TournamentMetadata {
            name: self.name.clone(),
            start_time: self.start_time,
            end_time: self.end_time,
            status: self.status,
            champion: clone_optional_text(&self.champion),
            runner_up: clone_optional_text(&self.runner_up),
        }
    }
}

/// A season as the query surface reports it. The length of an ended season is
/// given in microseconds.
#[derive(Debug, PartialEq, Eq)]
pub struct TournamentInfo {
    pub number: u64,
    pub name: String,
    pub start_time: u64,
    pub end_time: Option<u64>,
    pub duration_micros: Option<u64>,
    pub status: String,
    pub champion: Option<String>,
    pub runner_up: Option<String>,
}

/// Abstract value of a [`TournamentInfo`].
pub struct TournamentInfoView {
    pub number: u64,
    pub name: Seq<char>,
    pub start_time: u64,
    pub end_time: Option<u64>,
    pub duration_micros: Option<u64>,
    pub status: Seq<char>,
    pub champion: Option<Seq<char>>,
    pub runner_up: Option<Seq<char>>,
}

impl DeepView for TournamentInfo {
    type V = TournamentInfoView;

    open spec fn deep_view(&self) -> TournamentInfoView {
        TournamentInfoView {
            number: self.number,
            name: self.name@,
            start_time: self.start_time,
            end_time: self.end_time,
            duration_micros: self.duration_micros,
            status: self.status@,
            champion: self.champion.deep_view(),
            runner_up: self.runner_up.deep_view(),
        }
    }
}

impl View for TournamentInfo {
    type V = TournamentInfoView;

    open spec fn view(&self) -> TournamentInfoView {
        self.deep_view()
    }
}

/// One bracket entry as an operator submits it.
#[derive(Debug, PartialEq, Eq)]
pub struct TournamentMatchInput {
    pub match_id: String,
    pub player1: String,
    pub player2: String,
    pub winner: Option<String>,
    pub round: String,
    pub status: String,
}

/// Abstract value of a [`TournamentMatchInput`].
pub struct TournamentMatchInputView {
    pub match_id: Seq<char>,
    pub player1: Seq<char>,
    pub player2: Seq<char>,
    pub winner: Option<Seq<char>>,
    pub round: Seq<char>,
    pub status: Seq<char>,
}

impl DeepView for TournamentMatchInput {
    type V = TournamentMatchInputView;

    open spec fn deep_view(&self) -> TournamentMatchInputView {
        TournamentMatchInputView {
            match_id: self.match_id@,
            player1: self.player1@,
            player2: self.player2@,
            winner: self.winner.deep_view(),
            round: self.round@,
            status: self.status@,
        }
    }
}

impl View for TournamentMatchInput {
    type V = TournamentMatchInputView;

    open spec fn view(&self) -> TournamentMatchInputView {
        self.deep_view()
    }
}

impl Clone for TournamentMatchInput {
    fn clone(&self) -> (copy: Self)
        ensures
            copy@ == self@,
    {
        TournamentMatchInput {
            match_id: self.match_id.clone(),
            player1: self.player1.clone(),
            player2: self.player2.clone(),
            winner: clone_optional_text(&self.winner),
            round: self.round.clone(),
            status: self.status.clone(),
        }
    }
}

/// What the tournament application is asked to do, by an operator, by another
/// application on the same chain, or by a message from another chain.
#[derive(Debug, PartialEq, Eq)]
pub enum TournamentOperation {
    StartTournamentSeason { name: String },
    EndTournamentSeason,
    SetParticipants { participants: Vec<String> },
    SetBracket { matches: Vec<TournamentMatchInput> },
    RecordMatch { match_id: String, winner: String, loser: String },
    SettleMatch { match_id: String, winner: String },
    SetMatchMetadata {
        match_id: String,
        duration_minutes: u64,
        betting_start_unix: Option<u64>,
        status: Option<String>,
    },
    PlaceBet {
        bet_id: String,
        match_id: String,
        player: String,
        amount: u64,
        bettor: String,
        bettor_public_key: String,
        user_chain: String,
    },
    Payout {
        bet_id: String,
        match_id: String,
        amount: u64,
        user_public_key: String,
        user_chain: String,
        is_win: bool,
        tournament_season: u64,
    },
    RegisterUserXFighter { user_xfighter_app_id: String },
    RequestInitialClaim { user_chain: String, user_public_key: String },
    SetAirdropAmount { amount: u64 },
    ProcessPendingClaims { limit: Option<u32> },
}

/// Abstract value of a [`TournamentOperation`].
pub enum TournamentOperationView {
    StartTournamentSeason { name: Seq<char> },
    EndTournamentSeason,
    SetParticipants { participants: Seq<Seq<char>> },
    SetBracket { matches: Seq<TournamentMatchInputView> },
    RecordMatch { match_id: Seq<char>, winner: Seq<char>, loser: Seq<char> },
    SettleMatch { match_id: Seq<char>, winner: Seq<char> },
    SetMatchMetadata {
        match_id: Seq<char>,
        duration_minutes: u64,
        betting_start_unix: Option<u64>,
        status: Option<Seq<char>>,
    },
    PlaceBet {
        bet_id: Seq<char>,
        match_id: Seq<char>,
        player: Seq<char>,
        amount: u64,
        bettor: Seq<char>,
        bettor_public_key: Seq<char>,
        user_chain: Seq<char>,
    },
    Payout {
        bet_id: Seq<char>,
        match_id: Seq<char>,
        amount: u64,
        user_public_key: Seq<char>,
        user_chain: Seq<char>,
        is_win: bool,
        tournament_season: u64,
    },
    RegisterUserXFighter { user_xfighter_app_id: Seq<char> },
    RequestInitialClaim { user_chain: Seq<char>, user_public_key: Seq<char> },
    SetAirdropAmount { amount: u64 },
    ProcessPendingClaims { limit: Option<u32> },
}

impl DeepView for TournamentOperation {
    type V = TournamentOperationView;

    open spec fn deep_view(&self) -> TournamentOperationView {
        match self {
            TournamentOperation::StartTournamentSeason { name } => {
                TournamentOperationView::StartTournamentSeason { name: name@ }
            },
            TournamentOperation::EndTournamentSeason => TournamentOperationView::EndTournamentSeason,
            TournamentOperation::SetParticipants { participants } => {
                TournamentOperationView::SetParticipants { participants: participants.deep_view() }
            },
            TournamentOperation::SetBracket { matches } => {
                TournamentOperationView::SetBracket { matches: matches.deep_view() }
            },
            TournamentOperation::RecordMatch { match_id, winner, loser } => {
                TournamentOperationView::RecordMatch {
                    match_id: match_id@,
                    winner: winner@,
                    loser: loser@,
                }
            },
            TournamentOperation::SettleMatch { match_id, winner } => {
                TournamentOperationView::SettleMatch { match_id: match_id@, winner: winner@ }
            },
            TournamentOperation::SetMatchMetadata {
                match_id,
                duration_minutes,
                betting_start_unix,
                status,
            } => TournamentOperationView::SetMatchMetadata {
                match_id: match_id@,
                duration_minutes: *duration_minutes,
                betting_start_unix: *betting_start_unix,
                status: status.deep_view(),
            },
            TournamentOperation::PlaceBet {
                bet_id,
                match_id,
                player,
                amount,
                bettor,
                bettor_public_key,
                user_chain,
            } => TournamentOperationView::PlaceBet {
                bet_id: bet_id@,
                match_id: match_id@,
                player: player@,
                amount: *amount,
                bettor: bettor@,
                bettor_public_key: bettor_public_key@,
                user_chain: user_chain@,
            },
            TournamentOperation::Payout {
                bet_id,
                match_id,
                amount,
                user_public_key,
                user_chain,
                is_win,
                tournament_season,
            } => TournamentOperationView::Payout {
                bet_id: bet_id@,
                match_id: match_id@,
                amount: *amount,
                user_public_key: user_public_key@,
                user_chain: user_chain@,
                is_win: *is_win,
                tournament_season: *tournament_season,
            },
            TournamentOperation::RegisterUserXFighter { user_xfighter_app_id } => {
                TournamentOperationView::RegisterUserXFighter {
                    user_xfighter_app_id: user_xfighter_app_id@,
                }
            },
            TournamentOperation::RequestInitialClaim { user_chain, user_public_key } => {
                TournamentOperationView::RequestInitialClaim {
                    user_chain: user_chain@,
                    user_public_key: user_public_key@,
                }
            },
            TournamentOperation::SetAirdropAmount { amount } => {
                TournamentOperationView::SetAirdropAmount { amount: *amount }
            },
            TournamentOperation::ProcessPendingClaims { limit } => {
                TournamentOperationView::ProcessPendingClaims { limit: *limit }
            },
        }
    }
}

impl View for TournamentOperation {
    type V = TournamentOperationView;

    open spec fn view(&self) -> TournamentOperationView {
        self.deep_view()
    }
}

} // verus!
