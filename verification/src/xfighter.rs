//! The read-only side of the game application: match results, the chains it
//! has opened, and the applications it has created on them.

use vstd::prelude::*;
use crate::ranking::{is_ranking_of, sort_by_rank, Ranked};
use crate::store::Table;
use crate::text::{encode_hex, hex_text};

verus! {

/// What the queries read of the result of one match.
#[derive(Debug, PartialEq, Eq)]
pub struct MatchResult {
    pub player1_username: String,
    pub player2_username: String,
    /// In microseconds.
    pub timestamp: u64,
}

/// Abstract value of a [`MatchResult`].
pub struct MatchResultView {
    pub player1_username: Seq<char>,
    pub player2_username: Seq<char>,
    pub timestamp: u64,
}

impl DeepView for MatchResult {
    type V = MatchResultView;

    open spec fn deep_view(&self) -> MatchResultView {
        MatchResultView {
            player1_username: self.player1_username@,
            player2_username: self.player2_username@,
            timestamp: self.timestamp,
        }
    }
}

impl Clone for MatchResult {
    fn clone(&self) -> (copy: Self)
        ensures
            copy.deep_view() == self.deep_view(),
    {
        MatchResult {
            player1_username: self.player1_username.clone(),
            player2_username: self.player2_username.clone(),
            timestamp: self.timestamp,
        }
    }
}

/// The result of a match together with the key it is stored under.
#[derive(Debug, PartialEq, Eq)]
pub struct MatchResultWithChain {
    pub chain_id: String,
    pub match_result: MatchResult,
}

/// Abstract value of a [`MatchResultWithChain`].
pub struct MatchResultWithChainView {
    pub chain_id: Seq<char>,
    pub match_result: MatchResultView,
}

impl DeepView for MatchResultWithChain {
    type V = MatchResultWithChainView;

    open spec fn deep_view(&self) -> MatchResultWithChainView {
        MatchResultWithChainView {
            chain_id: self.chain_id@,
            match_result: self.match_result.deep_view(),
        }
    }
}

impl Ranked for MatchResultWithChain {
    open spec fn rank_of(row: MatchResultWithChainView) -> u64 {
        row.match_result.timestamp
    }

    fn rank(&self) -> (rank: u64) {
        self.match_result.timestamp
    }
}

/// An application that was created on a chain, named by the hash of its
/// description in hexadecimal.
#[derive(Debug, PartialEq, Eq)]
pub struct ChildAppInfo {
    pub chain_id: String,
    pub app_id: String,
}

/// Abstract value of a [`ChildAppInfo`].
pub struct ChildAppInfoView {
    pub chain_id: Seq<char>,
    pub app_id: Seq<char>,
}

impl DeepView for ChildAppInfo {
    type V = ChildAppInfoView;

    open spec fn deep_view(&self) -> ChildAppInfoView {
        ChildAppInfoView { chain_id: self.chain_id@, app_id: self.app_id@ }
    }
}

/// The state of the game application, as far as the queries read it.
pub struct XfighterState {
    pub match_results: Table<String, MatchResult>,
    /// The chains the application has opened.
    pub opened_chains: Table<String, ()>,
    /// The hash of the description of the application created on each chain.
    pub child_apps: Table<String, Vec<u8>>,
}

/// The read-only side of the game application.
pub struct XfighterService {
    pub state: XfighterState,
}

/// The results that `order` lists, in that order.
pub open spec fn results_listing(
    order: Seq<Seq<char>>,
    results: Map<Seq<char>, MatchResultView>,
) -> Seq<MatchResultView> {
    Seq::new(order.len(), |i: int| results[order[i]])
}

/// The results that `order` lists of matches that `username` played, with
/// their keys, in that order.
pub open spec fn results_of(
    order: Seq<Seq<char>>,
    results: Map<Seq<char>, MatchResultView>,
    username: Seq<char>,
) -> Seq<MatchResultWithChainView>
    decreases order.len(),
{
    if order.len() == 0 {
        Seq::empty()
    } else {
        let before = results_of(order.drop_last(), results, username);
        let result = results[order.last()];
        if result.player1_username == username || result.player2_username == username {
            before.push(MatchResultWithChainView { chain_id: order.last(), match_result: result })
        } else {
            before
        }
    }
}

/// The created applications that `order` lists, in that order.
pub open spec fn child_apps_listing(order: Seq<Seq<char>>, apps: Map<Seq<char>, Seq<u8>>) -> Seq<
    ChildAppInfoView,
> {
    Seq::new(
        order.len(),
        |i: int| ChildAppInfoView { chain_id: order[i], app_id: hex_text(apps[order[i]]) },
    )
}

impl XfighterService {
    /// The results of all matches.
    pub fn all_match_results(&self) -> (results: Vec<MatchResult>)
        ensures
            results.deep_view() == results_listing(
                self.state.match_results.keys(),
                self.state.match_results@,
            ),
    {
        let mut results: Vec<MatchResult> = Vec::new();
        let count = self.state.match_results.len();
        let ghost listing = results_listing(
            self.state.match_results.keys(),
            self.state.match_results@,
        );
        let mut i: usize = 0;
        while i < count
            invariant
                i <= count,
                count == self.state.match_results.keys().len(),
                listing == results_listing(
                    self.state.match_results.keys(),
                    self.state.match_results@,
                ),
                results.len() == i,
                forall|j: int| 0 <= j < i ==> (#[trigger] results[j]).deep_view() == listing[j],
            decreases count - i,
        {
            results.push(self.state.match_results.value_at(i).clone());
            i += 1;
        }
        assert(results.deep_view() =~= listing);
        results
    }

    /// The matches that `username` played, latest first.
    pub fn match_history_by_user(&self, username: String) -> (matches: Vec<MatchResultWithChain>)
        ensures
            is_ranking_of::<MatchResultWithChain>(
                matches.deep_view(),
                results_of(self.state.match_results.keys(), self.state.match_results@, username@),
            ),
    {
        let mut user_matches: Vec<MatchResultWithChain> = Vec::new();
        let count = self.state.match_results.len();
        let ghost order = self.state.match_results.keys();
        let mut i: usize = 0;
        proof {
            assert(order.take(0) =~= Seq::<Seq<char>>::empty());
            assert(user_matches.deep_view() =~= Seq::<MatchResultWithChainView>::empty());
        }
        while i < count
            invariant
                i <= count,
                count == order.len(),
                order == self.state.match_results.keys(),
                user_matches.deep_view() == results_of(
                    order.take(i as int),
                    self.state.match_results@,
                    username@,
                ),
            decreases count - i,
        {
            let entry_chain_id = self.state.match_results.key_at(i);
            let match_result = self.state.match_results.value_at(i);
            let ghost so_far = user_matches.deep_view();
            proof {
                assert(order.take(i as int + 1).drop_last() =~= order.take(i as int));
                assert(order.take(i as int + 1).last() == order[i as int]);
            }
            if match_result.player1_username == username || match_result.player2_username
                == username {
                user_matches.push(
                    MatchResultWithChain {
                        chain_id: entry_chain_id.clone(),
                        match_result: match_result.clone(),
                    },
                );
                assert(user_matches.deep_view() =~= so_far.push(
                    MatchResultWithChainView {
                        chain_id: order[i as int],
                        match_result: self.state.match_results@[order[i as int]],
                    },
                ));
            }
            i += 1;
        }
        proof {
            assert(order.take(i as int) =~= order);
        }
        sort_by_rank(user_matches)
    }

    /// The chains the application has opened.
    pub fn all_opened_chains(&self) -> (chains: Vec<String>)
        ensures
            chains.deep_view() == self.state.opened_chains.keys(),
    {
        let mut chains: Vec<String> = Vec::new();
        let count = self.state.opened_chains.len();
        let mut i: usize = 0;
        while i < count
            invariant
                i <= count,
                count == self.state.opened_chains.keys().len(),
                chains.len() == i,
                forall|j: int|
                    0 <= j < i ==> (#[trigger] chains[j])@ == self.state.opened_chains.keys()[j],
            decreases count - i,
        {
            chains.push(self.state.opened_chains.key_at(i).clone());
            i += 1;
        }
        assert(chains.deep_view() =~= self.state.opened_chains.keys());
        chains
    }

    /// The applications created on the opened chains.
    pub fn all_child_apps(&self) -> (pairs: Vec<ChildAppInfo>)
        ensures
            pairs.deep_view() == child_apps_listing(
                self.state.child_apps.keys(),
                self.state.child_apps@,
            ),
    {
        let mut pairs: Vec<ChildAppInfo> = Vec::new();
        let count = self.state.child_apps.len();
        let ghost listing = child_apps_listing(self.state.child_apps.keys(), self.state.child_apps@);
        let mut i: usize = 0;
        while i < count
            invariant
                i <= count,
                count == self.state.child_apps.keys().len(),
                listing == child_apps_listing(self.state.child_apps.keys(), self.state.child_apps@),
                pairs.len() == i,
                forall|j: int| 0 <= j < i ==> (#[trigger] pairs[j]).deep_view() == listing[j],
            decreases count - i,
        {
            let chain_id = self.state.child_apps.key_at(i);
            let hash_bytes = self.state.child_apps.value_at(i);
            proof {
                assert(hash_bytes.deep_view() =~= hash_bytes@);
            }
            pairs.push(ChildAppInfo { chain_id: chain_id.clone(), app_id: encode_hex(hash_bytes) });
            i += 1;
        }
        assert(pairs.deep_view() =~= listing);
        pairs
    }
}

} // verus!
