//! The airdrop: each user may claim a grant of tokens once per season.
//! Claims wait in a queue until the owner of the tournament processes them.

use vstd::prelude::*;
use crate::store::lemma_prefix_set_step;
use crate::text::{account_of_text, account_owner};
use crate::tournament::contract::{
    ATTOS_PER_TOKEN,
    Effect,
    EffectView,
    no_effects,
    TournamentContract,
};
use crate::tournament::state::{PendingClaim, PendingClaimView, TournamentStateView};

verus! {

/// Claims processed at once where the operator names no limit.
pub const DEFAULT_CLAIM_LIMIT: u32 = 20;

/// The key under which a user's claim is kept: chain, a colon, account.
pub open spec fn claim_key(user_chain: Seq<char>, user_public_key: Seq<char>) -> Seq<char> {
    user_chain + ":"@ + user_public_key
}

/// The state after a user asked for the airdrop at `now`: the claim is
/// queued under the user's key, unless the user has received the airdrop.
pub open spec fn after_claim_request(
    state: TournamentStateView,
    now: u64,
    user_chain: Seq<char>,
    user_public_key: Seq<char>,
) -> TournamentStateView {
    let key = claim_key(user_chain, user_public_key);
    if state.airdrop_recipients.contains(key) {
        state
    } else {
        TournamentStateView {
            pending_claims: state.pending_claims.insert(
                key,
                PendingClaimView { user_chain, user_public_key, requested_at: now },
            ),
            ..state
        }
    }
}

/// The claims processed in one go: the first `limit` of the queue, in the
/// order in which the queue lists them.
pub open spec fn claims_batch(queue: Seq<Seq<char>>, limit: u32) -> Seq<Seq<char>> {
    if limit < queue.len() {
        queue.take(limit as int)
    } else {
        queue
    }
}

/// The transfer that hands `amount` whole tokens from `owner` to the user of
/// a claim; none where the user's account is not written as an account.
pub open spec fn airdrop_transfer(owner: Seq<char>, claim: PendingClaimView, amount: u64) -> Option<
    EffectView,
> {
    match account_of_text(claim.user_public_key) {
        Some(target) => Some(
            EffectView::Transfer {
                owner,
                amount_attos: (amount * ATTOS_PER_TOKEN) as u128,
                target_chain: claim.user_chain,
                target_owner: target,
            },
        ),
        None => None,
    }
}

/// The transfers for a batch of claims, in the order of the batch.
pub open spec fn claim_effects(
    claims: Map<Seq<char>, PendingClaimView>,
    batch: Seq<Seq<char>>,
    owner: Seq<char>,
    amount: u64,
) -> Seq<EffectView>
    decreases batch.len(),
{
    if batch.len() == 0 {
        Seq::empty()
    } else {
        let before = claim_effects(claims, batch.drop_last(), owner, amount);
        match airdrop_transfer(owner, claims[batch.last()], amount) {
            Some(transfer) => before.push(transfer),
            None => before,
        }
    }
}

/// The state after a batch of claims was processed: every user of the batch
/// is a recipient, and no claim of the batch is pending.
pub open spec fn after_claims(
    state: TournamentStateView,
    batch: Set<Seq<char>>,
) -> TournamentStateView {
    TournamentStateView {
        airdrop_recipients: state.airdrop_recipients.union(batch),
        pending_claims: state.pending_claims.remove_keys(batch),
        ..state
    }
}

/// The key under which a user's claim is kept.
pub fn make_claim_key(user_chain: &String, user_public_key: &String) -> (key: String)
    ensures
        key@ == claim_key(user_chain@, user_public_key@),
{
    user_chain.clone().concat(":").concat(user_public_key.as_str())
}

impl TournamentContract {
    /// Queues a user's claim of the airdrop, unless the user has received it.
    pub fn request_initial_claim(&mut self, user_chain: String, user_public_key: String)
        ensures
            final(self).state@ == after_claim_request(
                old(self).state@,
                old(self).runtime.system_time_micros,
                user_chain@,
                user_public_key@,
            ),
            final(self).runtime == old(self).runtime,
    {
        let user_key = make_claim_key(&user_chain, &user_public_key);
        if self.state.airdrop_recipients.contains_key(&user_key) {
            return ;
        }
        let pending_claim = PendingClaim {
            user_chain,
            user_public_key,
            requested_at: self.runtime.system_time_micros,
        };
        self.state.pending_claims.insert(user_key, pending_claim);
    }

    /// The transfer that hands `amount` whole tokens from the owner of the
    /// tournament to the account written as `user_public_key` on
    /// `user_chain`. There is none where that text is not written as an
    /// account.
    pub fn send_airdrop_via_fungible(
        &self,
        user_public_key: &String,
        user_chain: &String,
        amount: u64,
    ) -> (transfer: Option<Effect>)
        requires
            account_of_text(self.runtime.application_parameters.tournament_owner@) is Some,
        ensures
            transfer.deep_view() == airdrop_transfer(
                account_of_text(self.runtime.application_parameters.tournament_owner@).unwrap(),
                PendingClaimView {
                    user_chain: user_chain@,
                    user_public_key: user_public_key@,
                    requested_at: 0,
                },
                amount,
            ),
    {
        let tournament_owner = match account_owner(
            &self.runtime.application_parameters.tournament_owner,
        ) {
            Some(owner) => owner,
            None => String::new(),
        };
        let user_account_owner = match account_owner(user_public_key) {
            Some(owner) => owner,
            None => {
                return None;
            },
        };
        assert(amount * ATTOS_PER_TOKEN <= u128::MAX) by (nonlinear_arith)
            requires
                amount <= u64::MAX,
                ATTOS_PER_TOKEN == 1_000_000_000_000_000_000,
        ;
        let amount_attos: u128 = (amount as u128) * ATTOS_PER_TOKEN;
        Some(
            Effect::Transfer {
                owner: tournament_owner,
                amount_attos,
                target_chain: user_chain.clone(),
                target_owner: user_account_owner,
            },
        )
    }

    /// Processes the first `limit` claims of the queue: each user is handed
    /// the airdrop, marked as a recipient, and taken off the queue.
    pub fn process_pending_claims(&mut self, limit: u32) -> (effects: Vec<Effect>)
        requires
            old(self).state@.pending_claims.len() > 0 && limit > 0 ==> account_of_text(
                old(self).runtime.application_parameters.tournament_owner@,
            ) is Some,
        ensures
            final(self).state@ == after_claims(
                old(self).state@,
                claims_batch(old(self).state.pending_claims.keys(), limit).to_set(),
            ),
            effects.deep_view() == claim_effects(
                old(self).state@.pending_claims,
                claims_batch(old(self).state.pending_claims.keys(), limit),
                account_of_text(old(self).runtime.application_parameters.tournament_owner@).unwrap(),
                old(self).state.airdrop_amount,
            ),
            final(self).runtime == old(self).runtime,
    {
        let ghost before = self.state@;
        let ghost runtime = self.runtime;
        let ghost queue = self.state.pending_claims.keys();
        let ghost claims = self.state.pending_claims@;
        let ghost batch = claims_batch(queue, limit);
        let ghost owner = account_of_text(
            self.runtime.application_parameters.tournament_owner@,
        ).unwrap();
        let airdrop_amount = self.state.airdrop_amount;
        let total = self.state.pending_claims.len();
        let count: usize = if (limit as usize) < total {
            limit as usize
        } else {
            total
        };
        let mut taken: Vec<(String, PendingClaim)> = Vec::new();
        let mut i: usize = 0;
        while i < count
            invariant
                i <= count,
                count == batch.len(),
                count <= queue.len(),
                queue == self.state.pending_claims.keys(),
                claims == self.state.pending_claims@,
                batch == claims_batch(queue, limit),
                self.state@ == before,
                self.runtime == runtime,
                taken.len() == i,
                forall|j: int|
                    0 <= j < i ==> (#[trigger] taken[j]).0@ == batch[j] && taken[j].1@
                        == claims[batch[j]],
            decreases count - i,
        {
            let key = self.state.pending_claims.key_at(i).clone();
            let claim = self.state.pending_claims.value_at(i).clone();
            taken.push((key, claim));
            i += 1;
        }
        let mut effects = no_effects();
        let mut j: usize = 0;
        proof {
            assert(batch.take(0) =~= Seq::<Seq<char>>::empty());
            assert(batch.take(0).to_set() =~= Set::<Seq<char>>::empty());
            assert(before.airdrop_recipients.union(Set::empty()) =~= before.airdrop_recipients);
            assert(before.pending_claims.remove_keys(Set::empty()) =~= before.pending_claims);
            assert(queue.no_duplicates());
        }
        while j < count
            invariant
                j <= count,
                count == batch.len(),
                count == taken.len(),
                count > 0 ==> account_of_text(
                    self.runtime.application_parameters.tournament_owner@,
                ) is Some,
                owner == account_of_text(
                    self.runtime.application_parameters.tournament_owner@,
                ).unwrap(),
                claims == before.pending_claims,
                self.runtime == runtime,
                forall|k: int|
                    0 <= k < count ==> (#[trigger] taken[k]).0@ == batch[k] && taken[k].1@
                        == claims[batch[k]],
                self.state@ == after_claims(before, batch.take(j as int).to_set()),
                effects.deep_view() == claim_effects(claims, batch.take(j as int), owner, airdrop_amount),
            decreases count - j,
        {
            let ghost so_far = effects.deep_view();
            let transfer = self.send_airdrop_via_fungible(
                &taken[j].1.user_public_key,
                &taken[j].1.user_chain,
                airdrop_amount,
            );
            match transfer {
                Some(t) => {
                    effects.push(t);
                },
                None => {},
            }
            self.state.airdrop_recipients.insert(taken[j].0.clone(), ());
            self.state.pending_claims.remove(&taken[j].0);
            proof {
                lemma_prefix_set_step(batch, j as int);
                assert(batch.take(j as int + 1).drop_last() =~= batch.take(j as int));
                assert(batch.take(j as int + 1).last() == batch[j as int]);
                let done = batch.take(j as int).to_set();
                let next = batch[j as int];
                assert(self.state.airdrop_recipients@.dom() =~= before.airdrop_recipients.union(
                    done.insert(next),
                ));
                assert(self.state.pending_claims@ =~= before.pending_claims.remove_keys(
                    done.insert(next),
                ));
                match airdrop_transfer(owner, claims[next], airdrop_amount) {
                    Some(t) => {
                        assert(effects.deep_view() =~= so_far.push(t));
                    },
                    None => {
                        assert(effects.deep_view() =~= so_far);
                    },
                }
            }
            j += 1;
        }
        proof {
            assert(batch.take(j as int) =~= batch);
        }
        effects
    }
}

} // verus!
