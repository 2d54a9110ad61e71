//! The wallet's invariant is kept by every accepted operation.

use crate::identity::Identity;
use crate::model::{initialize_check, WalletState};
use vstd::prelude::*;

verus! {

impl WalletState {
    /// The first place of an identifier is the place that `position` names.
    pub proof fn lemma_position_is(self, i: int, id: nat)
        requires
            self.is_first_with_id(i, id),
        ensures
            self.has_proposal(id),
            self.position(id) == i,
            self.proposal(id) == self.pending[i],
    {
    }

    proof fn lemma_first_before(self, k: int, id: nat)
        requires
            0 <= k < self.pending.len(),
            self.pending[k].id == id,
        ensures
            exists|i: int| self.is_first_with_id(i, id),
        decreases k,
    {
        if forall|j: int| 0 <= j < k ==> (#[trigger] self.pending[j]).id != id {
            assert(self.is_first_with_id(k, id));
        } else {
            let j = choose|j: int| 0 <= j < k && (#[trigger] self.pending[j]).id == id;
            self.lemma_first_before(j, id);
        }
    }

    /// An identifier that is pending has a first place.
    pub proof fn lemma_position_exists(self, id: nat)
        requires
            self.has_proposal(id),
        ensures
            self.is_first_with_id(self.position(id), id),
    {
        let k = choose|i: int| 0 <= i < self.pending.len() && (#[trigger] self.pending[i]).id == id;
        self.lemma_first_before(k, id);
    }

    /// A configuration that passes every rule of creation gives a sound
    /// wallet with no pending proposal.
    pub proof fn lemma_created_wf(
        creator: Identity,
        owners: Seq<Identity>,
        threshold: nat,
        cap: nat,
        nonce: u8,
        created_at: i64,
    )
        requires
            initialize_check(owners, threshold, cap) is None,
            cap <= crate::category::MAX_OWNERS,
        ensures
            WalletState::created(creator, owners, threshold, nonce, created_at).wf(),
    {
    }

    /// An accepted withdrawal request keeps the wallet sound.
    pub proof fn lemma_propose_wf(self, proposer: Identity, to: Identity, amount: nat)
        requires
            self.wf(),
            self.is_owner(proposer),
            amount > 0,
        ensures
            self.propose(proposer, to, amount).wf(),
    {
    }

    /// An accepted approval keeps the wallet sound.
    pub proof fn lemma_approve_wf(self, approver: Identity, id: nat)
        requires
            self.wf(),
            self.approve_check(approver, id) is None,
        ensures
            self.approve(approver, id).wf(),
    {
        self.lemma_position_exists(id);
    }

    /// Taking a pending proposal out keeps the wallet sound, and its
    /// identifier is pending no more.
    pub proof fn lemma_settle_wf(self, id: nat)
        requires
            self.wf(),
            self.has_proposal(id),
        ensures
            self.settle(id).wf(),
            !self.settle(id).has_proposal(id),
    {
        self.lemma_position_exists(id);
    }

    /// In a sound wallet no proposal has more approvals than there are
    /// owners.
    pub proof fn lemma_approvals_bounded(self, i: int)
        requires
            self.wf(),
            0 <= i < self.pending.len(),
        ensures
            self.pending[i].approvals.len() <= self.owners.len(),
            self.pending[i].approvals.no_duplicates(),
    {
        let approvals = self.pending[i].approvals;
        approvals.unique_seq_to_set();
        self.owners.unique_seq_to_set();
        vstd::seq_lib::seq_to_set_is_finite(self.owners);
        vstd::set_lib::lemma_len_subset(approvals.to_set(), self.owners.to_set());
    }
}

} // verus!
