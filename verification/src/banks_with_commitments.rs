//! The ledger state the metrics are computed from: one read-only snapshot
//! (`Bank`) per commitment level, bundled as `BanksWithCommitments`.
//!
//! A `Bank` holds plain data — account balances and the vote-account set —
//! handed in by the embedder for one consistency level of the chain.

use vstd::prelude::*;
use vstd::string::StringSliceAdditionalSpecFns;

use crate::Pubkey;
use crate::text::bytes_of;

verus! {

/// A consistency level of ledger state. The set is fixed and the emission
/// order over it is fixed: finalized, then confirmed, then processed.
#[derive(Clone, Copy, PartialEq, Eq, Structural)]
pub enum CommitmentLevel {
    Finalized,
    Confirmed,
    Processed,
}

/// The label value naming a commitment level.
pub open spec fn level_label_text(level: CommitmentLevel) -> Seq<u8> {
    match level {
        CommitmentLevel::Finalized => ("finalized").spec_bytes(),
        CommitmentLevel::Confirmed => ("confirmed").spec_bytes(),
        CommitmentLevel::Processed => ("processed").spec_bytes(),
    }
}

/// Renders the label value naming a commitment level.
pub fn level_label(level: CommitmentLevel) -> (r: Vec<u8>)
    ensures
        r@ == level_label_text(level),
{
    match level {
        CommitmentLevel::Finalized => bytes_of("finalized"),
        CommitmentLevel::Confirmed => bytes_of("confirmed"),
        CommitmentLevel::Processed => bytes_of("processed"),
    }
}

/// The vote program state recorded on a vote account: the node identity it
/// votes for, the slots of its recorded votes oldest first, and its
/// cumulative credits.
pub struct VoteState {
    pub node_pubkey: Pubkey,
    pub votes: Vec<u64>,
    pub credits: u64,
}

/// Mathematical image of a `VoteState`.
pub struct VoteStateV {
    pub node_pubkey: Seq<u8>,
    pub votes: Seq<u64>,
    pub credits: u64,
}

impl View for VoteState {
    type V = VoteStateV;

    open spec fn view(&self) -> VoteStateV {
        VoteStateV { node_pubkey: self.node_pubkey@, votes: self.votes@, credits: self.credits }
    }
}

impl VoteState {
    /// The empty vote state: no identity bytes, no votes, no credits. Used
    /// in place of vote program state that cannot be read.
    pub fn empty() -> (r: VoteState)
        ensures
            r@.node_pubkey == Seq::<u8>::empty(),
            r@.votes == Seq::<u64>::empty(),
            r@.credits == 0,
    {
        let r = VoteState { node_pubkey: Pubkey::new(Vec::new()), votes: Vec::new(), credits: 0 };
        proof {
            assert(r@.node_pubkey =~= Seq::<u8>::empty());
            assert(r@.votes =~= Seq::<u64>::empty());
        }
        r
    }
}

/// One member of a bank's vote-account set: its address, the stake active on
/// it, and its vote program state — `None` when that state is unreadable.
pub struct VoteAccountEntry {
    pub vote_pubkey: Pubkey,
    pub activated_stake: u64,
    pub vote_state: Option<VoteState>,
}

/// Mathematical image of a `VoteAccountEntry`.
pub struct VoteAccountEntryV {
    pub vote_pubkey: Seq<u8>,
    pub activated_stake: u64,
    pub vote_state: Option<VoteStateV>,
}

impl View for VoteAccountEntry {
    type V = VoteAccountEntryV;

    open spec fn view(&self) -> VoteAccountEntryV {
        VoteAccountEntryV {
            vote_pubkey: self.vote_pubkey@,
            activated_stake: self.activated_stake,
            vote_state: match self.vote_state {
                Some(s) => Some(s@),
                None => None,
            },
        }
    }
}

/// A read-only snapshot of ledger state at one commitment level.
pub struct Bank {
    pub balances: Vec<(Pubkey, u64)>,
    pub vote_accounts: Vec<VoteAccountEntry>,
}

/// Mathematical image of a `Bank`.
pub struct BankV {
    pub balances: Seq<(Seq<u8>, u64)>,
    pub vote_accounts: Seq<VoteAccountEntryV>,
}

impl View for Bank {
    type V = BankV;

    open spec fn view(&self) -> BankV {
        BankV {
            balances: self.balances@.map_values(|p: (Pubkey, u64)| (p.0@, p.1)),
            vote_accounts: self.vote_accounts@.map_values(|e: VoteAccountEntry| e@),
        }
    }
}

/// The balance recorded for `key`: the first matching entry, or zero for an
/// account the snapshot does not hold.
pub open spec fn spec_balance(balances: Seq<(Seq<u8>, u64)>, key: Seq<u8>) -> u64
    decreases balances.len(),
{
    if balances.len() == 0 {
        0
    } else if balances[0].0 == key {
        balances[0].1
    } else {
        spec_balance(balances.drop_first(), key)
    }
}

/// The vote-account entry at `key`, if the set holds one: the first match.
pub open spec fn spec_vote_account(entries: Seq<VoteAccountEntryV>, key: Seq<u8>) -> Option<
    VoteAccountEntryV,
>
    decreases entries.len(),
{
    if entries.len() == 0 {
        None
    } else if entries[0].vote_pubkey == key {
        Some(entries[0])
    } else {
        spec_vote_account(entries.drop_first(), key)
    }
}

impl Bank {
    /// The balance of `key`, zero when the account is absent.
    pub fn get_balance(&self, key: &Pubkey) -> (r: u64)
        ensures
            r == spec_balance(self@.balances, key@),
    {
        let mut i: usize = 0;
        proof {
            assert(self@.balances.subrange(0, self@.balances.len() as int) =~= self@.balances);
        }
        loop
            invariant
                i <= self.balances.len(),
                spec_balance(self@.balances, key@) == spec_balance(
                    self@.balances.subrange(i as int, self@.balances.len() as int),
                    key@,
                ),
            decreases self.balances.len() - i,
        {
            let ghost rest = self@.balances.subrange(i as int, self@.balances.len() as int);
            if i >= self.balances.len() {
                proof {
                    assert(rest.len() == 0);
                }
                return 0;
            }
            proof {
                assert(rest[0] == self@.balances[i as int]);
                assert(rest.drop_first() =~= self@.balances.subrange(
                    i + 1,
                    self@.balances.len() as int,
                ));
            }
            if self.balances[i].0.key_eq(key) {
                return self.balances[i].1;
            }
            i = i + 1;
        }
    }

    /// The vote-account entry at `key`, if the set holds one.
    pub fn vote_account(&self, key: &Pubkey) -> (r: Option<&VoteAccountEntry>)
        ensures
            match r {
                Some(e) => spec_vote_account(self@.vote_accounts, key@) == Some(e@),
                None => spec_vote_account(self@.vote_accounts, key@) is None,
            },
    {
        let mut i: usize = 0;
        proof {
            assert(self@.vote_accounts.subrange(0, self@.vote_accounts.len() as int)
                =~= self@.vote_accounts);
        }
        loop
            invariant
                i <= self.vote_accounts.len(),
                spec_vote_account(self@.vote_accounts, key@) == spec_vote_account(
                    self@.vote_accounts.subrange(i as int, self@.vote_accounts.len() as int),
                    key@,
                ),
            decreases self.vote_accounts.len() - i,
        {
            let ghost rest = self@.vote_accounts.subrange(
                i as int,
                self@.vote_accounts.len() as int,
            );
            if i >= self.vote_accounts.len() {
                proof {
                    assert(rest.len() == 0);
                }
                return None;
            }
            proof {
                assert(rest[0] == self@.vote_accounts[i as int]);
                assert(rest.drop_first() =~= self@.vote_accounts.subrange(
                    i + 1,
                    self@.vote_accounts.len() as int,
                ));
            }
            if self.vote_accounts[i].vote_pubkey.key_eq(key) {
                return Some(&self.vote_accounts[i]);
            }
            i = i + 1;
        }
    }
}

/// One snapshot per commitment level; every level is always present as a
/// handle, though queries against it may return nothing.
pub struct BanksWithCommitments {
    pub finalized_bank: Bank,
    pub confirmed_bank: Bank,
    pub processed_bank: Bank,
}

/// Mathematical image of `BanksWithCommitments`.
pub struct BanksWithCommitmentsV {
    pub finalized_bank: BankV,
    pub confirmed_bank: BankV,
    pub processed_bank: BankV,
}

impl View for BanksWithCommitments {
    type V = BanksWithCommitmentsV;

    open spec fn view(&self) -> BanksWithCommitmentsV {
        BanksWithCommitmentsV {
            finalized_bank: self.finalized_bank@,
            confirmed_bank: self.confirmed_bank@,
            processed_bank: self.processed_bank@,
        }
    }
}

/// The snapshot a level selects.
pub open spec fn spec_bank_at(banks: BanksWithCommitmentsV, level: CommitmentLevel) -> BankV {
    match level {
        CommitmentLevel::Finalized => banks.finalized_bank,
        CommitmentLevel::Confirmed => banks.confirmed_bank,
        CommitmentLevel::Processed => banks.processed_bank,
    }
}

impl BanksWithCommitments {
    /// The snapshot a level selects.
    pub fn bank_at(&self, level: CommitmentLevel) -> (r: &Bank)
        ensures
            r@ == spec_bank_at(self@, level),
    {
        match level {
            CommitmentLevel::Finalized => &self.finalized_bank,
            CommitmentLevel::Confirmed => &self.confirmed_bank,
            CommitmentLevel::Processed => &self.processed_bank,
        }
    }
}

} // verus!
