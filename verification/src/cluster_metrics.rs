//! The multi-commitment metric aggregation engine.
//!
//! `get_vote_state` resolves one vote account against one snapshot;
//! `for_each_commitment` fans a query out across every commitment level,
//! dropping levels with no value; `collect_cluster_metric_families` assembles
//! the fixed family sequence; `write_cluster_metrics` renders it to a sink,
//! stopping at the first refused write.

use vstd::prelude::*;
use vstd::string::StringSliceAdditionalSpecFns;

use crate::banks_with_commitments::{
    spec_balance, spec_bank_at, spec_vote_account, Bank, BankV, BanksWithCommitments,
    BanksWithCommitmentsV, CommitmentLevel, VoteAccountEntryV, VoteState, VoteStateV, level_label,
    level_label_text,
};
use crate::identity_info::{spec_identity_info, IdentityInfoMap, IdentityInfoMapV, ValidatorInfo,
    ValidatorInfoV};
use crate::text::bytes_of;
use crate::utils::{families_text, metrics_view, LabelV, Metric, MetricFamily, MetricFamilyV,
    MetricSink, MetricV, MetricValue, WriteError, write_metric};
use crate::{Lamports, Pubkey};

verus! {

/// The gossip-derived facts about this node: its identity key and, when
/// known, its software version string.
pub struct ClusterInfo {
    pub identity: Pubkey,
    pub version: Option<Vec<u8>>,
}

/// Mathematical image of a `ClusterInfo`.
pub struct ClusterInfoV {
    pub identity: Seq<u8>,
    pub version: Option<Seq<u8>>,
}

impl View for ClusterInfo {
    type V = ClusterInfoV;

    open spec fn view(&self) -> ClusterInfoV {
        ClusterInfoV {
            identity: self.identity@,
            version: match self.version {
                Some(v) => Some(v@),
                None => None,
            },
        }
    }
}

impl ClusterInfo {
    /// This node's identity key.
    pub fn id(&self) -> (r: &Pubkey)
        ensures
            r@ == self@.identity,
    {
        &self.identity
    }

    /// This node's version string, when gossip knows one.
    pub fn get_node_version(&self) -> (r: Option<&Vec<u8>>)
        ensures
            match r {
                Some(v) => self@.version == Some(v@),
                None => self@.version is None,
            },
    {
        match &self.version {
            Some(v) => Some(v),
            None => None,
        }
    }
}

/// The consolidated record for one vote account at one snapshot.
pub struct ValidatorVoteInfo {
    pub balance: Lamports,
    pub last_vote: u64,
    pub vote_credits: u64,
    pub identity: Pubkey,
    pub activated_stake: Lamports,
    pub validator_info: Option<ValidatorInfo>,
}

/// Mathematical image of a `ValidatorVoteInfo`.
pub struct ValidatorVoteInfoV {
    pub balance: u64,
    pub last_vote: u64,
    pub vote_credits: u64,
    pub identity: Seq<u8>,
    pub activated_stake: u64,
    pub validator_info: Option<ValidatorInfoV>,
}

impl View for ValidatorVoteInfo {
    type V = ValidatorVoteInfoV;

    open spec fn view(&self) -> ValidatorVoteInfoV {
        ValidatorVoteInfoV {
            balance: self.balance@,
            last_vote: self.last_vote,
            vote_credits: self.vote_credits,
            identity: self.identity@,
            activated_stake: self.activated_stake@,
            validator_info: match self.validator_info {
                Some(v) => Some(v@),
                None => None,
            },
        }
    }
}

/// The vote state an entry effectively carries: its recorded state, or the
/// empty state when the recorded one is unreadable. An account that exists
/// but has cast no votes then yields no record at all, not an error.
pub open spec fn spec_effective_vote_state(e: VoteAccountEntryV) -> VoteStateV {
    match e.vote_state {
        Some(s) => s,
        None => VoteStateV {
            node_pubkey: Seq::empty(),
            votes: Seq::empty(),
            credits: 0,
        },
    }
}

/// The record resolved for `key` against one snapshot: present exactly when
/// the vote account is in the snapshot's vote-account set and has at least
/// one recorded vote. The optional metadata is joined in by identity key.
pub open spec fn spec_get_vote_state(bank: BankV, key: Seq<u8>, info: IdentityInfoMapV) -> Option<
    ValidatorVoteInfoV,
> {
    match spec_vote_account(bank.vote_accounts, key) {
        None => None,
        Some(e) => {
            let vs = spec_effective_vote_state(e);
            if vs.votes.len() == 0 {
                None
            } else {
                Some(
                    ValidatorVoteInfoV {
                        balance: spec_balance(bank.balances, key),
                        last_vote: vs.votes.last(),
                        vote_credits: vs.credits,
                        identity: vs.node_pubkey,
                        activated_stake: e.activated_stake,
                        validator_info: spec_identity_info(info, vs.node_pubkey),
                    },
                )
            }
        },
    }
}

/// Resolves the consolidated vote record for `vote_pubkey` against `bank`,
/// matching `spec_get_vote_state`: nothing when the account is absent or has
/// cast no votes; unreadable vote state degrades to the empty state.
pub fn get_vote_state(bank: &Bank, vote_pubkey: &Pubkey, identity_info: &IdentityInfoMap) -> (r:
    Option<ValidatorVoteInfo>)
    ensures
        match r {
            Some(v) => spec_get_vote_state(bank@, vote_pubkey@, identity_info@) == Some(v@),
            None => spec_get_vote_state(bank@, vote_pubkey@, identity_info@) is None,
        },
{
    let entry = match bank.vote_account(vote_pubkey) {
        None => {
            return None;
        },
        Some(e) => e,
    };
    let empty_state = VoteState::empty();
    let vote_state = match &entry.vote_state {
        Some(s) => s,
        None => &empty_state,
    };
    proof {
        assert(vote_state@ == spec_effective_vote_state(entry@));
    }
    let identity = vote_state.node_pubkey.clone();
    let validator_info = match identity_info.get(&identity) {
        Some(v) => Some(v.clone()),
        None => None,
    };
    if vote_state.votes.len() == 0 {
        return None;
    }
    let last_vote = vote_state.votes[vote_state.votes.len() - 1];
    let balance = Lamports(bank.get_balance(vote_pubkey));
    let vote_credits = vote_state.credits;
    Some(
        ValidatorVoteInfo {
            balance,
            last_vote,
            vote_credits,
            identity,
            activated_stake: Lamports(entry.activated_stake),
            validator_info,
        },
    )
}

/// One per-commitment query the writer issues: the identity account's
/// balance, a vote account's balance, or one of the three figures that
/// exist only with a vote record (last vote, credits, stake).
pub enum MetricQuery {
    IdentityBalance(Pubkey),
    LastVoteSlot(Pubkey),
    VoteAccountBalance(Pubkey),
    VoteCredits(Pubkey),
    ActiveStake(Pubkey),
}

/// Mathematical image of a `MetricQuery`.
pub enum MetricQueryV {
    IdentityBalance(Seq<u8>),
    LastVoteSlot(Seq<u8>),
    VoteAccountBalance(Seq<u8>),
    VoteCredits(Seq<u8>),
    ActiveStake(Seq<u8>),
}

impl View for MetricQuery {
    type V = MetricQueryV;

    open spec fn view(&self) -> MetricQueryV {
        match self {
            MetricQuery::IdentityBalance(k) => MetricQueryV::IdentityBalance(k@),
            MetricQuery::LastVoteSlot(k) => MetricQueryV::LastVoteSlot(k@),
            MetricQuery::VoteAccountBalance(k) => MetricQueryV::VoteAccountBalance(k@),
            MetricQuery::VoteCredits(k) => MetricQueryV::VoteCredits(k@),
            MetricQuery::ActiveStake(k) => MetricQueryV::ActiveStake(k@),
        }
    }
}

/// The labels every series of a vote account carries: the identity account,
/// the vote account, and the validator's name exactly when metadata exists.
pub open spec fn spec_vote_labels(
    key: Seq<u8>,
    identity: Seq<u8>,
    validator_info: Option<ValidatorInfoV>,
) -> Seq<LabelV> {
    seq![
        LabelV { name: ("identity_account").spec_bytes(), value: identity },
        LabelV { name: ("vote_account").spec_bytes(), value: key },
    ] + (match validator_info {
        Some(v) => seq![LabelV { name: ("validator_name").spec_bytes(), value: v.name }],
        None => Seq::<LabelV>::empty(),
    })
}

pub open spec fn spec_opt_validator_info(v: Option<ValidatorInfo>) -> Option<ValidatorInfoV> {
    match v {
        Some(x) => Some(x@),
        None => None,
    }
}

/// The series one query yields against one snapshot, before the commitment
/// label is attached. The balance of a vote account is readable as soon as
/// the account is in the snapshot's vote-account set, whether or not it has
/// ever voted; the other three figures exist only with the vote record.
pub open spec fn spec_resolve_metric(bank: BankV, q: MetricQueryV, info: IdentityInfoMapV) -> Option<
    MetricV,
> {
    match q {
        MetricQueryV::IdentityBalance(id) => Some(
            MetricV {
                value: MetricValue::Sol(Lamports(spec_balance(bank.balances, id))),
                labels: seq![LabelV { name: ("identity_account").spec_bytes(), value: id }],
            },
        ),
        MetricQueryV::LastVoteSlot(key) => match spec_get_vote_state(bank, key, info) {
            None => None,
            Some(vi) => Some(
                MetricV {
                    value: MetricValue::Count(vi.last_vote),
                    labels: spec_vote_labels(key, vi.identity, vi.validator_info),
                },
            ),
        },
        MetricQueryV::VoteAccountBalance(key) => match spec_vote_account(bank.vote_accounts, key) {
            None => None,
            Some(e) => Some(
                MetricV {
                    value: MetricValue::Sol(Lamports(spec_balance(bank.balances, key))),
                    labels: spec_vote_labels(
                        key,
                        spec_effective_vote_state(e).node_pubkey,
                        spec_identity_info(info, spec_effective_vote_state(e).node_pubkey),
                    ),
                },
            ),
        },
        MetricQueryV::VoteCredits(key) => match spec_get_vote_state(bank, key, info) {
            None => None,
            Some(vi) => Some(
                MetricV {
                    value: MetricValue::Count(vi.vote_credits),
                    labels: spec_vote_labels(key, vi.identity, vi.validator_info),
                },
            ),
        },
        MetricQueryV::ActiveStake(key) => match spec_get_vote_state(bank, key, info) {
            None => None,
            Some(vi) => Some(
                MetricV {
                    value: MetricValue::Sol(Lamports(vi.activated_stake)),
                    labels: spec_vote_labels(key, vi.identity, vi.validator_info),
                },
            ),
        },
    }
}

/// A resolved series with the commitment-level label appended, as a
/// one-element sequence; the empty sequence when nothing resolved.
pub open spec fn spec_level_series(o: Option<MetricV>, level: CommitmentLevel) -> Seq<MetricV> {
    match o {
        None => Seq::empty(),
        Some(m) => seq![
            MetricV {
                value: m.value,
                labels: m.labels.push(
                    LabelV {
                        name: ("commitment_level").spec_bytes(),
                        value: level_label_text(level),
                    },
                ),
            },
        ],
    }
}

/// The commitment fan-out: one query applied to the snapshot at every
/// commitment level in the fixed order finalized, confirmed, processed.
/// Levels where the query yields nothing contribute no series at all.
pub open spec fn spec_for_each_commitment(
    banks: BanksWithCommitmentsV,
    q: MetricQueryV,
    info: IdentityInfoMapV,
) -> Seq<MetricV> {
    spec_level_series(
        spec_resolve_metric(banks.finalized_bank, q, info),
        CommitmentLevel::Finalized,
    ) + spec_level_series(
        spec_resolve_metric(banks.confirmed_bank, q, info),
        CommitmentLevel::Confirmed,
    ) + spec_level_series(
        spec_resolve_metric(banks.processed_bank, q, info),
        CommitmentLevel::Processed,
    )
}

fn with_vote_labels(
    m: Metric,
    key: &Pubkey,
    identity: &Pubkey,
    validator_info: &Option<ValidatorInfo>,
) -> (r: Metric)
    ensures
        r@.value == m@.value,
        r@.labels == m@.labels + spec_vote_labels(
            key@,
            identity@,
            spec_opt_validator_info(*validator_info),
        ),
{
    let identity_value = identity.clone();
    let key_value = key.clone();
    let name_value: Option<Vec<u8>> = match validator_info {
        Some(v) => Some(v.clone().name),
        None => None,
    };
    let r = m.with_label(bytes_of("identity_account"), identity_value.bytes).with_label(
        bytes_of("vote_account"),
        key_value.bytes,
    ).with_optional_label(bytes_of("validator_name"), name_value);
    proof {
        assert(r@.labels =~= m@.labels + spec_vote_labels(
            key@,
            identity@,
            spec_opt_validator_info(*validator_info),
        ));
    }
    r
}

/// Answers one query against one snapshot, matching `spec_resolve_metric`.
pub fn resolve_metric(bank: &Bank, q: &MetricQuery, info: &IdentityInfoMap) -> (r: Option<Metric>)
    ensures
        match r {
            Some(m) => spec_resolve_metric(bank@, q@, info@) == Some(m@),
            None => spec_resolve_metric(bank@, q@, info@) is None,
        },
{
    match q {
        MetricQuery::IdentityBalance(id) => {
            let m = Metric::new_sol(Lamports(bank.get_balance(id))).with_label(
                bytes_of("identity_account"),
                id.clone().bytes,
            );
            proof {
                assert(m@.labels =~= spec_resolve_metric(bank@, q@, info@).unwrap().labels);
            }
            Some(m)
        },
        MetricQuery::LastVoteSlot(key) => match get_vote_state(bank, key, info) {
            None => None,
            Some(vi) => Some(
                with_vote_labels(Metric::new(vi.last_vote), key, &vi.identity, &vi.validator_info),
            ),
        },
        MetricQuery::VoteAccountBalance(key) => match bank.vote_account(key) {
            None => None,
            Some(entry) => {
                let empty_state = VoteState::empty();
                let vote_state = match &entry.vote_state {
                    Some(s) => s,
                    None => &empty_state,
                };
                proof {
                    assert(vote_state@ == spec_effective_vote_state(entry@));
                }
                let identity = vote_state.node_pubkey.clone();
                let validator_info = match info.get(&identity) {
                    Some(v) => Some(v.clone()),
                    None => None,
                };
                let m = with_vote_labels(
                    Metric::new_sol(Lamports(bank.get_balance(key))),
                    key,
                    &identity,
                    &validator_info,
                );
                Some(m)
            },
        },
        MetricQuery::VoteCredits(key) => match get_vote_state(bank, key, info) {
            None => None,
            Some(vi) => Some(
                with_vote_labels(
                    Metric::new(vi.vote_credits),
                    key,
                    &vi.identity,
                    &vi.validator_info,
                ),
            ),
        },
        MetricQuery::ActiveStake(key) => match get_vote_state(bank, key, info) {
            None => None,
            Some(vi) => Some(
                with_vote_labels(
                    Metric::new_sol(vi.activated_stake),
                    key,
                    &vi.identity,
                    &vi.validator_info,
                ),
            ),
        },
    }
}

fn push_level_series(
    out: &mut Vec<Metric>,
    banks: &BanksWithCommitments,
    q: &MetricQuery,
    info: &IdentityInfoMap,
    level: CommitmentLevel,
)
    ensures
        metrics_view(final(out)@) == metrics_view(old(out)@) + spec_level_series(
            spec_resolve_metric(spec_bank_at(banks@, level), q@, info@),
            level,
        ),
{
    match resolve_metric(banks.bank_at(level), q, info) {
        None => {
            proof {
                assert(metrics_view(out@) =~= metrics_view(out@) + Seq::<MetricV>::empty());
            }
        },
        Some(m) => {
            let labeled = m.with_label(bytes_of("commitment_level"), level_label(level));
            out.push(labeled);
            proof {
                assert(metrics_view(out@) =~= metrics_view(old(out)@) + spec_level_series(
                    spec_resolve_metric(spec_bank_at(banks@, level), q@, info@),
                    level,
                ));
            }
        },
    }
}

/// Applies one query to the snapshot at every commitment level, in the fixed
/// level order, keeping exactly the levels that yield a value and labeling
/// each kept series with its level. Matches `spec_for_each_commitment`.
pub fn for_each_commitment(
    banks: &BanksWithCommitments,
    q: &MetricQuery,
    info: &IdentityInfoMap,
) -> (r: Vec<Metric>)
    ensures
        metrics_view(r@) == spec_for_each_commitment(banks@, q@, info@),
{
    let mut out: Vec<Metric> = Vec::new();
    proof {
        assert(metrics_view(out@) =~= Seq::<MetricV>::empty());
    }
    push_level_series(&mut out, banks, q, info, CommitmentLevel::Finalized);
    push_level_series(&mut out, banks, q, info, CommitmentLevel::Confirmed);
    push_level_series(&mut out, banks, q, info, CommitmentLevel::Processed);
    proof {
        assert(metrics_view(out@) =~= spec_for_each_commitment(banks@, q@, info@));
    }
    out
}

/// The one-series family announcing the node's identity key.
pub open spec fn spec_identity_family(cluster: ClusterInfoV) -> MetricFamilyV {
    MetricFamilyV {
        name: ("solana_node_identity_public_key_info").spec_bytes(),
        help: ("The node's current identity").spec_bytes(),
        type_: ("counter").spec_bytes(),
        metrics: seq![
            MetricV {
                value: MetricValue::Count(1),
                labels: seq![
                    LabelV {
                        name: ("identity_account").spec_bytes(),
                        value: cluster.identity,
                    },
                ],
            },
        ],
    }
}

/// The per-commitment family of the identity account's balance.
pub open spec fn spec_identity_balance_family(
    banks: BanksWithCommitmentsV,
    cluster: ClusterInfoV,
    info: IdentityInfoMapV,
) -> MetricFamilyV {
    MetricFamilyV {
        name: ("solana_node_identity_balance_sol").spec_bytes(),
        help: ("The balance of the node's identity account").spec_bytes(),
        type_: ("gauge").spec_bytes(),
        metrics: spec_for_each_commitment(
            banks,
            MetricQueryV::IdentityBalance(cluster.identity),
            info,
        ),
    }
}

/// The one-series family announcing the node's software version; an unknown
/// version is shown as the empty string.
pub open spec fn spec_version_family(cluster: ClusterInfoV) -> MetricFamilyV {
    MetricFamilyV {
        name: ("solana_node_version_info").spec_bytes(),
        help: ("The current Solana node's version").spec_bytes(),
        type_: ("counter").spec_bytes(),
        metrics: seq![
            MetricV {
                value: MetricValue::Count(1),
                labels: seq![
                    LabelV {
                        name: ("version").spec_bytes(),
                        value: match cluster.version {
                            Some(v) => v,
                            None => Seq::<u8>::empty(),
                        },
                    },
                ],
            },
        ],
    }
}

/// The four families emitted for one tracked vote account, each fanned out
/// across the commitment levels.
pub open spec fn spec_vote_account_families(
    banks: BanksWithCommitmentsV,
    key: Seq<u8>,
    info: IdentityInfoMapV,
) -> Seq<MetricFamilyV> {
    seq![
        MetricFamilyV {
            name: ("solana_validator_last_vote_slot").spec_bytes(),
            help: (
            "The voted-on slot of the validator's last vote that got included in the chain"
            ).spec_bytes(),
            type_: ("gauge").spec_bytes(),
            metrics: spec_for_each_commitment(banks, MetricQueryV::LastVoteSlot(key), info),
        },
        MetricFamilyV {
            name: ("solana_validator_vote_account_balance_sol").spec_bytes(),
            help: ("The balance of the vote account at the given address").spec_bytes(),
            type_: ("gauge").spec_bytes(),
            metrics: spec_for_each_commitment(banks, MetricQueryV::VoteAccountBalance(key), info),
        },
        MetricFamilyV {
            name: ("solana_validator_vote_credits").spec_bytes(),
            help: ("The total number of vote credits credited to this vote account").spec_bytes(),
            type_: ("gauge").spec_bytes(),
            metrics: spec_for_each_commitment(banks, MetricQueryV::VoteCredits(key), info),
        },
        MetricFamilyV {
            name: ("solana_validator_active_stake_sol").spec_bytes(),
            help: ("The total amount of Sol actively staked to this validator").spec_bytes(),
            type_: ("gauge").spec_bytes(),
            metrics: spec_for_each_commitment(banks, MetricQueryV::ActiveStake(key), info),
        },
    ]
}

/// The vote-account families for a list of tracked accounts, in list order.
pub open spec fn spec_vote_accounts_families(
    banks: BanksWithCommitmentsV,
    keys: Seq<Seq<u8>>,
    info: IdentityInfoMapV,
) -> Seq<MetricFamilyV>
    decreases keys.len(),
{
    if keys.len() == 0 {
        Seq::empty()
    } else {
        spec_vote_accounts_families(banks, keys.drop_last(), info) + spec_vote_account_families(
            banks,
            keys.last(),
            info,
        )
    }
}

/// The fixed family sequence of one invocation: identity, identity balance,
/// version, then four families per tracked vote account.
pub open spec fn spec_cluster_metric_families(
    banks: BanksWithCommitmentsV,
    cluster: ClusterInfoV,
    keys: Seq<Seq<u8>>,
    info: IdentityInfoMapV,
) -> Seq<MetricFamilyV> {
    seq![
        spec_identity_family(cluster),
        spec_identity_balance_family(banks, cluster, info),
        spec_version_family(cluster),
    ] + spec_vote_accounts_families(banks, keys, info)
}

pub open spec fn families_view(s: Seq<MetricFamily>) -> Seq<MetricFamilyV> {
    s.map_values(|f: MetricFamily| f@)
}

pub open spec fn keys_view(s: Seq<Pubkey>) -> Seq<Seq<u8>> {
    s.map_values(|p: Pubkey| p@)
}

fn single_metric(m: Metric) -> (r: Vec<Metric>)
    ensures
        metrics_view(r@) == seq![m@],
{
    let ghost mv = m@;
    let mut v: Vec<Metric> = Vec::new();
    v.push(m);
    proof {
        assert(metrics_view(v@) =~= seq![mv]);
    }
    v
}

fn push_vote_account_families(
    fams: &mut Vec<MetricFamily>,
    banks_with_commitments: &BanksWithCommitments,
    vote_account: &Pubkey,
    identity_info: &IdentityInfoMap,
)
    ensures
        families_view(final(fams)@) == families_view(old(fams)@) + spec_vote_account_families(
            banks_with_commitments@,
            vote_account@,
            identity_info@,
        ),
{
    let last_vote_query = MetricQuery::LastVoteSlot(vote_account.clone());
    fams.push(
        MetricFamily {
            name: bytes_of("solana_validator_last_vote_slot"),
            help: bytes_of(
                "The voted-on slot of the validator's last vote that got included in the chain",
            ),
            type_: bytes_of("gauge"),
            metrics: for_each_commitment(banks_with_commitments, &last_vote_query, identity_info),
        },
    );
    let balance_query = MetricQuery::VoteAccountBalance(vote_account.clone());
    fams.push(
        MetricFamily {
            name: bytes_of("solana_validator_vote_account_balance_sol"),
            help: bytes_of("The balance of the vote account at the given address"),
            type_: bytes_of("gauge"),
            metrics: for_each_commitment(banks_with_commitments, &balance_query, identity_info),
        },
    );
    let credits_query = MetricQuery::VoteCredits(vote_account.clone());
    fams.push(
        MetricFamily {
            name: bytes_of("solana_validator_vote_credits"),
            help: bytes_of("The total number of vote credits credited to this vote account"),
            type_: bytes_of("gauge"),
            metrics: for_each_commitment(banks_with_commitments, &credits_query, identity_info),
        },
    );
    let stake_query = MetricQuery::ActiveStake(vote_account.clone());
    fams.push(
        MetricFamily {
            name: bytes_of("solana_validator_active_stake_sol"),
            help: bytes_of("The total amount of Sol actively staked to this validator"),
            type_: bytes_of("gauge"),
            metrics: for_each_commitment(banks_with_commitments, &stake_query, identity_info),
        },
    );
    proof {
        assert(families_view(fams@) =~= families_view(old(fams)@) + spec_vote_account_families(
            banks_with_commitments@,
            vote_account@,
            identity_info@,
        ));
    }
}

/// Assembles the full family sequence for one invocation, matching
/// `spec_cluster_metric_families`; tracked vote accounts are taken in the
/// order of the list handed in. The list stands for a set: each key is
/// expected once, as a repeated key repeats its four families verbatim.
pub fn collect_cluster_metric_families(
    banks_with_commitments: &BanksWithCommitments,
    cluster_info: &ClusterInfo,
    vote_accounts: &Vec<Pubkey>,
    identity_info: &IdentityInfoMap,
) -> (r: Vec<MetricFamily>)
    ensures
        families_view(r@) == spec_cluster_metric_families(
            banks_with_commitments@,
            cluster_info@,
            keys_view(vote_accounts@),
            identity_info@,
        ),
{
    let mut fams: Vec<MetricFamily> = Vec::new();

    let identity_metric = Metric::new(1).with_label(
        bytes_of("identity_account"),
        cluster_info.id().clone().bytes,
    );
    fams.push(
        MetricFamily {
            name: bytes_of("solana_node_identity_public_key_info"),
            help: bytes_of("The node's current identity"),
            type_: bytes_of("counter"),
            metrics: single_metric(identity_metric),
        },
    );
    proof {
        assert(fams@.last()@.metrics[0].labels =~= spec_identity_family(
            cluster_info@,
        ).metrics[0].labels);
        assert(fams@.last()@.metrics =~= spec_identity_family(cluster_info@).metrics);
    }

    let balance_query = MetricQuery::IdentityBalance(cluster_info.id().clone());
    fams.push(
        MetricFamily {
            name: bytes_of("solana_node_identity_balance_sol"),
            help: bytes_of("The balance of the node's identity account"),
            type_: bytes_of("gauge"),
            metrics: for_each_commitment(banks_with_commitments, &balance_query, identity_info),
        },
    );

    let version_value: Vec<u8> = match cluster_info.get_node_version() {
        Some(v) => vstd::slice::slice_to_vec(v.as_slice()),
        None => Vec::new(),
    };
    proof {
        if cluster_info@.version is None {
            assert(version_value@ =~= Seq::<u8>::empty());
        }
    }
    let version_metric = Metric::new(1).with_label(bytes_of("version"), version_value);
    fams.push(
        MetricFamily {
            name: bytes_of("solana_node_version_info"),
            help: bytes_of("The current Solana node's version"),
            type_: bytes_of("counter"),
            metrics: single_metric(version_metric),
        },
    );
    proof {
        assert(fams@.last()@.metrics[0].labels =~= spec_version_family(
            cluster_info@,
        ).metrics[0].labels);
        assert(fams@.last()@.metrics =~= spec_version_family(cluster_info@).metrics);
        assert(keys_view(vote_accounts@.take(0)) =~= Seq::<Seq<u8>>::empty());
        assert(families_view(fams@) =~= spec_cluster_metric_families(
            banks_with_commitments@,
            cluster_info@,
            keys_view(vote_accounts@.take(0)),
            identity_info@,
        ));
    }

    let mut j: usize = 0;
    while j < vote_accounts.len()
        invariant
            j <= vote_accounts.len(),
            families_view(fams@) == spec_cluster_metric_families(
                banks_with_commitments@,
                cluster_info@,
                keys_view(vote_accounts@.take(j as int)),
                identity_info@,
            ),
        decreases vote_accounts.len() - j,
    {
        push_vote_account_families(
            &mut fams,
            banks_with_commitments,
            &vote_accounts[j],
            identity_info,
        );
        proof {
            let keys_before = keys_view(vote_accounts@.take(j as int));
            let keys_after = keys_view(vote_accounts@.take(j + 1));
            assert(keys_after.drop_last() =~= keys_before);
            assert(keys_after.last() == vote_accounts@[j as int]@);
            assert(families_view(fams@) =~= spec_cluster_metric_families(
                banks_with_commitments@,
                cluster_info@,
                keys_after,
                identity_info@,
            ));
        }
        j = j + 1;
    }
    proof {
        assert(vote_accounts@.take(vote_accounts@.len() as int) =~= vote_accounts@);
    }
    fams
}

/// Emits the full family sequence to `out`, family by family. On success the
/// sink has accepted exactly the rendered text of every family in order; a
/// refused write aborts the remaining families immediately, leaving the sink
/// holding exactly the families already flushed — a strict prefix, which is
/// neither retried nor rolled back. The tracked vote accounts stand for a
/// set: each key is expected once, as a repeated key repeats its families
/// verbatim.
pub fn write_cluster_metrics<S: MetricSink>(
    banks_with_commitments: &BanksWithCommitments,
    cluster_info: &ClusterInfo,
    vote_accounts: &Vec<Pubkey>,
    identity_info: &IdentityInfoMap,
    out: &mut S,
) -> (r: Result<(), WriteError>)
    ensures
        r is Ok ==> final(out).written() == old(out).written() + families_text(
            spec_cluster_metric_families(
                banks_with_commitments@,
                cluster_info@,
                keys_view(vote_accounts@),
                identity_info@,
            ),
        ),
        r is Err ==> exists|k: int|
            0 <= k < spec_cluster_metric_families(
                banks_with_commitments@,
                cluster_info@,
                keys_view(vote_accounts@),
                identity_info@,
            ).len() && final(out).written() == old(out).written() + families_text(
                spec_cluster_metric_families(
                    banks_with_commitments@,
                    cluster_info@,
                    keys_view(vote_accounts@),
                    identity_info@,
                ).take(k),
            ),
{
    let fams = collect_cluster_metric_families(
        banks_with_commitments,
        cluster_info,
        vote_accounts,
        identity_info,
    );
    let ghost fams_v = families_view(fams@);
    let mut i: usize = 0;
    proof {
        assert(fams_v.take(0) =~= Seq::<MetricFamilyV>::empty());
        assert(out.written() + families_text(fams_v.take(0)) =~= out.written());
    }
    while i < fams.len()
        invariant
            i <= fams.len(),
            fams_v == families_view(fams@),
            fams_v == spec_cluster_metric_families(
                banks_with_commitments@,
                cluster_info@,
                keys_view(vote_accounts@),
                identity_info@,
            ),
            out.written() == old(out).written() + families_text(fams_v.take(i as int)),
        decreases fams.len() - i,
    {
        match write_metric(out, &fams[i]) {
            Ok(()) => {
                proof {
                    crate::utils::lemma_families_text_step(fams_v, i as int);
                    assert(fams_v[i as int] == fams@[i as int]@);
                }
            },
            Err(e) => {
                proof {
                    assert((i as int) < fams_v.len());
                }
                return Err(e);
            },
        }
        i = i + 1;
    }
    proof {
        assert(fams_v.take(fams@.len() as int) =~= fams_v);
    }
    Ok(())
}

} // verus!
