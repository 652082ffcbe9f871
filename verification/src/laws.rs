//! Properties of the aggregation engine, stated and proved over the spec
//! functions that the executable functions' contracts are written against.

use vstd::prelude::*;
use vstd::string::StringSliceAdditionalSpecFns;

use crate::banks_with_commitments::{spec_vote_account, BankV, BanksWithCommitmentsV,
    CommitmentLevel};
use crate::cluster_metrics::{
    spec_effective_vote_state, spec_for_each_commitment, spec_get_vote_state, spec_level_series,
    spec_resolve_metric, spec_vote_labels, MetricQueryV,
};
use crate::identity_info::{spec_identity_info, IdentityInfoMapV};
use crate::text::{lemma_dec_pad_round_trip, lemma_dec_round_trip, pow10, spec_dec, spec_dec_pad,
    spec_dec_val};
use crate::utils::{value_text, LabelV, MetricValue, LAMPORTS_PER_SOL};

verus! {

/// How many commitment levels resolve a value for this query.
pub open spec fn spec_levels_with_value(
    banks: BanksWithCommitmentsV,
    q: MetricQueryV,
    info: IdentityInfoMapV,
) -> int {
    (if spec_resolve_metric(banks.finalized_bank, q, info) is Some {
        1int
    } else {
        0int
    }) + (if spec_resolve_metric(banks.confirmed_bank, q, info) is Some {
        1int
    } else {
        0int
    }) + (if spec_resolve_metric(banks.processed_bank, q, info) is Some {
        1int
    } else {
        0int
    })
}

/// A family fanned out over the commitment levels holds one series per level
/// with a present value and none for the others: its cardinality is exactly
/// the number of levels where the query resolved.
pub proof fn lemma_family_series_count(
    banks: BanksWithCommitmentsV,
    q: MetricQueryV,
    info: IdentityInfoMapV,
)
    ensures
        spec_for_each_commitment(banks, q, info).len() == spec_levels_with_value(banks, q, info),
{
}

/// A vote account that exists but has no recorded votes resolves to no
/// record at all; its absence, like that of a missing account, is a normal
/// outcome rather than an error.
pub proof fn lemma_no_votes_no_record(bank: BankV, key: Seq<u8>, info: IdentityInfoMapV)
    requires
        match spec_vote_account(bank.vote_accounts, key) {
            Some(e) => spec_effective_vote_state(e).votes.len() == 0,
            None => true,
        },
    ensures
        spec_get_vote_state(bank, key, info) is None,
{
}

/// A vote account with zero recorded votes at every commitment level
/// produces no last-vote series at any of them: the last-vote family for it
/// is empty.
pub proof fn lemma_no_votes_no_last_vote_series(
    banks: BanksWithCommitmentsV,
    key: Seq<u8>,
    info: IdentityInfoMapV,
)
    requires
        forall|level: CommitmentLevel|
            match spec_vote_account(
                #[trigger] crate::banks_with_commitments::spec_bank_at(
                    banks,
                    level,
                ).vote_accounts,
                key,
            ) {
                Some(e) => spec_effective_vote_state(e).votes.len() == 0,
                None => true,
            },
    ensures
        spec_for_each_commitment(banks, MetricQueryV::LastVoteSlot(key), info).len() == 0,
{
    assert(crate::banks_with_commitments::spec_bank_at(banks, CommitmentLevel::Finalized)
        == banks.finalized_bank);
    assert(crate::banks_with_commitments::spec_bank_at(banks, CommitmentLevel::Confirmed)
        == banks.confirmed_bank);
    assert(crate::banks_with_commitments::spec_bank_at(banks, CommitmentLevel::Processed)
        == banks.processed_bank);
}

/// A rendered series value denotes exactly the raw integer: a count reads
/// back unscaled, and a currency amount splits into the quotient by the
/// scale factor before the dot and the remainder, zero padded, after it.
pub proof fn lemma_value_text_faithful(v: MetricValue)
    ensures
        match v {
            MetricValue::Count(n) => spec_dec_val(value_text(v)) == n,
            MetricValue::Sol(l) => {
                &&& value_text(v) == spec_dec((l.0 / LAMPORTS_PER_SOL) as nat) + seq![46u8]
                    + spec_dec_pad((l.0 % LAMPORTS_PER_SOL) as nat, 9)
                &&& spec_dec_val(spec_dec((l.0 / LAMPORTS_PER_SOL) as nat)) * LAMPORTS_PER_SOL
                    + spec_dec_val(spec_dec_pad((l.0 % LAMPORTS_PER_SOL) as nat, 9)) == l.0
            },
        },
{
    match v {
        MetricValue::Count(n) => {
            lemma_dec_round_trip(n as nat);
        },
        MetricValue::Sol(l) => {
            lemma_dec_round_trip((l.0 / LAMPORTS_PER_SOL) as nat);
            reveal_with_fuel(pow10, 11);
            assert(pow10(9) == 1000000000);
            lemma_dec_pad_round_trip((l.0 % LAMPORTS_PER_SOL) as nat, 9);
            assert((l.0 / LAMPORTS_PER_SOL) * LAMPORTS_PER_SOL + l.0 % LAMPORTS_PER_SOL == l.0);
        },
    }
}

/// The identity-balance query resolves at every commitment level, whatever
/// the vote-account sets hold: a balance is readable — zero for an absent
/// account — even where no vote record exists.
pub proof fn lemma_identity_balance_always_present(
    banks: BanksWithCommitmentsV,
    id: Seq<u8>,
    info: IdentityInfoMapV,
)
    ensures
        spec_for_each_commitment(banks, MetricQueryV::IdentityBalance(id), info).len() == 3,
{
}

/// Re-invoking the writer on identical snapshots appends identical bytes:
/// what `write_cluster_metrics` appends on success is a function of the
/// input views alone, independent of the sink and of any prior output.
pub proof fn lemma_rendering_deterministic(
    banks_a: BanksWithCommitmentsV,
    cluster_a: crate::cluster_metrics::ClusterInfoV,
    keys_a: Seq<Seq<u8>>,
    info_a: IdentityInfoMapV,
    banks_b: BanksWithCommitmentsV,
    cluster_b: crate::cluster_metrics::ClusterInfoV,
    keys_b: Seq<Seq<u8>>,
    info_b: IdentityInfoMapV,
)
    requires
        banks_a == banks_b,
        cluster_a == cluster_b,
        keys_a == keys_b,
        info_a == info_b,
    ensures
        crate::utils::families_text(
            crate::cluster_metrics::spec_cluster_metric_families(
                banks_a,
                cluster_a,
                keys_a,
                info_a,
            ),
        ) == crate::utils::families_text(
            crate::cluster_metrics::spec_cluster_metric_families(
                banks_b,
                cluster_b,
                keys_b,
                info_b,
            ),
        ),
{
}

/// Whether some label in the list carries this name.
pub open spec fn has_label_named(ls: Seq<LabelV>, name: Seq<u8>) -> bool {
    exists|i: int| 0 <= i < ls.len() && ls[i].name == name
}

/// Whether the query asks one of the four per-vote-account figures for `key`.
pub open spec fn is_vote_query_for(q: MetricQueryV, key: Seq<u8>) -> bool {
    ||| q == MetricQueryV::LastVoteSlot(key)
    ||| q == MetricQueryV::VoteAccountBalance(key)
    ||| q == MetricQueryV::VoteCredits(key)
    ||| q == MetricQueryV::ActiveStake(key)
}

proof fn lemma_label_names_distinct()
    ensures
        ("validator_name").spec_bytes() != ("identity_account").spec_bytes(),
        ("validator_name").spec_bytes() != ("vote_account").spec_bytes(),
        ("validator_name").spec_bytes() != ("commitment_level").spec_bytes(),
{
    reveal_strlit("validator_name");
    reveal_strlit("identity_account");
    reveal_strlit("vote_account");
    reveal_strlit("commitment_level");
    vstd::utf8::encode_utf8_decode_utf8(("validator_name")@);
    vstd::utf8::encode_utf8_decode_utf8(("identity_account")@);
    vstd::utf8::encode_utf8_decode_utf8(("vote_account")@);
    vstd::utf8::encode_utf8_decode_utf8(("commitment_level")@);
    assert(("validator_name")@.len() == 14);
    assert(("identity_account")@.len() == 16);
    assert(("vote_account")@.len() == 12);
    assert(("commitment_level")@.len() == 16);
}

/// The identity key a vote query's series speaks for: the node identity of
/// the account's effective vote state.
pub open spec fn spec_series_identity(bank: BankV, key: Seq<u8>) -> Seq<u8> {
    spec_effective_vote_state(spec_vote_account(bank.vote_accounts, key).unwrap()).node_pubkey
}

/// Every series a vote query yields carries the `validator_name` label
/// exactly when the identity metadata lookup has an entry for the identity
/// key the series speaks for; with no entry the label is absent altogether.
pub proof fn lemma_validator_name_label(
    bank: BankV,
    level: CommitmentLevel,
    key: Seq<u8>,
    info: IdentityInfoMapV,
    q: MetricQueryV,
)
    requires
        is_vote_query_for(q, key),
    ensures
        match spec_resolve_metric(bank, q, info) {
            Some(m) => {
                &&& spec_vote_account(bank.vote_accounts, key) is Some
                &&& (has_label_named(
                    spec_level_series(Some(m), level)[0].labels,
                    ("validator_name").spec_bytes(),
                ) <==> spec_identity_info(info, spec_series_identity(bank, key)) is Some)
            },
            None => true,
        },
{
    lemma_label_names_distinct();
    match spec_resolve_metric(bank, q, info) {
        Some(m) => {
            let identity = spec_series_identity(bank, key);
            let looked_up = spec_identity_info(info, identity);
            let vn = ("validator_name").spec_bytes();
            let labeled = spec_level_series(Some(m), level)[0].labels;
            assert(labeled == m.labels.push(
                (LabelV {
                    name: ("commitment_level").spec_bytes(),
                    value: crate::banks_with_commitments::level_label_text(level),
                }),
            ));
            if spec_get_vote_state(bank, key, info) is Some {
                let vi = spec_get_vote_state(bank, key, info).unwrap();
                assert(vi.identity == identity);
                assert(vi.validator_info == looked_up);
            }
            assert(m.labels == spec_vote_labels(key, identity, looked_up));
            match looked_up {
                Some(v) => {
                    assert(labeled[2].name == vn);
                    assert(has_label_named(labeled, vn));
                },
                None => {
                    assert(labeled.len() == 3);
                    assert(labeled[0].name == ("identity_account").spec_bytes());
                    assert(labeled[1].name == ("vote_account").spec_bytes());
                    assert(labeled[2].name == ("commitment_level").spec_bytes());
                    assert(!has_label_named(labeled, vn));
                },
            }
        },
        None => {},
    }
}

/// A vote account with no recorded votes still yields its balance series:
/// the vote-account-balance query resolves as soon as the account is in the
/// snapshot's vote-account set, carrying the recorded balance, while the
/// last-vote query stays empty without a record.
pub proof fn lemma_no_votes_still_balance_series(bank: BankV, key: Seq<u8>, info: IdentityInfoMapV)
    requires
        spec_vote_account(bank.vote_accounts, key) is Some,
    ensures
        spec_resolve_metric(bank, MetricQueryV::VoteAccountBalance(key), info) is Some,
        spec_resolve_metric(bank, MetricQueryV::VoteAccountBalance(key), info).unwrap().value
            == MetricValue::Sol(
            crate::Lamports(crate::banks_with_commitments::spec_balance(bank.balances, key)),
        ),
{
}

} // verus!
