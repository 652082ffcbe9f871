use prometheus::banks_with_commitments::{Bank, BanksWithCommitments, VoteAccountEntry, VoteState};
use prometheus::cluster_metrics::{
    collect_cluster_metric_families, for_each_commitment, get_vote_state, write_cluster_metrics,
    ClusterInfo, MetricQuery,
};
use prometheus::identity_info::{IdentityInfoMap, ValidatorInfo};
use prometheus::utils::{
    render_family, render_value, BufferSink, FailingSink, Metric, MetricValue,
};
use prometheus::{Lamports, Pubkey};

fn pk(s: &str) -> Pubkey {
    Pubkey::new(s.as_bytes().to_vec())
}

fn empty_bank() -> Bank {
    Bank { balances: Vec::new(), vote_accounts: Vec::new() }
}

fn entry(vote_key: &str, stake: u64, state: Option<VoteState>) -> VoteAccountEntry {
    VoteAccountEntry { vote_pubkey: pk(vote_key), activated_stake: stake, vote_state: state }
}

fn voting_state(identity: &str, votes: Vec<u64>, credits: u64) -> VoteState {
    VoteState { node_pubkey: pk(identity), votes, credits }
}

fn label_names(m: &Metric) -> Vec<Vec<u8>> {
    m.labels.iter().map(|l| l.name.clone()).collect()
}

fn label_value(m: &Metric, name: &str) -> Option<Vec<u8>> {
    m.labels.iter().find(|l| l.name == name.as_bytes().to_vec()).map(|l| l.value.clone())
}

#[test]
fn count_values_render_unscaled() {
    assert_eq!(render_value(&MetricValue::Count(0)), b"0".to_vec());
    assert_eq!(render_value(&MetricValue::Count(7)), b"7".to_vec());
    assert_eq!(render_value(&MetricValue::Count(1234567890)), b"1234567890".to_vec());
}

#[test]
fn sol_values_render_scaled_by_lamports_per_sol() {
    assert_eq!(render_value(&MetricValue::Sol(Lamports(0))), b"0.000000000".to_vec());
    assert_eq!(render_value(&MetricValue::Sol(Lamports(5))), b"0.000000005".to_vec());
    assert_eq!(
        render_value(&MetricValue::Sol(Lamports(1_500_000_000))),
        b"1.500000000".to_vec()
    );
    assert_eq!(
        render_value(&MetricValue::Sol(Lamports(42_000_000_001))),
        b"42.000000001".to_vec()
    );
}

#[test]
fn family_renders_help_type_and_series_lines() {
    let metric = Metric::new(3)
        .with_label(b"alpha".to_vec(), b"a".to_vec())
        .with_label(b"beta".to_vec(), b"b".to_vec());
    let mut metrics = Vec::new();
    metrics.push(metric);
    let family = prometheus::utils::MetricFamily {
        name: b"demo_total".to_vec(),
        help: b"A demonstration".to_vec(),
        type_: b"counter".to_vec(),
        metrics,
    };
    let expected = b"# HELP demo_total A demonstration\n\
# TYPE demo_total counter\n\
demo_total{alpha=\"a\",beta=\"b\"} 3\n"
        .to_vec();
    assert_eq!(render_family(&family), expected);
}

#[test]
fn metric_without_labels_renders_without_braces() {
    let mut metrics = Vec::new();
    metrics.push(Metric::new(1));
    let family = prometheus::utils::MetricFamily {
        name: b"bare".to_vec(),
        help: b"No labels".to_vec(),
        type_: b"gauge".to_vec(),
        metrics,
    };
    let expected = b"# HELP bare No labels\n# TYPE bare gauge\nbare 1\n".to_vec();
    assert_eq!(render_family(&family), expected);
}

#[test]
fn fan_out_drops_levels_without_a_value() {
    // The account votes in the finalized snapshot, is absent from the
    // confirmed one, and exists with no votes in the processed one: exactly
    // one series results, labeled with its level.
    let finalized = Bank {
        balances: vec![(pk("VOTE1"), 9)],
        vote_accounts: vec![entry("VOTE1", 10, Some(voting_state("ID1", vec![4, 8], 2)))],
    };
    let confirmed = empty_bank();
    let processed = Bank {
        balances: Vec::new(),
        vote_accounts: vec![entry("VOTE1", 10, Some(voting_state("ID1", Vec::new(), 0)))],
    };
    let banks = BanksWithCommitments {
        finalized_bank: finalized,
        confirmed_bank: confirmed,
        processed_bank: processed,
    };
    let info = IdentityInfoMap::new();
    let series =
        for_each_commitment(&banks, &MetricQuery::LastVoteSlot(pk("VOTE1")), &info);
    assert_eq!(series.len(), 1);
    assert_eq!(label_value(&series[0], "commitment_level"), Some(b"finalized".to_vec()));
    assert!(matches!(series[0].value, MetricValue::Count(8)));
}

#[test]
fn zero_votes_produce_no_last_vote_series_at_any_level() {
    let make_bank = || Bank {
        balances: vec![(pk("VOTE1"), 77)],
        vote_accounts: vec![entry("VOTE1", 5, Some(voting_state("ID1", Vec::new(), 0)))],
    };
    let banks = BanksWithCommitments {
        finalized_bank: make_bank(),
        confirmed_bank: make_bank(),
        processed_bank: make_bank(),
    };
    let info = IdentityInfoMap::new();
    let series =
        for_each_commitment(&banks, &MetricQuery::LastVoteSlot(pk("VOTE1")), &info);
    assert_eq!(series.len(), 0);
    // The account itself still exists and holds a balance, so the balance
    // query still yields a series at every level.
    assert_eq!(banks.finalized_bank.get_balance(&pk("VOTE1")), 77);
    let balances =
        for_each_commitment(&banks, &MetricQuery::VoteAccountBalance(pk("VOTE1")), &info);
    assert_eq!(balances.len(), 3);
    assert_eq!(render_value(&balances[0].value), b"0.000000077".to_vec());
}

#[test]
fn unreadable_vote_state_degrades_to_no_record() {
    let bank = Bank {
        balances: vec![(pk("VOTE1"), 77)],
        vote_accounts: vec![entry("VOTE1", 5, None)],
    };
    let info = IdentityInfoMap::new();
    assert!(get_vote_state(&bank, &pk("VOTE1"), &info).is_none());
}

#[test]
fn absent_account_resolves_no_record_and_zero_balance() {
    let bank = empty_bank();
    let info = IdentityInfoMap::new();
    assert!(get_vote_state(&bank, &pk("VOTE1"), &info).is_none());
    assert_eq!(bank.get_balance(&pk("VOTE1")), 0);
}

#[test]
fn resolved_record_carries_balance_credits_stake_and_identity() {
    let bank = Bank {
        balances: vec![(pk("VOTE1"), 123), (pk("ID1"), 55)],
        vote_accounts: vec![entry("VOTE1", 900, Some(voting_state("ID1", vec![3, 6, 11], 40)))],
    };
    let mut info = IdentityInfoMap::new();
    info.entries.push((pk("ID1"), ValidatorInfo { name: b"Alice".to_vec() }));
    let record = get_vote_state(&bank, &pk("VOTE1"), &info).unwrap();
    assert_eq!(record.balance.0, 123);
    assert_eq!(record.last_vote, 11);
    assert_eq!(record.vote_credits, 40);
    assert_eq!(record.identity.bytes, b"ID1".to_vec());
    assert_eq!(record.activated_stake.0, 900);
    assert_eq!(record.validator_info.unwrap().name, b"Alice".to_vec());
}

#[test]
fn validator_name_label_present_iff_metadata_exists() {
    let bank = Bank {
        balances: Vec::new(),
        vote_accounts: vec![
            entry("VOTE1", 1, Some(voting_state("ID1", vec![2], 1))),
            entry("VOTE2", 1, Some(voting_state("ID2", vec![2], 1))),
        ],
    };
    let banks = BanksWithCommitments {
        finalized_bank: bank,
        confirmed_bank: empty_bank(),
        processed_bank: empty_bank(),
    };
    let mut info = IdentityInfoMap::new();
    info.entries.push((pk("ID1"), ValidatorInfo { name: b"Alice".to_vec() }));
    let named = for_each_commitment(&banks, &MetricQuery::VoteCredits(pk("VOTE1")), &info);
    assert_eq!(named.len(), 1);
    assert_eq!(label_value(&named[0], "validator_name"), Some(b"Alice".to_vec()));
    let unnamed = for_each_commitment(&banks, &MetricQuery::VoteCredits(pk("VOTE2")), &info);
    assert_eq!(unnamed.len(), 1);
    assert!(label_value(&unnamed[0], "validator_name").is_none());
    assert!(!label_names(&unnamed[0]).contains(&b"validator_name".to_vec()));
}

#[test]
fn two_vote_accounts_at_a_single_level() {
    // A has votes and metadata; B exists with a balance but has cast no
    // votes and has no metadata. The last-vote figure exists only with a
    // vote record, so only A yields one; the balance is readable for any
    // account in the vote-account set, so both yield a balance series, and
    // B's carries no name label.
    let bank = Bank {
        balances: vec![(pk("A"), 10), (pk("B"), 20)],
        vote_accounts: vec![
            entry("A", 7, Some(voting_state("IDA", vec![5], 3))),
            entry("B", 8, Some(voting_state("IDB", Vec::new(), 0))),
        ],
    };
    let banks = BanksWithCommitments {
        finalized_bank: bank,
        confirmed_bank: empty_bank(),
        processed_bank: empty_bank(),
    };
    let mut info = IdentityInfoMap::new();
    info.entries.push((pk("IDA"), ValidatorInfo { name: b"Alice".to_vec() }));

    let last_a = for_each_commitment(&banks, &MetricQuery::LastVoteSlot(pk("A")), &info);
    assert_eq!(last_a.len(), 1);
    let last_b = for_each_commitment(&banks, &MetricQuery::LastVoteSlot(pk("B")), &info);
    assert_eq!(last_b.len(), 0);

    let bal_a = for_each_commitment(&banks, &MetricQuery::VoteAccountBalance(pk("A")), &info);
    assert_eq!(bal_a.len(), 1);
    assert_eq!(label_value(&bal_a[0], "validator_name"), Some(b"Alice".to_vec()));
    assert_eq!(render_value(&bal_a[0].value), b"0.000000010".to_vec());
    let bal_b = for_each_commitment(&banks, &MetricQuery::VoteAccountBalance(pk("B")), &info);
    assert_eq!(bal_b.len(), 1);
    assert_eq!(label_value(&bal_b[0], "identity_account"), Some(b"IDB".to_vec()));
    assert!(label_value(&bal_b[0], "validator_name").is_none());
    assert!(!label_names(&bal_b[0]).contains(&b"validator_name".to_vec()));
    assert_eq!(render_value(&bal_b[0].value), b"0.000000020".to_vec());
}

fn sample_setup() -> (BanksWithCommitments, ClusterInfo, Vec<Pubkey>, IdentityInfoMap) {
    let make_bank = |balance: u64| Bank {
        balances: vec![(pk("VOTE1"), balance), (pk("NODE"), 4_000_000_000)],
        vote_accounts: vec![entry("VOTE1", 2_500_000_000, Some(voting_state("ID1", vec![9, 12], 6)))],
    };
    let banks = BanksWithCommitments {
        finalized_bank: make_bank(1_000_000_000),
        confirmed_bank: make_bank(1_100_000_000),
        processed_bank: empty_bank(),
    };
    let cluster = ClusterInfo { identity: pk("NODE"), version: Some(b"1.14.17".to_vec()) };
    let vote_keys = vec![pk("VOTE1")];
    let mut info = IdentityInfoMap::new();
    info.entries.push((pk("ID1"), ValidatorInfo { name: b"Alice".to_vec() }));
    (banks, cluster, vote_keys, info)
}

#[test]
fn writer_output_is_deterministic() {
    let (banks, cluster, vote_keys, info) = sample_setup();
    let mut first = BufferSink::new();
    write_cluster_metrics(&banks, &cluster, &vote_keys, &info, &mut first).unwrap();
    let mut second = BufferSink::new();
    write_cluster_metrics(&banks, &cluster, &vote_keys, &info, &mut second).unwrap();
    assert!(!first.bytes.is_empty());
    assert_eq!(first.bytes, second.bytes);
}

#[test]
fn writer_emits_collected_families_in_order() {
    let (banks, cluster, vote_keys, info) = sample_setup();
    let families = collect_cluster_metric_families(&banks, &cluster, &vote_keys, &info);
    assert_eq!(families.len(), 7);
    assert_eq!(families[0].name, b"solana_node_identity_public_key_info".to_vec());
    assert_eq!(families[1].name, b"solana_node_identity_balance_sol".to_vec());
    assert_eq!(families[2].name, b"solana_node_version_info".to_vec());
    assert_eq!(families[3].name, b"solana_validator_last_vote_slot".to_vec());
    assert_eq!(families[4].name, b"solana_validator_vote_account_balance_sol".to_vec());
    assert_eq!(families[5].name, b"solana_validator_vote_credits".to_vec());
    assert_eq!(families[6].name, b"solana_validator_active_stake_sol".to_vec());
    let mut expected: Vec<u8> = Vec::new();
    for f in &families {
        expected.extend_from_slice(&render_family(f));
    }
    let mut sink = BufferSink::new();
    write_cluster_metrics(&banks, &cluster, &vote_keys, &info, &mut sink).unwrap();
    assert_eq!(sink.bytes, expected);
}

#[test]
fn identity_and_version_families_hold_one_series_each() {
    let (banks, cluster, vote_keys, info) = sample_setup();
    let families = collect_cluster_metric_families(&banks, &cluster, &vote_keys, &info);
    assert_eq!(families[0].metrics.len(), 1);
    assert_eq!(label_value(&families[0].metrics[0], "identity_account"), Some(b"NODE".to_vec()));
    assert_eq!(families[2].metrics.len(), 1);
    assert_eq!(label_value(&families[2].metrics[0], "version"), Some(b"1.14.17".to_vec()));
    // The identity balance fans out across all levels: the query always
    // resolves, so all three levels contribute a series.
    assert_eq!(families[1].metrics.len(), 3);
    assert_eq!(render_value(&families[1].metrics[0].value), b"4.000000000".to_vec());
    assert_eq!(render_value(&families[1].metrics[2].value), b"0.000000000".to_vec());
}

#[test]
fn unknown_version_renders_as_empty_label_value() {
    let (banks, _, vote_keys, info) = sample_setup();
    let cluster = ClusterInfo { identity: pk("NODE"), version: None };
    let families = collect_cluster_metric_families(&banks, &cluster, &vote_keys, &info);
    assert_eq!(label_value(&families[2].metrics[0], "version"), Some(Vec::new()));
}

#[test]
fn empty_tracked_set_emits_only_node_families() {
    let (banks, cluster, _, info) = sample_setup();
    let vote_keys: Vec<Pubkey> = Vec::new();
    let families = collect_cluster_metric_families(&banks, &cluster, &vote_keys, &info);
    assert_eq!(families.len(), 3);
}

#[test]
fn write_failure_aborts_remaining_families() {
    let (banks, cluster, vote_keys, info) = sample_setup();
    let families = collect_cluster_metric_families(&banks, &cluster, &vote_keys, &info);
    // The sink accepts two families and refuses the third: the error
    // surfaces, the two flushed families stay, nothing later is written.
    let mut sink = FailingSink::new(2);
    let result = write_cluster_metrics(&banks, &cluster, &vote_keys, &info, &mut sink);
    assert!(result.is_err());
    let mut expected: Vec<u8> = Vec::new();
    expected.extend_from_slice(&render_family(&families[0]));
    expected.extend_from_slice(&render_family(&families[1]));
    assert_eq!(sink.bytes, expected);
}

#[test]
fn immediate_write_failure_leaves_sink_empty() {
    let (banks, cluster, vote_keys, info) = sample_setup();
    let mut sink = FailingSink::new(0);
    let result = write_cluster_metrics(&banks, &cluster, &vote_keys, &info, &mut sink);
    assert!(result.is_err());
    assert!(sink.bytes.is_empty());
}

#[test]
fn full_output_matches_expected_text() {
    let finalized = Bank {
        balances: vec![(pk("VOTE1"), 1_000_000_000), (pk("NODE"), 4_000_000_000)],
        vote_accounts: vec![entry(
            "VOTE1",
            2_500_000_000,
            Some(voting_state("ID1", vec![9, 12], 6)),
        )],
    };
    let banks = BanksWithCommitments {
        finalized_bank: finalized,
        confirmed_bank: empty_bank(),
        processed_bank: empty_bank(),
    };
    let cluster = ClusterInfo { identity: pk("NODE"), version: Some(b"1.14.17".to_vec()) };
    let vote_keys = vec![pk("VOTE1")];
    let mut info = IdentityInfoMap::new();
    info.entries.push((pk("ID1"), ValidatorInfo { name: b"Alice".to_vec() }));

    let mut sink = BufferSink::new();
    write_cluster_metrics(&banks, &cluster, &vote_keys, &info, &mut sink).unwrap();

    let expected = "\
# HELP solana_node_identity_public_key_info The node's current identity\n\
# TYPE solana_node_identity_public_key_info counter\n\
solana_node_identity_public_key_info{identity_account=\"NODE\"} 1\n\
# HELP solana_node_identity_balance_sol The balance of the node's identity account\n\
# TYPE solana_node_identity_balance_sol gauge\n\
solana_node_identity_balance_sol{identity_account=\"NODE\",commitment_level=\"finalized\"} 4.000000000\n\
solana_node_identity_balance_sol{identity_account=\"NODE\",commitment_level=\"confirmed\"} 0.000000000\n\
solana_node_identity_balance_sol{identity_account=\"NODE\",commitment_level=\"processed\"} 0.000000000\n\
# HELP solana_node_version_info The current Solana node's version\n\
# TYPE solana_node_version_info counter\n\
solana_node_version_info{version=\"1.14.17\"} 1\n\
# HELP solana_validator_last_vote_slot The voted-on slot of the validator's last vote that got included in the chain\n\
# TYPE solana_validator_last_vote_slot gauge\n\
solana_validator_last_vote_slot{identity_account=\"ID1\",vote_account=\"VOTE1\",validator_name=\"Alice\",commitment_level=\"finalized\"} 12\n\
# HELP solana_validator_vote_account_balance_sol The balance of the vote account at the given address\n\
# TYPE solana_validator_vote_account_balance_sol gauge\n\
solana_validator_vote_account_balance_sol{identity_account=\"ID1\",vote_account=\"VOTE1\",validator_name=\"Alice\",commitment_level=\"finalized\"} 1.000000000\n\
# HELP solana_validator_vote_credits The total number of vote credits credited to this vote account\n\
# TYPE solana_validator_vote_credits gauge\n\
solana_validator_vote_credits{identity_account=\"ID1\",vote_account=\"VOTE1\",validator_name=\"Alice\",commitment_level=\"finalized\"} 6\n\
# HELP solana_validator_active_stake_sol The total amount of Sol actively staked to this validator\n\
# TYPE solana_validator_active_stake_sol gauge\n\
solana_validator_active_stake_sol{identity_account=\"ID1\",vote_account=\"VOTE1\",validator_name=\"Alice\",commitment_level=\"finalized\"} 2.500000000\n";
    assert_eq!(String::from_utf8(sink.bytes).unwrap(), expected);
}
