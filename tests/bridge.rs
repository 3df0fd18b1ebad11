use std::time::{Duration, Instant};

use stylus_bridge::{
    connect, is_category, prepare, AggregateCounts, ConfigError, Connection, Counter,
    DispatchQueue, LedgerConfig, LoadFailure, OfflineReason, RecordOutcome, StateMirror,
    NUM_CATEGORIES,
};

const RPC_URL: &str = "http://localhost:8547";
const ADDRESS: &str = "0x5fbdb2315678afecb367f032d93f642f64180aa3";
const KEY: &str = "0x0000000000000000000000000000000000000000000000000000000000000001";

fn config(url: Option<&str>, address: Option<&str>, key: Option<&str>) -> LedgerConfig {
    LedgerConfig {
        rpc_url: url.map(|s| s.to_string()),
        contract_address: address.map(|s| s.to_string()),
        account_key: key.map(|s| s.to_string()),
    }
}

fn seeded(red: u64, green: u64, blue: u64) -> StateMirror {
    let ledger = Counter::with_counts(red, green, blue);
    StateMirror::start(true, Ok(AggregateCounts::from_counter(&ledger)))
}

#[test]
fn categories_are_zero_to_two() {
    assert_eq!(NUM_CATEGORIES, 3);
    assert!(is_category(0));
    assert!(is_category(2));
    assert!(!is_category(3));
    assert!(!is_category(255));
}

#[test]
fn counter_starts_at_zero() {
    assert_eq!(Counter::new().get_sword_counts(), (0, 0, 0));
}

#[test]
fn counter_increments_each_category() {
    let mut c = Counter::new();
    c.increment_sword(0);
    c.increment_sword(0);
    c.increment_sword(1);
    c.increment_sword(2);
    assert_eq!(c.get_sword_counts(), (2, 1, 1));
}

#[test]
fn counter_ignores_out_of_range_category() {
    let mut c = Counter::with_counts(4, 5, 6);
    c.increment_sword(3);
    c.increment_sword(u64::MAX);
    assert_eq!(c.get_sword_counts(), (4, 5, 6));
}

#[test]
fn counter_stays_at_top_of_range() {
    let mut c = Counter::with_counts(u64::MAX, 0, 0);
    c.increment_sword(0);
    assert_eq!(c.get_sword_counts(), (u64::MAX, 0, 0));
}

#[test]
fn load_initial_expands_two_one_zero() {
    let m = seeded(2, 1, 0);
    let entries = m.entries();
    assert_eq!(entries.len(), 3);
    assert_eq!(entries.iter().filter(|&&c| c == 0).count(), 2);
    assert_eq!(entries.iter().filter(|&&c| c == 1).count(), 1);
    assert_eq!(entries.iter().filter(|&&c| c == 2).count(), 0);
    assert_eq!(m.tally(), vec![2, 1, 0]);
    assert!(m.online());
}

#[test]
fn load_initial_from_separate_reads() {
    let counts = AggregateCounts::from_reads(vec![Some(2), Some(1), Some(0)]).ok().unwrap();
    assert_eq!(counts.count(0), 2);
    assert_eq!(counts.count(1), 1);
    assert_eq!(counts.count(2), 0);
    let m = StateMirror::start(true, Ok(counts));
    assert_eq!(m.entries(), &[0, 0, 1]);
}

#[test]
fn load_initial_all_reads_failing_gives_empty_log() {
    let read = AggregateCounts::from_reads(vec![None, None, None]);
    assert_eq!(read.as_ref().err(), Some(&LoadFailure::RemoteRead));
    let m = StateMirror::start(true, read);
    assert!(m.entries().is_empty());
    assert_eq!(m.tally(), vec![0, 0, 0]);
}

#[test]
fn load_initial_one_failed_read_is_never_partial() {
    let read = AggregateCounts::from_reads(vec![Some(5), None, Some(1)]);
    assert_eq!(read.as_ref().err(), Some(&LoadFailure::RemoteRead));
    let m = StateMirror::start(true, read);
    assert!(m.entries().is_empty());
}

#[test]
fn load_initial_wrong_number_of_reads_fails() {
    let short = AggregateCounts::from_reads(vec![Some(1), Some(1)]);
    assert_eq!(short.as_ref().err(), Some(&LoadFailure::RemoteRead));
    let long = AggregateCounts::from_reads(vec![Some(1), Some(1), Some(1), Some(1)]);
    assert_eq!(long.as_ref().err(), Some(&LoadFailure::RemoteRead));
}

#[test]
fn load_initial_crashed_worker_gives_empty_log() {
    let m = StateMirror::start(true, Err(LoadFailure::Bridge));
    assert!(m.entries().is_empty());
    assert!(m.online());
}

#[test]
fn load_initial_offline_ignores_counts() {
    let m = StateMirror::start(false, Ok(AggregateCounts::from_counter(&Counter::with_counts(3, 3, 3))));
    assert!(m.entries().is_empty());
    assert!(!m.online());
}

#[test]
fn record_appends_at_once_and_asks_for_remote_write() {
    let mut m = seeded(1, 0, 0);
    assert_eq!(m.record(2), RecordOutcome::Propagate(2));
    assert_eq!(m.entries(), &[0, 2]);
    assert_eq!(m.record(0), RecordOutcome::Propagate(0));
    assert_eq!(m.entries(), &[0, 2, 0]);
}

#[test]
fn record_keeps_entry_when_remote_write_is_dropped() {
    let mut m = seeded(0, 0, 0);
    let mut queue = DispatchQueue::new(0);
    if let RecordOutcome::Propagate(c) = m.record(1) {
        assert!(!queue.submit(c));
    } else {
        panic!("an online mirror asks for the remote write");
    }
    assert_eq!(m.entries(), &[1]);
    assert_eq!(queue.len(), 0);
}

#[test]
fn record_rejects_unsupported_category() {
    let mut m = seeded(0, 1, 0);
    assert_eq!(m.record(3), RecordOutcome::Rejected);
    assert_eq!(m.record(200), RecordOutcome::Rejected);
    assert_eq!(m.entries(), &[1]);
}

#[test]
fn many_records_all_land_without_waiting() {
    let mut m = seeded(0, 0, 0);
    let mut queue = DispatchQueue::new(8);
    let n: usize = 1000;
    let started = Instant::now();
    let mut accepted: usize = 0;
    for i in 0..n {
        let c = (i % 3) as u8;
        if let RecordOutcome::Propagate(c) = m.record(c) {
            if queue.submit(c) {
                accepted += 1;
            }
        }
    }
    assert!(started.elapsed() < Duration::from_secs(1));
    assert_eq!(m.entries().len(), n);
    for (i, &c) in m.entries().iter().enumerate() {
        assert_eq!(c, (i % 3) as u8);
    }
    assert_eq!(accepted, 8);
    assert_eq!(queue.len(), 8);
    assert_eq!(m.tally(), vec![334, 333, 333]);
}

#[test]
fn offline_missing_key_then_record_one() {
    let prepared = prepare(config(Some(RPC_URL), Some(ADDRESS), None));
    assert_eq!(prepared.as_ref().err(), Some(&ConfigError::MissingAccountKey));
    let connection = connect(prepared, Some(1));
    assert!(!connection.is_online());
    assert!(matches!(
        connection,
        Connection::Offline(OfflineReason::Config(ConfigError::MissingAccountKey))
    ));
    let mut m = StateMirror::start(connection.is_online(), Err(LoadFailure::RemoteRead));
    assert!(m.entries().is_empty());
    let mut queue = DispatchQueue::new(4);
    let outcome = m.record(1);
    assert_eq!(outcome, RecordOutcome::LocalOnly);
    if let RecordOutcome::Propagate(c) = outcome {
        queue.submit(c);
    }
    assert_eq!(m.entries(), &[1]);
    assert!(queue.is_empty());
}

#[test]
fn prepare_reports_missing_values_in_order() {
    assert_eq!(prepare(config(None, None, None)).err(), Some(ConfigError::MissingRpcUrl));
    assert_eq!(
        prepare(config(Some(RPC_URL), None, Some(KEY))).err(),
        Some(ConfigError::MissingContractAddress)
    );
    assert_eq!(
        prepare(config(None, Some(ADDRESS), Some(KEY))).err(),
        Some(ConfigError::MissingRpcUrl)
    );
}

#[test]
fn prepare_rejects_malformed_endpoint() {
    assert_eq!(
        prepare(config(Some("not a url"), Some(ADDRESS), Some(KEY))).err(),
        Some(ConfigError::InvalidRpcUrl)
    );
}

#[test]
fn prepare_rejects_malformed_address() {
    for bad in ["0x1234", "", "0xzz5fbdb2315678afecb367f032d93f642f64180a", "0X5fbdb2315678afecb367f032d93f642f64180aa3"] {
        assert_eq!(
            prepare(config(Some(RPC_URL), Some(bad), Some(KEY))).err(),
            Some(ConfigError::InvalidContractAddress)
        );
    }
}

#[test]
fn prepare_accepts_address_forms() {
    for good in [
        "5fbdb2315678afecb367f032d93f642f64180aa3",
        "0x5FBDB2315678AFECB367F032D93F642F64180AA3",
        "0x5fbdb2315678afecb367f032d93f642f64180aa3\n",
    ] {
        assert!(prepare(config(Some(RPC_URL), Some(good), Some(KEY))).is_ok());
    }
}

#[test]
fn prepare_rejects_malformed_key() {
    let zero = "0x0000000000000000000000000000000000000000000000000000000000000000";
    for bad in ["", "0x12", "not hex at all", zero] {
        assert_eq!(
            prepare(config(Some(RPC_URL), Some(ADDRESS), Some(bad))).err(),
            Some(ConfigError::InvalidAccountKey)
        );
    }
}

#[test]
fn connect_online_with_chain_id() {
    let connection = connect(prepare(config(Some(RPC_URL), Some(ADDRESS), Some(KEY))), Some(421614));
    assert!(connection.is_online());
    match connection {
        Connection::Online(client) => {
            assert_eq!(client.chain_id(), 421614);
            assert_eq!(client.account_key(), KEY);
            assert_eq!(format!("{:?}", client.contract_address()), ADDRESS);
        }
        Connection::Offline(_) => panic!("a complete configuration with a chain id is online"),
    }
}

#[test]
fn connect_offline_when_chain_id_unavailable() {
    let connection = connect(prepare(config(Some(RPC_URL), Some(ADDRESS), Some(KEY))), None);
    assert!(matches!(connection, Connection::Offline(OfflineReason::Connect)));
}

#[test]
fn connect_offline_on_config_error() {
    let connection = connect(Err(ConfigError::InvalidRpcUrl), Some(1));
    assert!(matches!(
        connection,
        Connection::Offline(OfflineReason::Config(ConfigError::InvalidRpcUrl))
    ));
}

#[test]
fn dispatch_queue_is_fifo_and_bounded() {
    let mut q = DispatchQueue::new(2);
    assert!(q.is_empty());
    assert!(q.submit(2));
    assert!(q.submit(0));
    assert!(!q.submit(1));
    assert_eq!(q.len(), 2);
    assert_eq!(q.take(), Some(2));
    assert!(q.submit(1));
    assert_eq!(q.take(), Some(0));
    assert_eq!(q.take(), Some(1));
    assert_eq!(q.take(), None);
}
