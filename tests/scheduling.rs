use su_core::builder::Builder;
use su_core::decimal::to_decimal;
use su_core::flows::{begin_write, finish_write, WriteAction, WriteError, WritePhase};
use su_core::hash::{hash_step, seed_hash_chain};
use su_core::schedule::{advance_cursor, first_snapshot, next_snapshot, ProcessScheduler, ScheduleError, ScheduleState};
use su_core::tags::{classify, contains_tag, find_tag, ClassifyError, ItemKind, Tag};
use su_core::time::{system_time, system_time_u64};

const SEED_PX: &str = "K-J1AATOkkGSKijEfYBPGgQ2lQJoUbn5UKyqUzJ9shY";
const PX_M1: &str = "pmhniGqp7q1WPxeyKEtj8avI4MnESt5ziF7vb_2-gdA";
const PX_M1_M2: &str = "nbBm9mXnDP0vEv06wt__7BV4HClOfP-ygHpWub7Cv54";
const PX_A: &str = "5EdAdjjtc4JjjM4mevfzNawjEv8_EeP2p5Mpveb37PM";
const PX_A_B: &str = "48jP_gxSGZcblGKV6BdUnmMQJ0h9SYaAlNVa8HfGXE8";

fn tags(pairs: &[(&str, &str)]) -> Vec<Tag> {
    pairs.iter().map(|(n, v)| Tag::new(n, v)).collect()
}

fn process_tags() -> Vec<Tag> {
    tags(&[("Data-Protocol", "ao"), ("Type", "Process"), ("Module", "mod"), ("Scheduler", "su")])
}

fn message_tags() -> Vec<Tag> {
    tags(&[("Data-Protocol", "ao"), ("Type", "Message")])
}

/// Runs one write whose build, upload and persist all succeed.
fn write_ok(s: &mut ProcessScheduler, t: &Vec<Tag>, id: &str, target: &str, now: u64) -> ScheduleState {
    let mut session = begin_write(s, t, &id.to_string(), &target.to_string(), &"0".to_string(), now)
        .expect("write should start");
    assert_eq!(session.advance(true), WriteAction::Upload);
    assert_eq!(session.advance(true), WriteAction::Persist);
    assert_eq!(session.advance(true), WriteAction::Commit);
    let snap = ScheduleState {
        process_id: session.snapshot().process_id.clone(),
        epoch: session.snapshot().epoch.clone(),
        nonce: session.snapshot().nonce,
        hash_chain: session.snapshot().hash_chain.clone(),
        timestamp: session.snapshot().timestamp,
    };
    assert!(finish_write(s, session));
    snap
}

#[test]
fn decimal_rendering() {
    assert_eq!(to_decimal(0), "0");
    assert_eq!(to_decimal(7), "7");
    assert_eq!(to_decimal(10), "10");
    assert_eq!(to_decimal(1234567890), "1234567890");
    assert_eq!(to_decimal(u64::MAX), "18446744073709551615");
}

#[test]
fn classify_process_and_message() {
    assert_eq!(classify(&process_tags()), Ok(ItemKind::Process));
    assert_eq!(classify(&message_tags()), Ok(ItemKind::Message));
}

#[test]
fn classify_errors() {
    assert_eq!(classify(&tags(&[("Type", "Message")])), Err(ClassifyError::MissingProtocol));
    assert_eq!(classify(&tags(&[("Data-Protocol", "ao")])), Err(ClassifyError::MissingType));
    assert_eq!(
        classify(&tags(&[("Data-Protocol", "ao"), ("Type", "Other")])),
        Err(ClassifyError::MissingType)
    );
    assert_eq!(
        classify(&tags(&[("Data-Protocol", "ao"), ("Type", "Process"), ("Scheduler", "su")])),
        Err(ClassifyError::MissingProcessTags)
    );
    assert_eq!(classify(&vec![]), Err(ClassifyError::MissingProtocol));
}

#[test]
fn classify_uses_first_type_tag() {
    let t = tags(&[("Data-Protocol", "ao"), ("Type", "Message"), ("Type", "Process")]);
    assert_eq!(classify(&t), Ok(ItemKind::Message));
}

#[test]
fn seed_and_step_of_hash_chain() {
    assert_eq!(seed_hash_chain("Px"), SEED_PX);
    assert_eq!(hash_step(SEED_PX, "M1"), Some(PX_M1.to_string()));
    assert_eq!(hash_step(PX_M1, "M2"), Some(PX_M1_M2.to_string()));
}

#[test]
fn hash_step_rejects_invalid_link() {
    assert_eq!(hash_step("not base64!", "M1"), None);
}

#[test]
fn next_snapshot_advances_cursor() {
    let s0 = first_snapshot(&"Px".to_string(), &"0".to_string(), 100);
    assert_eq!(s0.nonce, 0);
    assert_eq!(s0.hash_chain, SEED_PX);
    assert_eq!(s0.timestamp, 100);
    let s1 = next_snapshot(&s0, &"M1".to_string(), 150).unwrap();
    assert_eq!(s1.process_id, "Px");
    assert_eq!(s1.epoch, "0");
    assert_eq!(s1.nonce, 1);
    assert_eq!(s1.hash_chain, PX_M1);
    assert_eq!(s1.timestamp, 150);
}

#[test]
fn timestamp_clamp() {
    let s0 = first_snapshot(&"Px".to_string(), &"0".to_string(), 500);
    let s1 = next_snapshot(&s0, &"M1".to_string(), 400).unwrap();
    assert_eq!(s1.timestamp, 500);
}

#[test]
fn nonce_exhausted() {
    let s = ScheduleState {
        process_id: "Px".to_string(),
        epoch: "0".to_string(),
        nonce: u64::MAX,
        hash_chain: SEED_PX.to_string(),
        timestamp: 1,
    };
    assert!(matches!(next_snapshot(&s, &"M1".to_string(), 2), Err(ScheduleError::ScheduleExhausted)));
}

#[test]
fn corrupt_chain_is_internal_error() {
    let s = ScheduleState {
        process_id: "Px".to_string(),
        epoch: "0".to_string(),
        nonce: 3,
        hash_chain: "***".to_string(),
        timestamp: 1,
    };
    assert!(matches!(next_snapshot(&s, &"M1".to_string(), 2), Err(ScheduleError::Internal)));
}

#[test]
fn process_create_then_first_message() {
    let mut s = ProcessScheduler::new();
    let p = write_ok(&mut s, &process_tags(), "Px", "", 1000);
    assert_eq!(p.nonce, 0);
    assert_eq!(p.hash_chain, SEED_PX);
    assert_eq!(p.timestamp, 1000);
    assert_eq!(s.cursor(&"Px".to_string()).unwrap().nonce, 0);
    let m = write_ok(&mut s, &message_tags(), "M1", "Px", 1005);
    assert_eq!(m.nonce, 1);
    assert_eq!(m.hash_chain, PX_M1);
    assert!(m.timestamp >= 1000);
    assert_eq!(s.cursor(&"Px".to_string()).unwrap().hash_chain, PX_M1);
}

#[test]
fn two_messages_same_process() {
    let mut s = ProcessScheduler::new();
    write_ok(&mut s, &process_tags(), "Px", "", 1);
    let a = write_ok(&mut s, &message_tags(), "A", "Px", 2);
    let b = write_ok(&mut s, &message_tags(), "B", "Px", 2);
    assert_eq!(a.nonce, 1);
    assert_eq!(b.nonce, 2);
    assert_eq!(a.hash_chain, PX_A);
    assert_eq!(b.hash_chain, PX_A_B);
}

#[test]
fn distinct_processes_keep_separate_cursors() {
    let mut s = ProcessScheduler::new();
    write_ok(&mut s, &process_tags(), "P1", "", 1);
    write_ok(&mut s, &process_tags(), "P2", "", 1);
    write_ok(&mut s, &message_tags(), "X", "P1", 2);
    write_ok(&mut s, &message_tags(), "Y", "P2", 2);
    write_ok(&mut s, &message_tags(), "Z", "P1", 3);
    assert_eq!(s.cursor(&"P1".to_string()).unwrap().nonce, 2);
    assert_eq!(s.cursor(&"P2".to_string()).unwrap().nonce, 1);
}

#[test]
fn upload_failure_then_retry() {
    let mut s = ProcessScheduler::new();
    write_ok(&mut s, &process_tags(), "Px", "", 1);
    let mut first = begin_write(&s, &message_tags(), &"M1".to_string(), &"Px".to_string(), &"0".to_string(), 5).unwrap();
    assert_eq!(first.advance(true), WriteAction::Upload);
    assert_eq!(first.advance(false), WriteAction::Abort(WriteError::UploadFailed));
    assert_eq!(first.phase(), WritePhase::Failed);
    assert!(!finish_write(&mut s, first));
    assert_eq!(s.cursor(&"Px".to_string()).unwrap().nonce, 0);
    let m = write_ok(&mut s, &message_tags(), "M1", "Px", 5);
    assert_eq!(m.nonce, 1);
    assert_eq!(m.hash_chain, PX_M1);
}

#[test]
fn persist_failure_commits_nothing() {
    let mut s = ProcessScheduler::new();
    write_ok(&mut s, &process_tags(), "Px", "", 1);
    let mut w = begin_write(&s, &message_tags(), &"M1".to_string(), &"Px".to_string(), &"0".to_string(), 5).unwrap();
    assert_eq!(w.advance(true), WriteAction::Upload);
    assert_eq!(w.advance(true), WriteAction::Persist);
    assert_eq!(w.advance(false), WriteAction::Abort(WriteError::PersistFailed));
    assert!(!finish_write(&mut s, w));
    assert_eq!(s.cursor(&"Px".to_string()).unwrap().nonce, 0);
}

#[test]
fn build_failure_aborts() {
    let mut s = ProcessScheduler::new();
    let mut w = begin_write(&s, &process_tags(), &"Px".to_string(), &"".to_string(), &"0".to_string(), 5).unwrap();
    assert_eq!(w.advance(false), WriteAction::Abort(WriteError::BuildFailed));
    assert_eq!(w.advance(true), WriteAction::Nothing);
    assert!(!finish_write(&mut s, w));
    assert!(s.cursor(&"Px".to_string()).is_none());
}

#[test]
fn missing_module_tag_mutates_nothing() {
    let mut s = ProcessScheduler::new();
    write_ok(&mut s, &process_tags(), "P1", "", 1);
    let t = tags(&[("Data-Protocol", "ao"), ("Type", "Process"), ("Scheduler", "su")]);
    let r = begin_write(&s, &t, &"Px".to_string(), &"".to_string(), &"0".to_string(), 5);
    assert!(matches!(r, Err(WriteError::Classification(ClassifyError::MissingProcessTags))));
    assert!(s.cursor(&"Px".to_string()).is_none());
    assert_eq!(s.cursor(&"P1".to_string()).unwrap().nonce, 0);
}

#[test]
fn message_to_unknown_process() {
    let s = ProcessScheduler::new();
    let r = begin_write(&s, &message_tags(), &"M1".to_string(), &"Nope".to_string(), &"0".to_string(), 5);
    assert!(matches!(r, Err(WriteError::Schedule(ScheduleError::UnknownProcess))));
}

#[test]
fn process_created_twice() {
    let mut s = ProcessScheduler::new();
    write_ok(&mut s, &process_tags(), "Px", "", 1);
    let r = begin_write(&s, &process_tags(), &"Px".to_string(), &"".to_string(), &"0".to_string(), 5);
    assert!(matches!(r, Err(WriteError::Schedule(ScheduleError::ProcessExists))));
}

#[test]
fn message_bundle_tags() {
    let b = Builder::new(vec![5, 6, 7, 8]).expect("Failed to create Builder");
    assert_eq!(b.public_key(), &vec![5, 6, 7, 8]);
    let snap = ScheduleState {
        process_id: "Px".to_string(),
        epoch: "0".to_string(),
        nonce: 12,
        hash_chain: PX_M1.to_string(),
        timestamp: 1700000000123,
    };
    let t = b.bundle_tags(ItemKind::Message, &snap, &"1000".to_string());
    let got: Vec<(String, String)> = t.into_iter().map(|t| (t.name, t.value)).collect();
    let want: Vec<(String, String)> = [
        ("Bundle-Format", "binary"),
        ("Bundle-Version", "2.0.0"),
        ("Process", "Px"),
        ("Epoch", "0"),
        ("Nonce", "12"),
        ("Hash-Chain", PX_M1),
        ("Block-Height", "1000"),
        ("Timestamp", "1700000000123"),
    ]
    .iter()
    .map(|(n, v)| (n.to_string(), v.to_string()))
    .collect();
    assert_eq!(got, want);
}

#[test]
fn process_bundle_tags() {
    let b = Builder::new(vec![1]).unwrap();
    let snap = first_snapshot(&"Px".to_string(), &"0".to_string(), 42);
    let t = b.bundle_tags(ItemKind::Process, &snap, &"7".to_string());
    let got: Vec<(String, String)> = t.into_iter().map(|t| (t.name, t.value)).collect();
    let want: Vec<(String, String)> = [
        ("Bundle-Format", "binary"),
        ("Bundle-Version", "2.0.0"),
        ("Block-Height", "7"),
        ("Timestamp", "42"),
    ]
    .iter()
    .map(|(n, v)| (n.to_string(), v.to_string()))
    .collect();
    assert_eq!(got, want);
}

#[test]
fn clock_reading_in_millis() {
    assert_eq!(system_time_u64(1_700_000_000, 123), Some(1_700_000_000_123));
    assert_eq!(system_time_u64(0, 0), Some(0));
    assert_eq!(system_time(1_700_000_000, 5), Some("1700000000005".to_string()));
    assert_eq!(system_time_u64(u64::MAX / 1000, 999), None);
    assert_eq!(system_time_u64(u64::MAX / 1000, 615), Some(u64::MAX));
}

#[test]
fn outer_item_carries_bundle() {
    let b = Builder::new(vec![9, 9]).unwrap();
    let t = tags(&[("Bundle-Format", "binary")]);
    let o = b.outer_item(t, vec![1, 2, 3]);
    assert!(o.target.is_empty());
    assert_eq!(o.data, vec![1, 2, 3]);
    assert_eq!(o.owner, vec![9, 9]);
    assert_eq!(o.tags.len(), 1);
    assert_eq!(o.tags[0].name, "Bundle-Format");
    assert_eq!(o.tags[0].value, "binary");
}

#[test]
fn tag_lookup() {
    let t = tags(&[("A", "1"), ("B", "2"), ("A", "3")]);
    assert_eq!(find_tag(&t, &"A".to_string()), Some(0));
    assert_eq!(find_tag(&t, &"B".to_string()), Some(1));
    assert_eq!(find_tag(&t, &"C".to_string()), None);
    assert!(contains_tag(&t, &"B".to_string()));
    assert!(!contains_tag(&vec![], &"B".to_string()));
}

#[test]
fn advance_cursor_with_given_link() {
    let s = ScheduleState {
        process_id: "Px".to_string(),
        epoch: "e".to_string(),
        nonce: 3,
        hash_chain: SEED_PX.to_string(),
        timestamp: 10,
    };
    let n = advance_cursor(&s, "link".to_string(), 5).unwrap();
    assert_eq!(n.nonce, 4);
    assert_eq!(n.timestamp, 10);
    assert_eq!(n.hash_chain, "link");
    assert_eq!(n.epoch, "e");
    let m = advance_cursor(&s, "link".to_string(), 20).unwrap();
    assert_eq!(m.timestamp, 20);
    let full = ScheduleState { nonce: u64::MAX, ..s };
    assert!(matches!(advance_cursor(&full, "link".to_string(), 20), Err(ScheduleError::ScheduleExhausted)));
}
