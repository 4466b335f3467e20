use duco_miner::engine::{worker_count, EngineStatus, Supervisor};
use duco_miner::job::{parse_job, read_reply, request_line, submission_line, JobReply, DEFAULT_DIFFICULTY};
use duco_miner::pool::{PoolEndpoint, DEFAULT_PORT};
use duco_miner::search::{nonce_ceiling, nonce_digest, search, search_up_to, try_nonce, RunFlag, SearchOutcome};
use duco_miner::text::{decimal_bytes, parse_decimal, split_fields, trim_text, trimmed_len};
use duco_miner::worker::{progress_message, Action, Event, Phase, Worker, BACKOFF_SECS};
use sha1::Digest;

fn sha1_hex(text: &str) -> String {
    hex::encode(sha1::Sha1::digest(text.as_bytes()))
}

fn job_line(seed: &str, nonce_text: &str, difficulty: &str) -> Vec<u8> {
    let target = sha1_hex(&format!("{}{}", seed, nonce_text));
    format!("{},{},{}\n", seed, target, difficulty).into_bytes()
}

fn found(o: &SearchOutcome) -> Option<u64> {
    match o {
        SearchOutcome::Found(n) => Some(*n),
        _ => None,
    }
}

#[test]
fn decimal_text_of_numbers() {
    assert_eq!(decimal_bytes(0), b"0".to_vec());
    assert_eq!(decimal_bytes(7), b"7".to_vec());
    assert_eq!(decimal_bytes(1234), b"1234".to_vec());
    assert_eq!(decimal_bytes(u64::MAX), b"18446744073709551615".to_vec());
}

#[test]
fn decimal_parsing() {
    assert_eq!(parse_decimal(b"42", u64::MAX), Some(42));
    assert_eq!(parse_decimal(b"+42", u64::MAX), Some(42));
    assert_eq!(parse_decimal(b"", u64::MAX), None);
    assert_eq!(parse_decimal(b"+", u64::MAX), None);
    assert_eq!(parse_decimal(b"-1", u64::MAX), None);
    assert_eq!(parse_decimal(b"4a", u64::MAX), None);
    assert_eq!(parse_decimal(b"18446744073709551615", u64::MAX), Some(u64::MAX));
    assert_eq!(parse_decimal(b"18446744073709551616", u64::MAX), None);
    assert_eq!(parse_decimal(b"65535", 65535), Some(65535));
    assert_eq!(parse_decimal(b"65536", 65535), None);
}

#[test]
fn newlines_and_fields() {
    assert_eq!(trimmed_len(b"a,b\n\n"), 3);
    assert_eq!(trimmed_len(b"\n"), 0);
    assert_eq!(trimmed_len(b"a\nb"), 3);
    let f = split_fields(b"a,,bc,", 6);
    assert_eq!(f, vec![b"a".to_vec(), vec![], b"bc".to_vec(), vec![]]);
    assert_eq!(split_fields(b"", 0), vec![Vec::<u8>::new()]);
}

#[test]
fn job_line_is_parsed() {
    let line = job_line("abc", "0", "7");
    let job = parse_job(&line).expect("a job");
    assert_eq!(job.seed, b"abc".to_vec());
    assert_eq!(job.target, sha1::Sha1::digest(b"abc0").to_vec());
    assert_eq!(job.difficulty, 7);
}

#[test]
fn extra_fields_are_ignored_and_hex_case_is_free() {
    let job = parse_job(b"s,0aFF,3,extra,more\n").expect("a job");
    assert_eq!(job.seed, b"s".to_vec());
    assert_eq!(job.target, vec![0x0a, 0xff]);
    assert_eq!(job.difficulty, 3);
}

#[test]
fn unreadable_difficulty_takes_default() {
    let job = parse_job(b"s,00,lots").expect("a job");
    assert_eq!(job.difficulty, DEFAULT_DIFFICULTY);
    assert_eq!(job.difficulty, 100);
}

#[test]
fn short_reply_is_skipped() {
    assert!(matches!(read_reply(b"abc,00\n"), JobReply::Skip));
    assert!(matches!(read_reply(b"BAD\n"), JobReply::Skip));
    assert!(parse_job(b"abc,00").is_none());
}

#[test]
fn bad_hex_is_skipped() {
    assert!(matches!(read_reply(b"abc,0g,1\n"), JobReply::Skip));
    assert!(matches!(read_reply(b"abc,000,1\n"), JobReply::Skip));
}

#[test]
fn empty_read_is_dead() {
    assert!(matches!(read_reply(b""), JobReply::Dead));
}

#[test]
fn full_reply_is_ready() {
    match read_reply(&job_line("abc", "0", "1")) {
        JobReply::Ready(job) => assert_eq!(job.difficulty, 1),
        _ => panic!("expected a job"),
    }
}

#[test]
fn lines_of_the_protocol() {
    assert_eq!(request_line("alice"), "JOB,alice,LOW\n");
    assert_eq!(submission_line(17, "2.5", "Android Miner (Rust)"), "17,2.5,Android Miner (Rust)\n");
    assert_eq!(progress_message(3, "GOOD", "12.00"), "[3] GOOD 12.00 H/s");
}

#[test]
fn digest_of_seed_and_nonce() {
    assert_eq!(nonce_digest(b"abc", 12), sha1::Sha1::digest(b"abc12").to_vec());
    assert_ne!(nonce_digest(b"abc", 12), b"abc12".to_vec());
}

#[test]
fn search_finds_nonce_zero() {
    let flag = RunFlag::new(true);
    let job = parse_job(&job_line("abc", "0", "1")).unwrap();
    assert_eq!(found(&search(&job, &flag)), Some(0));
}

#[test]
fn search_finds_the_least_matching_nonce() {
    let flag = RunFlag::new(true);
    for n in [5u64, 57, 101] {
        let job = parse_job(&job_line("deadbeef", &n.to_string(), "1")).unwrap();
        assert_eq!(found(&search(&job, &flag)), Some(n));
    }
}

#[test]
fn search_stops_at_the_ceiling() {
    assert_eq!(nonce_ceiling(1), 101);
    assert_eq!(nonce_ceiling(0), 1);
    assert_eq!(nonce_ceiling(u64::MAX), u64::MAX);
    assert_eq!(nonce_ceiling(u64::MAX / 100), (u64::MAX / 100) * 100 + 1);
    let flag = RunFlag::new(true);
    let job = parse_job(&job_line("abc", "102", "1")).unwrap();
    assert!(matches!(search(&job, &flag), SearchOutcome::Exhausted));
    let job = parse_job(&job_line("abc", "101", "1")).unwrap();
    assert_eq!(found(&search(&job, &flag)), Some(101));
}

#[test]
fn search_with_explicit_limit() {
    let flag = RunFlag::new(true);
    let target = sha1::Sha1::digest(b"x3").to_vec();
    assert!(matches!(search_up_to(b"x", &target, 2, &flag), SearchOutcome::Exhausted));
    assert_eq!(found(&search_up_to(b"x", &target, 3, &flag)), Some(3));
}

#[test]
fn cleared_flag_stops_search() {
    let flag = RunFlag::new(true);
    let other = flag.share();
    other.set(false);
    assert!(!flag.is_set());
    let job = parse_job(&job_line("abc", "0", "1")).unwrap();
    assert!(matches!(search(&job, &flag), SearchOutcome::Stopped(0)));
}

#[test]
fn discovery_port() {
    let p = PoolEndpoint::from_discovery("pool".to_string(), "1.2.3.4".to_string(), b"6000");
    assert_eq!(p.port, 6000);
    assert_eq!(p.socket_text(), "1.2.3.4:6000");
    let p = PoolEndpoint::from_discovery("pool".to_string(), "1.2.3.4".to_string(), b"");
    assert_eq!(p.port, DEFAULT_PORT);
    assert_eq!(p.port, 2813);
    let p = PoolEndpoint::from_discovery("pool".to_string(), "1.2.3.4".to_string(), b"70000");
    assert_eq!(p.port, 2813);
    assert_eq!(p.name, "pool");
}

#[test]
fn status_starts_idle() {
    let s = EngineStatus::default();
    assert!(!s.is_mining);
    assert_eq!(s.worker_count, 0);
    assert_eq!(s.connection_status, "Not Connected");
    assert_eq!(s.last_error, "None");
}

#[test]
fn start_twice_changes_nothing() {
    let mut sup = Supervisor::new();
    assert!(!sup.run_flag().is_set());
    assert!(sup.start(2));
    let flag = sup.run_flag();
    assert!(flag.is_set());
    assert!(!sup.start(8));
    let s = sup.status();
    assert!(s.is_mining);
    assert_eq!(s.worker_count, 2);
    assert!(flag.is_set());
}

#[test]
fn stop_twice_changes_nothing() {
    let mut sup = Supervisor::new();
    assert!(!sup.stop());
    assert!(sup.start(1));
    let flag = sup.run_flag();
    assert!(sup.stop());
    assert!(!flag.is_set());
    assert!(!sup.stop());
    assert!(!sup.status().is_mining);
    assert!(!flag.is_set());
}

#[test]
fn start_with_four_workers() {
    let mut sup = Supervisor::new();
    assert!(sup.start(4));
    assert_eq!(sup.status().worker_count, 4);
}

#[test]
fn status_updates() {
    let mut sup = Supervisor::new();
    sup.set_connection_status("Connected to x".to_string());
    sup.set_last_error("oops".to_string());
    let s = sup.status();
    assert_eq!(s.connection_status, "Connected to x");
    assert_eq!(s.last_error, "oops");
}

#[test]
fn worker_mines_one_job() {
    let flag = RunFlag::new(true);
    let mut w = Worker::new(0, "alice".to_string());
    assert!(matches!(w.step(Event::Done, true), Action::Locate));
    let pool = PoolEndpoint::from_discovery("p1".to_string(), "127.0.0.1".to_string(), b"2813");
    match w.step(Event::Located(pool), true) {
        Action::Connect(status, address) => {
            assert_eq!(status, "Connecting to p1");
            assert_eq!(address, "127.0.0.1:2813");
        }
        _ => panic!("expected a connect"),
    }
    assert!(matches!(w.step(Event::Connected, true), Action::ReadGreeting));
    match w.step(Event::Greeted(b"v1\n".to_vec()), true) {
        Action::Publish(status) => assert_eq!(status, "Connected to p1"),
        _ => panic!("expected the connected status"),
    }
    match w.step(Event::Done, true) {
        Action::RequestJob(line) => assert_eq!(line, "JOB,alice,LOW\n"),
        _ => panic!("expected a job request"),
    }
    let reply = job_line("abc", "0", "1");
    let job = match w.step(Event::Replied(reply), true) {
        Action::Search(job) => job,
        _ => panic!("expected a search"),
    };
    let outcome = search(&job, &flag);
    match w.step(Event::Searched(outcome), true) {
        Action::Submit(n) => assert_eq!(n, 0),
        _ => panic!("expected a submission"),
    }
    match w.step(Event::Fed(Some(" GOOD\n".to_string())), true) {
        Action::Announce(f) => assert_eq!(f, "GOOD"),
        _ => panic!("expected an announcement"),
    }
    assert!(matches!(w.step(Event::Done, true), Action::RequestJob(_)));
    assert!(matches!(w.phase, Phase::Requesting));
}

#[test]
fn worker_skips_short_reply_and_drops_on_empty() {
    let mut w = Worker::new(1, "bob".to_string());
    w.phase = Phase::Requesting;
    assert!(matches!(w.step(Event::Replied(b"x,y\n".to_vec()), true), Action::RequestJob(_)));
    match w.step(Event::Replied(Vec::new()), true) {
        Action::Disconnect(status) => assert_eq!(status, "Disconnected"),
        _ => panic!("expected a disconnect"),
    }
    assert!(matches!(w.step(Event::Done, false), Action::Exit));
}

#[test]
fn worker_reports_errors() {
    let mut w = Worker::new(7, "bob".to_string());
    assert!(matches!(w.step(Event::Done, true), Action::Locate));
    match w.step(Event::LocateFailed("timed out".to_string()), true) {
        Action::Report(m, wait) => {
            assert_eq!(m, "[Thread 7] Error getting pool: timed out");
            assert_eq!(wait, BACKOFF_SECS);
            assert_eq!(wait, 10);
        }
        _ => panic!("expected a report"),
    }
    assert!(matches!(w.step(Event::Done, true), Action::Locate));
    let pool = PoolEndpoint::from_discovery("p".to_string(), "10.0.0.1".to_string(), b"1");
    assert!(matches!(w.step(Event::Located(pool), true), Action::Connect(_, _)));
    match w.step(Event::ConnectFailed("refused".to_string()), true) {
        Action::Report(m, wait) => {
            assert_eq!(m, "[Thread 7] Error connecting to server: refused");
            assert_eq!(wait, 10);
        }
        _ => panic!("expected a report"),
    }
    let pool = PoolEndpoint::from_discovery("p".to_string(), "10.0.0.1".to_string(), b"1");
    w.phase = Phase::Greeting(pool);
    match w.step(Event::GreetingFailed, true) {
        Action::Report(m, wait) => {
            assert_eq!(m, "[Thread 7] Error reading server version");
            assert_eq!(wait, 10);
        }
        _ => panic!("expected a report"),
    }
    let pool = PoolEndpoint::from_discovery("p".to_string(), "10.0.0.1".to_string(), b"1");
    w.phase = Phase::Greeting(pool);
    match w.step(Event::Greeted(Vec::new()), true) {
        Action::Report(m, wait) => {
            assert_eq!(m, "[Thread 7] Error reading server version");
            assert_eq!(wait, 10);
        }
        _ => panic!("expected a report"),
    }
}

#[test]
fn worker_winds_down_when_flag_clears() {
    let mut w = Worker::new(2, "bob".to_string());
    w.phase = Phase::Searching;
    assert!(matches!(w.step(Event::Searched(SearchOutcome::Stopped(3)), false), Action::Disconnect(_)));
    assert!(matches!(w.step(Event::Done, false), Action::Exit));
    assert!(matches!(w.phase, Phase::Finished));
    assert!(matches!(w.step(Event::Greeted(b"v1\n".to_vec()), true), Action::Exit));
}

#[test]
fn worker_ends_on_unexpected_event() {
    let mut w = Worker::new(2, "bob".to_string());
    w.phase = Phase::Locating;
    assert!(matches!(w.step(Event::Greeted(b"v1\n".to_vec()), true), Action::Exit));
    assert!(matches!(w.phase, Phase::Finished));
}

#[test]
fn one_search_step() {
    let target = sha1::Sha1::digest(b"abc4").to_vec();
    assert!(matches!(try_nonce(b"abc", &target, 4, 10, false), Some(SearchOutcome::Stopped(4))));
    assert!(matches!(try_nonce(b"abc", &target, 4, 10, true), Some(SearchOutcome::Found(4))));
    assert!(try_nonce(b"abc", &target, 3, 10, true).is_none());
    assert!(matches!(try_nonce(b"abc", &target, 3, 3, true), Some(SearchOutcome::Exhausted)));
}

#[test]
fn new_run_leaves_old_flag_cleared() {
    let mut sup = Supervisor::new();
    assert!(sup.start(1));
    let old = sup.run_flag();
    assert!(sup.stop());
    assert!(sup.start(1));
    assert!(!old.is_set());
    assert!(sup.run_flag().is_set());
}

#[test]
fn feedback_is_trimmed() {
    assert_eq!(trim_text("  GOOD\n"), "GOOD");
    assert_eq!(trim_text("\u{a0}BAD,late\u{3000}"), "BAD,late");
    assert_eq!(trim_text(" \t\n"), "");
    assert_eq!(trim_text("a b"), "a b");
}

#[test]
fn workers_from_cores_and_threads() {
    assert_eq!(worker_count(2, 2), 4);
    assert_eq!(worker_count(0, 8), 0);
    assert_eq!(worker_count(-1, 4), 0);
    assert_eq!(worker_count(-3, -3), 9);
    assert_eq!(worker_count(i32::MAX, i32::MAX), u32::MAX);
}

#[test]
fn end_to_end_progress_line() {
    let flag = RunFlag::new(true);
    let job = parse_job(&job_line("abc", "0", "1")).unwrap();
    let n = found(&search(&job, &flag)).unwrap();
    assert_eq!(submission_line(n, "0", "Android Miner (Rust)"), "0,0,Android Miner (Rust)\n");
    assert_eq!(progress_message(0, "GOOD", &format!("{:.2}", 0.0f64)), "[0] GOOD 0.00 H/s");
}
