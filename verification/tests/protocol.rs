//! The handoff cache, the lock, the cadence, the process decisions and
//! the text protocol.

use cpu1sec::cadence::Cadence;
use cpu1sec::exclusivity::{stampede, MarkerLock};
use cpu1sec::flow::{exit_code, reader_plan, tick_verdict, FailureKind, ReaderPlan, TickVerdict};
use cpu1sec::graphconf::render_config;
use cpu1sec::render::{push_entity, push_u64, push_value_line};
use cpu1sec::store::{CacheStore, Fetched};

#[test]
fn fetch_on_a_missing_cache_returns_no_data_and_creates_nothing() {
    let mut store = CacheStore::new();
    assert_eq!(store.fetch(), Fetched::NoData);
    // Still nothing there: the failed claim created no log.
    assert_eq!(store.fetch(), Fetched::NoData);
}

#[test]
fn fetch_drains_every_appended_unit_exactly_once_in_order() {
    let mut store = CacheStore::new();
    store.append("a.value 1:1\n");
    store.append("b.value 2:2\n");
    store.append("c.value 3:3\n");
    match store.fetch() {
        Fetched::Data(text) => assert_eq!(text, "a.value 1:1\nb.value 2:2\nc.value 3:3\n"),
        Fetched::NoData => panic!("the cache held three units"),
    }
    assert_eq!(store.fetch(), Fetched::NoData);
}

#[test]
fn a_second_fetch_without_a_tick_returns_no_data() {
    let mut store = CacheStore::new();
    store.append("total_user.value 1:3\n");
    match store.fetch() {
        Fetched::Data(text) => assert_eq!(text, "total_user.value 1:3\n"),
        Fetched::NoData => panic!("the cache held a unit"),
    }
    assert_eq!(store.fetch(), Fetched::NoData);
}

#[test]
fn appends_after_a_claim_start_a_fresh_log() {
    let mut store = CacheStore::new();
    store.append("before\n");
    let _ = store.fetch();
    store.append("after\n");
    match store.fetch() {
        Fetched::Data(text) => assert_eq!(text, "after\n"),
        Fetched::NoData => panic!("the cache held a unit"),
    }
}

#[test]
fn racing_reader_invocations_start_at_most_one_sampler() {
    let mut lock = MarkerLock::released();
    let running = stampede(&mut lock, 5);
    assert_eq!(running, 1);
    assert!(lock.held);

    let mut held = MarkerLock::released();
    assert!(held.try_acquire());
    let running = stampede(&mut held, 5);
    assert_eq!(running, 0);
}

#[test]
fn a_probe_observes_without_keeping_the_lock() {
    let mut lock = MarkerLock::released();
    assert!(lock.probe());
    assert!(!lock.held);
    assert!(lock.try_acquire());
    assert!(!lock.probe());
    assert!(lock.held);
}

#[test]
fn the_reader_spawns_a_sampler_only_when_none_runs() {
    assert_eq!(reader_plan(false), ReaderPlan::SpawnThenFetch);
    assert_eq!(reader_plan(true), ReaderPlan::FetchOnly);
}

#[test]
fn a_failed_read_skips_the_tick_a_failed_append_is_fatal() {
    assert_eq!(tick_verdict(true, true), TickVerdict::KeepSampling);
    assert_eq!(tick_verdict(false, true), TickVerdict::KeepSampling);
    assert_eq!(tick_verdict(true, false), TickVerdict::FatalExit);
}

#[test]
fn each_failure_has_its_own_nonzero_exit_code() {
    let codes = [
        exit_code(FailureKind::ReportFailed),
        exit_code(FailureKind::SamplerFatal),
        exit_code(FailureKind::UnknownMode),
        exit_code(FailureKind::BadArgCount),
    ];
    assert_eq!(codes, [1, 2, 3, 4]);
    for c in codes {
        assert_ne!(c, 0);
    }
}

#[test]
fn a_tick_that_took_300ms_sleeps_700ms_and_the_schedule_never_drifts() {
    let mut c = Cadence::start(0, 1000);
    let sleep = c.after_tick(300);
    assert_eq!(sleep, 700);
    assert_eq!(c.deadline_ms, 2000);

    // Many jittery ticks: each starts exactly at its deadline.
    let mut c = Cadence::start(0, 1000);
    let mut now: u64 = 0;
    for k in 0..100u64 {
        assert_eq!(now, k * 1000);
        let processing = 300 + (k % 5) * 123;
        let sleep = c.after_tick(now + processing);
        now = now + processing + sleep;
        assert_eq!(now, (k + 1) * 1000);
    }
}

#[test]
fn an_overrunning_tick_sleeps_zero_and_keeps_the_schedule() {
    let mut c = Cadence::start(0, 1000);
    let sleep = c.after_tick(1600);
    assert_eq!(sleep, 0);
    assert_eq!(c.deadline_ms, 2000);
    let sleep = c.after_tick(1700);
    assert_eq!(sleep, 300);
    assert_eq!(c.deadline_ms, 3000);
}

#[test]
fn numbers_render_in_plain_decimal() {
    let mut s = String::new();
    push_u64(&mut s, 0);
    assert_eq!(s, "0");
    let mut s = String::new();
    push_u64(&mut s, 42);
    assert_eq!(s, "42");
    let mut s = String::new();
    push_u64(&mut s, 1000);
    assert_eq!(s, "1000");
    let mut s = String::new();
    push_u64(&mut s, u64::MAX);
    assert_eq!(s, "18446744073709551615");
}

#[test]
fn entities_are_named_total_or_cpu_index() {
    let mut s = String::new();
    push_entity(&mut s, u32::MAX);
    assert_eq!(s, "total");
    let mut s = String::new();
    push_entity(&mut s, 7);
    assert_eq!(s, "cpu7");
}

#[test]
fn a_data_line_has_the_collector_shape() {
    let mut s = String::new();
    push_value_line(&mut s, 3, "user", 99, 5);
    assert_eq!(s, "cpu3_user.value 99:5\n");
}

#[test]
fn the_total_graph_axis_scales_with_the_core_count() {
    let text = render_config(false, 4);
    assert!(text.starts_with("graph_title CPU usage total (1sec)\n"));
    assert!(text.contains("graph_args --base 1000 -r --lower-limit 0 --upper-limit 400\n"));
    assert!(text.contains("total_system.label system\n"));
    assert!(text.contains("total_system.draw AREA\n"));
    assert!(text.contains("total_guest_nice.type GAUGE\n"));
    assert!(!text.contains("multigraph"));
}

#[test]
fn detail_config_describes_the_total_and_every_core() {
    let text = render_config(true, 2);
    assert!(text.starts_with("multigraph cpu1sec\ngraph_title CPU usage total (1sec)\n"));
    assert!(text.contains("--upper-limit 200\n"));
    assert!(text.contains("multigraph cpu1sec.cpu0\ngraph_title CPU usage cpu0 (1sec)\n"));
    assert!(text.contains("multigraph cpu1sec.cpu1\ngraph_title CPU usage cpu1 (1sec)\n"));
    assert!(text.contains("cpu1_user.draw STACK\n"));
    assert!(text.contains("--upper-limit 100\n"));
    assert!(text.contains("graph_data_size custom 1d, 1s for 1d, 5s for 2d, 10s for 7d, 1m for 1t, 5m for 1y\n"));
}

#[test]
fn a_whole_tick_reaches_the_reader_through_the_cache() {
    let mut sampler = cpu1sec::sampler::Sampler::seed(
        false,
        &Vec::new(),
        &cpu1sec::snapshot::Ticks {
            user: 100,
            nice: 0,
            system: 0,
            idle: 0,
            iowait: None,
            irq: None,
            softirq: None,
            steal: None,
            guest: None,
            guest_nice: None,
        },
        0,
    );
    let (unit, _) = sampler.tick(
        &Vec::new(),
        &cpu1sec::snapshot::Ticks {
            user: 103,
            nice: 0,
            system: 0,
            idle: 0,
            iowait: None,
            irq: None,
            softirq: None,
            steal: None,
            guest: None,
            guest_nice: None,
        },
        1,
    );
    let mut store = CacheStore::new();
    store.append(&unit);
    match store.fetch() {
        Fetched::Data(text) => {
            assert!(text.contains("total_user.value 1:3\n"));
            assert_eq!(text, unit);
        }
        Fetched::NoData => panic!("the cache held a tick's unit"),
    }
    assert_eq!(store.fetch(), Fetched::NoData);
}
