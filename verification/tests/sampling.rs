//! Snapshots, deltas and the sampling loop state.

use cpu1sec::sampler::{build_snapshots, diff_all, Sampler};
use cpu1sec::snapshot::{anomalous, clamped_sub, delta, CpuStat, Ticks};

fn stat(cpu: u32, epoch: u64, v: u64, detail: bool) -> CpuStat {
    CpuStat {
        cpu,
        epoch,
        user: v,
        nice: v,
        system: v,
        idle: v,
        iowait: v,
        irq: v,
        softirq: v,
        steal: v,
        guest: v,
        guest_nice: v,
        cpudetail: detail,
    }
}

fn user_ticks(user: u64) -> Ticks {
    Ticks {
        user,
        nice: 0,
        system: 0,
        idle: 0,
        iowait: None,
        irq: None,
        softirq: None,
        steal: None,
        guest: None,
        guest_nice: None,
    }
}

#[test]
fn test_sub() {
    let one = CpuStat {
        cpu: 2,
        epoch: 0,
        user: 42,
        nice: 42,
        system: 42,
        idle: 42,
        iowait: 42,
        irq: 42,
        softirq: 42,
        steal: 42,
        guest: 42,
        guest_nice: 42,
        cpudetail: false,
    };

    let two = CpuStat {
        cpu: 1,
        epoch: 1,
        user: 21,
        nice: 21,
        system: 21,
        idle: 21,
        iowait: 21,
        irq: 21,
        softirq: 21,
        steal: 21,
        guest: 21,
        guest_nice: 21,
        cpudetail: true,
    };
    let diff = one.sub(two);
    // The record carries the newer (minuend) snapshot's epoch.
    assert_eq!(
        CpuStat {
            cpu: 2,
            epoch: 0,
            user: 21,
            nice: 21,
            system: 21,
            idle: 21,
            iowait: 21,
            irq: 21,
            softirq: 21,
            steal: 21,
            guest: 21,
            guest_nice: 21,
            cpudetail: false,
        },
        diff
    );
}

#[test]
fn delta_is_exact_difference_while_counters_grow() {
    let older = stat(3, 10, 100, false);
    let newer = stat(3, 11, 103, false);
    let d = delta(&older, &newer);
    assert_eq!(d.cpu, 3);
    assert_eq!(d.epoch, 11);
    assert_eq!(d.user, 3);
    assert_eq!(d.nice, 3);
    assert_eq!(d.system, 3);
    assert_eq!(d.idle, 3);
    assert_eq!(d.iowait, 3);
    assert_eq!(d.irq, 3);
    assert_eq!(d.softirq, 3);
    assert_eq!(d.steal, 3);
    assert_eq!(d.guest, 3);
    assert_eq!(d.guest_nice, 3);
}

#[test]
fn delta_clamps_a_decreasing_counter_to_zero() {
    let mut older = stat(0, 5, 50, false);
    let mut newer = stat(0, 6, 60, false);
    older.idle = 1000;
    newer.idle = 999;
    let d = delta(&older, &newer);
    assert_eq!(d.idle, 0);
    assert_eq!(d.user, 10);
    assert!(anomalous(&older, &newer));
    assert!(!anomalous(&newer, &newer));
}

#[test]
fn clamped_sub_never_underflows() {
    assert_eq!(clamped_sub(5, 3), 2);
    assert_eq!(clamped_sub(3, 5), 0);
    assert_eq!(clamped_sub(0, u64::MAX), 0);
    assert_eq!(clamped_sub(u64::MAX, 0), u64::MAX);
}

#[test]
fn from_ticks_treats_absent_counters_as_zero() {
    let t = user_ticks(7);
    let s = CpuStat::from_ticks(u32::MAX, 9, false, &t);
    assert_eq!(s.user, 7);
    assert_eq!(s.iowait, 0);
    assert_eq!(s.guest_nice, 0);
    assert_eq!(s.cpu, u32::MAX);
    assert_eq!(s.epoch, 9);
}

#[test]
fn build_snapshots_totals_only_without_detail() {
    let cores = vec![user_ticks(1), user_ticks(2)];
    let total = user_ticks(3);
    let snaps = build_snapshots(false, &cores, &total, 4);
    assert_eq!(snaps.len(), 1);
    assert_eq!(snaps[0].cpu, u32::MAX);
    assert_eq!(snaps[0].user, 3);
}

#[test]
fn build_snapshots_cores_then_total_with_detail() {
    let cores = vec![user_ticks(1), user_ticks(2)];
    let total = user_ticks(3);
    let snaps = build_snapshots(true, &cores, &total, 4);
    assert_eq!(snaps.len(), 3);
    assert_eq!(snaps[0].cpu, 0);
    assert_eq!(snaps[1].cpu, 1);
    assert_eq!(snaps[2].cpu, u32::MAX);
    assert_eq!(snaps[1].user, 2);
}

#[test]
fn diff_all_is_element_wise() {
    let prev = vec![stat(0, 0, 10, true), stat(u32::MAX, 0, 20, true)];
    let cur = vec![stat(0, 1, 15, true), stat(u32::MAX, 1, 22, true)];
    let d = diff_all(&prev, &cur);
    assert_eq!(d.len(), 2);
    assert_eq!(d[0].user, 5);
    assert_eq!(d[1].user, 2);
    assert_eq!(d[0].epoch, 1);
}

#[test]
fn one_tick_publishes_the_interval_rates() {
    let mut s = Sampler::seed(false, &Vec::new(), &user_ticks(100), 0);
    let (unit, anomaly) = s.tick(&Vec::new(), &user_ticks(103), 1);
    assert!(!anomaly);
    assert_eq!(
        unit,
        "total_user.value 1:3\n\
         total_nice.value 1:0\n\
         total_system.value 1:0\n\
         total_idle.value 1:0\n\
         total_iowait.value 1:0\n\
         total_irq.value 1:0\n\
         total_softirq.value 1:0\n\
         total_steal.value 1:0\n\
         total_guest.value 1:0\n\
         total_guest_nice.value 1:0\n"
    );
}

#[test]
fn a_tick_with_a_counter_reset_reports_the_anomaly_and_clamps() {
    let mut s = Sampler::seed(false, &Vec::new(), &user_ticks(100), 0);
    let (unit, anomaly) = s.tick(&Vec::new(), &user_ticks(90), 1);
    assert!(anomaly);
    assert!(unit.starts_with("total_user.value 1:0\n"));
}

#[test]
fn detail_ticks_group_each_entity_under_its_header() {
    let cores0 = vec![user_ticks(10), user_ticks(20)];
    let total0 = user_ticks(30);
    let cores1 = vec![user_ticks(11), user_ticks(23)];
    let total1 = user_ticks(34);
    let mut s = Sampler::seed(true, &cores0, &total0, 0);
    let (unit, anomaly) = s.tick(&cores1, &total1, 1);
    assert!(!anomaly);
    assert!(unit.starts_with("multigraph cpu1sec.cpu0\ncpu0_user.value 1:1\n"));
    assert!(unit.contains("multigraph cpu1sec.cpu1\ncpu1_user.value 1:3\n"));
    assert!(unit.contains("multigraph cpu1sec\ntotal_user.value 1:4\n"));
    let cpu0_at = unit.find("multigraph cpu1sec.cpu0\n").unwrap();
    let cpu1_at = unit.find("multigraph cpu1sec.cpu1\n").unwrap();
    let total_at = unit.find("multigraph cpu1sec\ntotal_user").unwrap();
    assert!(cpu0_at < cpu1_at && cpu1_at < total_at);
}

#[test]
fn consecutive_ticks_diff_against_the_latest_capture() {
    let mut s = Sampler::seed(false, &Vec::new(), &user_ticks(100), 0);
    let _ = s.tick(&Vec::new(), &user_ticks(103), 1);
    let (unit, _) = s.tick(&Vec::new(), &user_ticks(109), 2);
    assert!(unit.starts_with("total_user.value 2:6\n"));
}
