//! The sampling side: building one capture's snapshots, diffing a capture
//! against the previous one, and the per-tick state update of the loop.

use vstd::prelude::*;

use crate::render::{all_lines, render_all};
use crate::snapshot::{anomalous, delta, delta_of, snap_of, spec_anomalous, CpuStat, Ticks};

verus! {

/// The snapshots one capture yields: one per core when per-core detail is
/// on (entity = core index), and the system total last, all at one epoch.
pub open spec fn snaps_of(cpudetail: bool, cores: Seq<Ticks>, total: Ticks, epoch: u64) -> Seq<
    CpuStat,
> {
    if cpudetail {
        Seq::new(cores.len(), |i: int| snap_of(i as u32, epoch, true, cores[i])).push(
            snap_of(u32::MAX, epoch, true, total),
        )
    } else {
        seq![snap_of(u32::MAX, epoch, false, total)]
    }
}

/// Build the snapshot vector of one capture from the raw tick rows.
pub fn build_snapshots(cpudetail: bool, cores: &Vec<Ticks>, total: &Ticks, epoch: u64) -> (r: Vec<
    CpuStat,
>)
    requires
        cores@.len() < u32::MAX,
    ensures
        r@ == snaps_of(cpudetail, cores@, *total, epoch),
{
    let mut r: Vec<CpuStat> = Vec::new();
    if cpudetail {
        let mut i: usize = 0;
        while i < cores.len()
            invariant
                i <= cores@.len(),
                cores@.len() < u32::MAX,
                r@ =~= Seq::new(i as nat, |j: int| snap_of(j as u32, epoch, true, cores@[j])),
            decreases cores@.len() - i,
        {
            r.push(CpuStat::from_ticks(i as u32, epoch, true, &cores[i]));
            proof {
                assert(r@ =~= Seq::new(
                    (i + 1) as nat,
                    |j: int| snap_of(j as u32, epoch, true, cores@[j]),
                ));
            }
            i = i + 1;
        }
        r.push(CpuStat::from_ticks(u32::MAX, epoch, true, total));
        proof {
            assert(r@ =~= snaps_of(cpudetail, cores@, *total, epoch));
        }
    } else {
        r.push(CpuStat::from_ticks(u32::MAX, epoch, false, total));
        proof {
            assert(r@ =~= snaps_of(cpudetail, cores@, *total, epoch));
        }
    }
    r
}

/// The delta records of two captures of the same entities, element-wise.
pub open spec fn deltas_of(prev: Seq<CpuStat>, cur: Seq<CpuStat>) -> Seq<CpuStat> {
    Seq::new(cur.len(), |i: int| delta_of(prev[i], cur[i]))
}

/// Diff two captures of the same entities, element-wise.
pub fn diff_all(prev: &Vec<CpuStat>, cur: &Vec<CpuStat>) -> (r: Vec<CpuStat>)
    requires
        prev@.len() == cur@.len(),
        forall|i: int| 0 <= i < cur@.len() ==> prev@[i].cpu == cur@[i].cpu,
    ensures
        r@ == deltas_of(prev@, cur@),
{
    let mut r: Vec<CpuStat> = Vec::new();
    let mut i: usize = 0;
    while i < cur.len()
        invariant
            i <= cur@.len(),
            prev@.len() == cur@.len(),
            forall|j: int| 0 <= j < cur@.len() ==> prev@[j].cpu == cur@[j].cpu,
            r@ =~= Seq::new(i as nat, |j: int| delta_of(prev@[j], cur@[j])),
        decreases cur@.len() - i,
    {
        r.push(delta(&prev[i], &cur[i]));
        proof {
            assert(r@ =~= Seq::new((i + 1) as nat, |j: int| delta_of(prev@[j], cur@[j])));
        }
        i = i + 1;
    }
    proof {
        assert(r@ =~= deltas_of(prev@, cur@));
    }
    r
}

/// Whether some entity's counters went backwards between two captures.
pub open spec fn spec_any_anomaly(prev: Seq<CpuStat>, cur: Seq<CpuStat>) -> bool {
    exists|i: int| 0 <= i < cur.len() && spec_anomalous(prev[i], cur[i])
}

/// Scan two captures for the counter anomaly, so the loop can surface it.
pub fn any_anomaly(prev: &Vec<CpuStat>, cur: &Vec<CpuStat>) -> (r: bool)
    requires
        prev@.len() == cur@.len(),
    ensures
        r == spec_any_anomaly(prev@, cur@),
{
    let mut i: usize = 0;
    let mut found = false;
    while i < cur.len()
        invariant
            i <= cur@.len(),
            prev@.len() == cur@.len(),
            found == exists|j: int| 0 <= j < i && spec_anomalous(prev@[j], cur@[j]),
        decreases cur@.len() - i,
    {
        if anomalous(&prev[i], &cur[i]) {
            found = true;
            proof {
                assert(spec_anomalous(prev@[i as int], cur@[i as int]));
            }
        }
        i = i + 1;
    }
    found
}

/// The retained state of the sampling loop: the detail setting fixed at
/// startup and the previous capture every tick diffs against.
pub struct Sampler {
    /// Whether per-core detail is reported beside the total.
    pub cpudetail: bool,
    /// The previous capture, seeded once on entry to the loop.
    pub prev: Vec<CpuStat>,
}

impl Sampler {
    /// The shape every retained capture keeps: per-core entries first,
    /// entity equal to the index, the system total last; only the total
    /// when detail is off.
    pub open spec fn wf(self) -> bool {
        &&& self.prev@.len() >= 1
        &&& self.prev@.len() <= u32::MAX
        &&& self.prev@.last().cpu == u32::MAX
        &&& (self.cpudetail ==> forall|i: int|
            0 <= i < self.prev@.len() - 1 ==> (#[trigger] self.prev@[i]).cpu == i as u32)
        &&& (!self.cpudetail ==> self.prev@.len() == 1)
    }

    /// Enter the sampling state: seed the retained capture, so the first
    /// published delta covers a true (if short) interval.
    pub fn seed(cpudetail: bool, cores: &Vec<Ticks>, total: &Ticks, epoch: u64) -> (s: Sampler)
        requires
            cores@.len() < u32::MAX,
        ensures
            s.wf(),
            s.cpudetail == cpudetail,
            s.prev@ == snaps_of(cpudetail, cores@, *total, epoch),
    {
        let prev = build_snapshots(cpudetail, cores, total, epoch);
        let s = Sampler { cpudetail, prev };
        proof {
            assert(s.wf());
        }
        s
    }

    /// One tick: diff the new capture against the retained one, render the
    /// deltas as one atomic write unit, and retain the new capture.
    ///
    /// Returns the unit and whether the tick saw the counter anomaly.
    pub fn tick(&mut self, cores: &Vec<Ticks>, total: &Ticks, epoch: u64) -> (r: (String, bool))
        requires
            old(self).wf(),
            cores@.len() < u32::MAX,
            old(self).cpudetail ==> cores@.len() + 1 == old(self).prev@.len(),
        ensures
            final(self).wf(),
            final(self).cpudetail == old(self).cpudetail,
            final(self).prev@ == snaps_of(old(self).cpudetail, cores@, *total, epoch),
            r.0@ == all_lines(
                deltas_of(
                    old(self).prev@,
                    snaps_of(old(self).cpudetail, cores@, *total, epoch),
                ),
            ),
            r.1 == spec_any_anomaly(
                old(self).prev@,
                snaps_of(old(self).cpudetail, cores@, *total, epoch),
            ),
    {
        let cur = build_snapshots(self.cpudetail, cores, total, epoch);
        proof {
            assert forall|i: int| 0 <= i < cur@.len() implies self.prev@[i].cpu == cur@[i].cpu by {
                if self.cpudetail {
                    if i < cur@.len() - 1 {
                        assert(cur@[i].cpu == i as u32);
                    } else {
                        assert(cur@[i].cpu == u32::MAX);
                        assert(self.prev@[i] == self.prev@.last());
                    }
                } else {
                    assert(cur@[i].cpu == u32::MAX);
                    assert(self.prev@[i] == self.prev@.last());
                }
            }
        }
        let deltas = diff_all(&self.prev, &cur);
        let unit = render_all(&deltas);
        let anomaly = any_anomaly(&self.prev, &cur);
        self.prev = cur;
        proof {
            assert(self.wf());
        }
        (unit, anomaly)
    }
}

} // verus!
