//! Counter snapshots and the clamped delta between two of them.

use vstd::prelude::*;

verus! {

/// One measurement of the CPU tick counters for one entity (a single
/// core, or the system-wide total) at one epoch second.
///
/// `cpu == u32::MAX` marks the system total; any other value is a core
/// index. Counters that a kernel does not provide are held as zero.
#[derive(Debug, Copy, Clone, PartialEq, Eq, Structural, Hash)]
pub struct CpuStat {
    /// Core index, or `u32::MAX` for the system total.
    pub cpu: u32,
    /// Epoch second the measurement belongs to.
    pub epoch: u64,
    /// Ticks spent in user mode.
    pub user: u64,
    /// Ticks spent in user mode at low priority.
    pub nice: u64,
    /// Ticks spent in system mode.
    pub system: u64,
    /// Ticks spent idle.
    pub idle: u64,
    /// Ticks spent waiting for I/O.
    pub iowait: u64,
    /// Ticks spent servicing interrupts.
    pub irq: u64,
    /// Ticks spent servicing soft interrupts.
    pub softirq: u64,
    /// Ticks stolen by the hypervisor.
    pub steal: u64,
    /// Ticks spent running guests.
    pub guest: u64,
    /// Ticks spent running niced guests.
    pub guest_nice: u64,
    /// Whether per-core detail is being reported.
    pub cpudetail: bool,
}

/// Unsigned subtraction clamped at zero: a counter that went backwards
/// (reset or wraparound) yields a delta of zero rather than underflowing.
pub open spec fn clamped_diff(new: u64, old: u64) -> u64 {
    if new >= old {
        (new - old) as u64
    } else {
        0
    }
}

/// Exec counterpart of [`clamped_diff`].
pub fn clamped_sub(new: u64, old: u64) -> (r: u64)
    ensures
        r == clamped_diff(new, old),
{
    if new >= old {
        new - old
    } else {
        0
    }
}

/// Raw tick counters for one entity as the kernel reports them: the four
/// counters every kernel has, and six that may be absent and then count
/// as zero.
#[derive(Debug, Copy, Clone, PartialEq, Eq, Structural)]
pub struct Ticks {
    /// Ticks spent in user mode.
    pub user: u64,
    /// Ticks spent in user mode at low priority.
    pub nice: u64,
    /// Ticks spent in system mode.
    pub system: u64,
    /// Ticks spent idle.
    pub idle: u64,
    /// Ticks spent waiting for I/O, if the kernel reports them.
    pub iowait: Option<u64>,
    /// Ticks spent servicing interrupts, if reported.
    pub irq: Option<u64>,
    /// Ticks spent servicing soft interrupts, if reported.
    pub softirq: Option<u64>,
    /// Ticks stolen by the hypervisor, if reported.
    pub steal: Option<u64>,
    /// Ticks spent running guests, if reported.
    pub guest: Option<u64>,
    /// Ticks spent running niced guests, if reported.
    pub guest_nice: Option<u64>,
}

/// An absent counter counts as zero.
pub open spec fn or_zero(o: Option<u64>) -> u64 {
    match o {
        Some(v) => v,
        None => 0,
    }
}

/// The snapshot a row of raw tick counters yields for entity `cpu` at
/// `epoch`.
pub open spec fn snap_of(cpu: u32, epoch: u64, cpudetail: bool, t: Ticks) -> CpuStat {
    CpuStat {
        cpu,
        epoch,
        user: t.user,
        nice: t.nice,
        system: t.system,
        idle: t.idle,
        iowait: or_zero(t.iowait),
        irq: or_zero(t.irq),
        softirq: or_zero(t.softirq),
        steal: or_zero(t.steal),
        guest: or_zero(t.guest),
        guest_nice: or_zero(t.guest_nice),
        cpudetail,
    }
}

/// The delta record of two consecutive snapshots of the same entity:
/// field-wise clamped difference, the newer snapshot's epoch, the shared
/// entity.
pub open spec fn delta_of(older: CpuStat, newer: CpuStat) -> CpuStat {
    CpuStat {
        cpu: newer.cpu,
        epoch: newer.epoch,
        user: clamped_diff(newer.user, older.user),
        nice: clamped_diff(newer.nice, older.nice),
        system: clamped_diff(newer.system, older.system),
        idle: clamped_diff(newer.idle, older.idle),
        iowait: clamped_diff(newer.iowait, older.iowait),
        irq: clamped_diff(newer.irq, older.irq),
        softirq: clamped_diff(newer.softirq, older.softirq),
        steal: clamped_diff(newer.steal, older.steal),
        guest: clamped_diff(newer.guest, older.guest),
        guest_nice: clamped_diff(newer.guest_nice, older.guest_nice),
        cpudetail: newer.cpudetail,
    }
}

/// Whether some counter of `newer` is below its value in `older`: a reset,
/// wraparound or renumbering anomaly that the delta engine clamps to zero.
pub open spec fn spec_anomalous(older: CpuStat, newer: CpuStat) -> bool {
    ||| newer.user < older.user
    ||| newer.nice < older.nice
    ||| newer.system < older.system
    ||| newer.idle < older.idle
    ||| newer.iowait < older.iowait
    ||| newer.irq < older.irq
    ||| newer.softirq < older.softirq
    ||| newer.steal < older.steal
    ||| newer.guest < older.guest
    ||| newer.guest_nice < older.guest_nice
}

/// The delta engine: the rate record for the interval between two
/// consecutive snapshots of the same entity.
///
/// Every field is the plain difference while the counters only grew; a
/// field that went backwards is clamped to zero rather than underflowing.
pub fn delta(older: &CpuStat, newer: &CpuStat) -> (r: CpuStat)
    requires
        older.cpu == newer.cpu,
    ensures
        r == delta_of(*older, *newer),
        r.cpu == older.cpu,
        r.epoch == newer.epoch,
{
    CpuStat {
        cpu: newer.cpu,
        epoch: newer.epoch,
        user: clamped_sub(newer.user, older.user),
        nice: clamped_sub(newer.nice, older.nice),
        system: clamped_sub(newer.system, older.system),
        idle: clamped_sub(newer.idle, older.idle),
        iowait: clamped_sub(newer.iowait, older.iowait),
        irq: clamped_sub(newer.irq, older.irq),
        softirq: clamped_sub(newer.softirq, older.softirq),
        steal: clamped_sub(newer.steal, older.steal),
        guest: clamped_sub(newer.guest, older.guest),
        guest_nice: clamped_sub(newer.guest_nice, older.guest_nice),
        cpudetail: newer.cpudetail,
    }
}

/// Whether the step from `older` to `newer` shows the counter anomaly,
/// so a caller can surface it to operators.
pub fn anomalous(older: &CpuStat, newer: &CpuStat) -> (r: bool)
    ensures
        r == spec_anomalous(*older, *newer),
{
    newer.user < older.user || newer.nice < older.nice || newer.system < older.system
        || newer.idle < older.idle || newer.iowait < older.iowait || newer.irq < older.irq
        || newer.softirq < older.softirq || newer.steal < older.steal || newer.guest < older.guest
        || newer.guest_nice < older.guest_nice
}

/// While no counter goes backwards between two snapshots, the delta is
/// the exact field-wise difference of the two.
pub proof fn lemma_delta_exact(older: CpuStat, newer: CpuStat)
    requires
        !spec_anomalous(older, newer),
    ensures
        delta_of(older, newer).user == newer.user - older.user,
        delta_of(older, newer).nice == newer.nice - older.nice,
        delta_of(older, newer).system == newer.system - older.system,
        delta_of(older, newer).idle == newer.idle - older.idle,
        delta_of(older, newer).iowait == newer.iowait - older.iowait,
        delta_of(older, newer).irq == newer.irq - older.irq,
        delta_of(older, newer).softirq == newer.softirq - older.softirq,
        delta_of(older, newer).steal == newer.steal - older.steal,
        delta_of(older, newer).guest == newer.guest - older.guest,
        delta_of(older, newer).guest_nice == newer.guest_nice - older.guest_nice,
{
}

/// A counter that went backwards yields a delta of zero for that field:
/// no underflow and no negative value, whatever the other fields did.
pub proof fn lemma_delta_clamped(older: CpuStat, newer: CpuStat)
    ensures
        newer.user < older.user ==> delta_of(older, newer).user == 0,
        newer.nice < older.nice ==> delta_of(older, newer).nice == 0,
        newer.system < older.system ==> delta_of(older, newer).system == 0,
        newer.idle < older.idle ==> delta_of(older, newer).idle == 0,
        newer.iowait < older.iowait ==> delta_of(older, newer).iowait == 0,
        newer.irq < older.irq ==> delta_of(older, newer).irq == 0,
        newer.softirq < older.softirq ==> delta_of(older, newer).softirq == 0,
        newer.steal < older.steal ==> delta_of(older, newer).steal == 0,
        newer.guest < older.guest ==> delta_of(older, newer).guest == 0,
        newer.guest_nice < older.guest_nice ==> delta_of(older, newer).guest_nice == 0,
{
}

impl CpuStat {
    /// The snapshot of one row of raw tick counters for entity `cpu` at
    /// `epoch`: absent counters become zero.
    pub fn from_ticks(cpu: u32, epoch: u64, cpudetail: bool, t: &Ticks) -> (r: CpuStat)
        ensures
            r == snap_of(cpu, epoch, cpudetail, *t),
    {
        CpuStat {
            cpu,
            epoch,
            user: t.user,
            nice: t.nice,
            system: t.system,
            idle: t.idle,
            iowait: match t.iowait {
                Some(v) => v,
                None => 0,
            },
            irq: match t.irq {
                Some(v) => v,
                None => 0,
            },
            softirq: match t.softirq {
                Some(v) => v,
                None => 0,
            },
            steal: match t.steal {
                Some(v) => v,
                None => 0,
            },
            guest: match t.guest {
                Some(v) => v,
                None => 0,
            },
            guest_nice: match t.guest_nice {
                Some(v) => v,
                None => 0,
            },
            cpudetail,
        }
    }

    /// Field-wise clamped subtraction of `other` from this snapshot: the
    /// delta record `delta_of(other, self)`, with this snapshot as the
    /// newer one, so the record carries this snapshot's entity, detail
    /// flag and epoch. Unlike [`delta`] it puts no condition on the two
    /// entities, so it also serves as the raw pairwise operation.
    pub fn sub(self, other: Self) -> (r: Self)
        ensures
            r == delta_of(other, self),
            r.cpu == self.cpu,
            r.epoch == self.epoch,
            r.cpudetail == self.cpudetail,
    {
        CpuStat {
            cpu: self.cpu,
            epoch: self.epoch,
            user: clamped_sub(self.user, other.user),
            nice: clamped_sub(self.nice, other.nice),
            system: clamped_sub(self.system, other.system),
            idle: clamped_sub(self.idle, other.idle),
            iowait: clamped_sub(self.iowait, other.iowait),
            irq: clamped_sub(self.irq, other.irq),
            softirq: clamped_sub(self.softirq, other.softirq),
            steal: clamped_sub(self.steal, other.steal),
            guest: clamped_sub(self.guest, other.guest),
            guest_nice: clamped_sub(self.guest_nice, other.guest_nice),
            cpudetail: self.cpudetail,
        }
    }
}

} // verus!
