//! Textual encoding of delta records: one `entity_field.value epoch:value`
//! line per counter, with a multigraph header when per-core detail is on.

use vstd::prelude::*;
use vstd::string::StringExecFns;

use crate::snapshot::CpuStat;

verus! {

/// The character for one decimal digit.
pub open spec fn digit_char(d: u64) -> char
    recommends
        d < 10,
{
    if d == 0 {
        '0'
    } else if d == 1 {
        '1'
    } else if d == 2 {
        '2'
    } else if d == 3 {
        '3'
    } else if d == 4 {
        '4'
    } else if d == 5 {
        '5'
    } else if d == 6 {
        '6'
    } else if d == 7 {
        '7'
    } else if d == 8 {
        '8'
    } else {
        '9'
    }
}

/// Decimal representation of `n`, most significant digit first, no sign,
/// no leading zeroes (a single `'0'` for zero).
pub open spec fn dec_rep(n: u64) -> Seq<char>
    decreases n,
{
    if n < 10 {
        seq![digit_char(n)]
    } else {
        dec_rep(n / 10).push(digit_char(n % 10))
    }
}

/// One digit as a one-character string slice.
fn digit_str(d: u64) -> (s: &'static str)
    requires
        d < 10,
    ensures
        s@ == seq![digit_char(d)],
{
    if d == 0 {
        proof {
            reveal_strlit("0");
            assert("0"@ =~= seq![digit_char(d)]);
        }
        "0"
    } else if d == 1 {
        proof {
            reveal_strlit("1");
            assert("1"@ =~= seq![digit_char(d)]);
        }
        "1"
    } else if d == 2 {
        proof {
            reveal_strlit("2");
            assert("2"@ =~= seq![digit_char(d)]);
        }
        "2"
    } else if d == 3 {
        proof {
            reveal_strlit("3");
            assert("3"@ =~= seq![digit_char(d)]);
        }
        "3"
    } else if d == 4 {
        proof {
            reveal_strlit("4");
            assert("4"@ =~= seq![digit_char(d)]);
        }
        "4"
    } else if d == 5 {
        proof {
            reveal_strlit("5");
            assert("5"@ =~= seq![digit_char(d)]);
        }
        "5"
    } else if d == 6 {
        proof {
            reveal_strlit("6");
            assert("6"@ =~= seq![digit_char(d)]);
        }
        "6"
    } else if d == 7 {
        proof {
            reveal_strlit("7");
            assert("7"@ =~= seq![digit_char(d)]);
        }
        "7"
    } else if d == 8 {
        proof {
            reveal_strlit("8");
            assert("8"@ =~= seq![digit_char(d)]);
        }
        "8"
    } else {
        proof {
            reveal_strlit("9");
            assert("9"@ =~= seq![digit_char(d)]);
        }
        "9"
    }
}

/// Append the decimal representation of `n` to `out`.
pub fn push_u64(out: &mut String, n: u64)
    ensures
        final(out)@ == old(out)@ + dec_rep(n),
    decreases n,
{
    if n >= 10 {
        proof {
            assert(n / 10 < n) by (nonlinear_arith)
                requires
                    n >= 10,
            ;
        }
        push_u64(out, n / 10);
    }
    out.append(digit_str(n % 10));
    proof {
        if n < 10 {
            assert(n % 10 == n);
        }
        assert(out@ =~= old(out)@ + dec_rep(n));
    }
}

/// The textual name of an entity: `total` for the system-wide counters,
/// `cpu<N>` for core `N`.
pub open spec fn entity_name(cpu: u32) -> Seq<char> {
    if cpu == u32::MAX {
        "total"@
    } else {
        "cpu"@ + dec_rep(cpu as u64)
    }
}

/// Append the entity name for `cpu` to `out`.
pub fn push_entity(out: &mut String, cpu: u32)
    ensures
        final(out)@ == old(out)@ + entity_name(cpu),
{
    if cpu == u32::MAX {
        out.append("total");
    } else {
        out.append("cpu");
        push_u64(out, cpu as u64);
        proof {
            assert(out@ =~= old(out)@ + entity_name(cpu));
        }
    }
}

/// One protocol data line: `<entity>_<field>.value <epoch>:<value>` and a
/// terminating newline.
pub open spec fn value_line(cpu: u32, field: Seq<char>, epoch: u64, value: u64) -> Seq<char> {
    entity_name(cpu) + "_"@ + field + ".value "@ + dec_rep(epoch) + ":"@ + dec_rep(value) + "\n"@
}

/// Append one data line for the given entity, field name, epoch and value.
pub fn push_value_line(out: &mut String, cpu: u32, field: &str, epoch: u64, value: u64)
    ensures
        final(out)@ == old(out)@ + value_line(cpu, field@, epoch, value),
{
    push_entity(out, cpu);
    out.append("_");
    out.append(field);
    out.append(".value ");
    push_u64(out, epoch);
    out.append(":");
    push_u64(out, value);
    out.append("\n");
    proof {
        assert(out@ =~= old(out)@ + value_line(cpu, field@, epoch, value));
    }
}

/// The multigraph section header that precedes an entity's lines when
/// per-core detail is on; empty otherwise.
pub open spec fn section_header(s: CpuStat) -> Seq<char> {
    if s.cpudetail {
        if s.cpu == u32::MAX {
            "multigraph cpu1sec\n"@
        } else {
            "multigraph cpu1sec.cpu"@ + dec_rep(s.cpu as u64) + "\n"@
        }
    } else {
        Seq::<char>::empty()
    }
}

/// All lines one delta record contributes to the report: the section
/// header (in detail mode), then one data line per counter, in the fixed
/// field order of the protocol.
pub open spec fn stat_lines(s: CpuStat) -> Seq<char> {
    section_header(s) + value_line(s.cpu, "user"@, s.epoch, s.user) + value_line(
        s.cpu,
        "nice"@,
        s.epoch,
        s.nice,
    ) + value_line(s.cpu, "system"@, s.epoch, s.system) + value_line(
        s.cpu,
        "idle"@,
        s.epoch,
        s.idle,
    ) + value_line(s.cpu, "iowait"@, s.epoch, s.iowait) + value_line(
        s.cpu,
        "irq"@,
        s.epoch,
        s.irq,
    ) + value_line(s.cpu, "softirq"@, s.epoch, s.softirq) + value_line(
        s.cpu,
        "steal"@,
        s.epoch,
        s.steal,
    ) + value_line(s.cpu, "guest"@, s.epoch, s.guest) + value_line(
        s.cpu,
        "guest_nice"@,
        s.epoch,
        s.guest_nice,
    )
}

/// Append every line of one delta record to `out`.
pub fn push_stat(out: &mut String, s: &CpuStat)
    ensures
        final(out)@ == old(out)@ + stat_lines(*s),
{
    if s.cpudetail {
        if s.cpu == u32::MAX {
            out.append("multigraph cpu1sec\n");
        } else {
            out.append("multigraph cpu1sec.cpu");
            push_u64(out, s.cpu as u64);
            out.append("\n");
        }
    }
    proof {
        assert(out@ =~= old(out)@ + section_header(*s));
    }
    push_value_line(out, s.cpu, "user", s.epoch, s.user);
    push_value_line(out, s.cpu, "nice", s.epoch, s.nice);
    push_value_line(out, s.cpu, "system", s.epoch, s.system);
    push_value_line(out, s.cpu, "idle", s.epoch, s.idle);
    push_value_line(out, s.cpu, "iowait", s.epoch, s.iowait);
    push_value_line(out, s.cpu, "irq", s.epoch, s.irq);
    push_value_line(out, s.cpu, "softirq", s.epoch, s.softirq);
    push_value_line(out, s.cpu, "steal", s.epoch, s.steal);
    push_value_line(out, s.cpu, "guest", s.epoch, s.guest);
    push_value_line(out, s.cpu, "guest_nice", s.epoch, s.guest_nice);
    proof {
        assert(out@ =~= old(out)@ + stat_lines(*s));
    }
}

/// The whole report body for a sequence of delta records, in order.
pub open spec fn all_lines(ss: Seq<CpuStat>) -> Seq<char>
    decreases ss.len(),
{
    if ss.len() == 0 {
        Seq::<char>::empty()
    } else {
        all_lines(ss.drop_last()) + stat_lines(ss.last())
    }
}

/// Render a sequence of delta records to one string, in order.
pub fn render_all(ss: &Vec<CpuStat>) -> (r: String)
    ensures
        r@ == all_lines(ss@),
{
    let mut out = String::new();
    let mut i: usize = 0;
    while i < ss.len()
        invariant
            i <= ss.len(),
            out@ == all_lines(ss@.take(i as int)),
        decreases ss.len() - i,
    {
        push_stat(&mut out, &ss[i]);
        proof {
            assert(ss@.take(i + 1 as int).drop_last() =~= ss@.take(i as int));
            assert(ss@.take(i + 1 as int).last() == ss@[i as int]);
        }
        i = i + 1;
    }
    proof {
        assert(ss@.take(ss@.len() as int) =~= ss@);
    }
    out
}

} // verus!
