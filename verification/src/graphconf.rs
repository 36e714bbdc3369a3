//! The "describe metrics" side of the collector protocol: the graph and
//! field metadata emitted for each entity.

use vstd::prelude::*;
use vstd::string::StringExecFns;

use crate::render::{dec_rep, entity_name, push_entity, push_u64};

verus! {

/// The five metadata lines one field contributes: label, draw style,
/// minimum, type and description, each prefixed with the entity and field.
pub open spec fn field_block(cpu: u32, field: Seq<char>, draw: Seq<char>, info: Seq<char>) -> Seq<
    char,
> {
    entity_name(cpu) + "_"@ + field + ".label "@ + field + "\n"@ + entity_name(cpu) + "_"@ + field
        + ".draw "@ + draw + "\n"@ + entity_name(cpu) + "_"@ + field + ".min 0\n"@ + entity_name(
        cpu,
    ) + "_"@ + field + ".type GAUGE\n"@ + entity_name(cpu) + "_"@ + field + ".info "@ + info
        + "\n"@
}

/// Append the metadata block of one field.
pub fn push_field_block(out: &mut String, cpu: u32, field: &str, draw: &str, info: &str)
    ensures
        final(out)@ == old(out)@ + field_block(cpu, field@, draw@, info@),
{
    push_entity(out, cpu);
    out.append("_");
    out.append(field);
    out.append(".label ");
    out.append(field);
    out.append("\n");
    push_entity(out, cpu);
    out.append("_");
    out.append(field);
    out.append(".draw ");
    out.append(draw);
    out.append("\n");
    push_entity(out, cpu);
    out.append("_");
    out.append(field);
    out.append(".min 0\n");
    push_entity(out, cpu);
    out.append("_");
    out.append(field);
    out.append(".type GAUGE\n");
    push_entity(out, cpu);
    out.append("_");
    out.append(field);
    out.append(".info ");
    out.append(info);
    out.append("\n");
    proof {
        assert(out@ =~= old(out)@ + field_block(cpu, field@, draw@, info@));
    }
}

/// The whole metadata section of one entity: the graph headers (title,
/// rates, sizes, axis and ordering), then one block per field.
#[verifier::opaque]
pub open spec fn details_text(cpu: u32, uplimit: u64) -> Seq<char> {
    "graph_title CPU usage "@ + entity_name(cpu)
        + " (1sec)\ngraph_category system\nupdate_rate 1\ngraph_data_size custom 1d, 1s for 1d, 5s for 2d, 10s for 7d, 1m for 1t, 5m for 1y\ngraph_order system user nice idle iowait irq softirq\ngraph_args --base 1000 -r --lower-limit 0 --upper-limit "@
        + dec_rep(uplimit)
        + "\ngraph_vlabel %\ngraph_scale no\ngraph_info This graph shows how CPU time is spent.\n"@
        + field_block(
        cpu,
        "system"@,
        "AREA"@,
        "CPU time spent by the kernel in system activities"@,
    ) + field_block(cpu, "user"@, "STACK"@, "CPU time spent by normal programs and daemons"@)
        + field_block(cpu, "nice"@, "STACK"@, "CPU time spent by nice(1)d programs"@) + field_block(
        cpu,
        "idle"@,
        "STACK"@,
        "Idle CPU time"@,
    ) + field_block(
        cpu,
        "iowait"@,
        "STACK"@,
        "CPU time spent waiting for I/O operations to finish when there is nothing else to do."@,
    ) + field_block(cpu, "irq"@, "STACK"@, "CPU time spent handling interrupts"@) + field_block(
        cpu,
        "softirq"@,
        "STACK"@,
        "CPU time spent handling \"batched\" interrupts"@,
    ) + field_block(
        cpu,
        "steal"@,
        "STACK"@,
        "The time that a virtual CPU had runnable tasks, but the virtual CPU itself was not running"@,
    ) + field_block(
        cpu,
        "guest"@,
        "STACK"@,
        "The time spent running a virtual CPU for guest operating systems under the control of the Linux kernel."@,
    ) + field_block(
        cpu,
        "guest_nice"@,
        "STACK"@,
        "The time spent running a nice(1)d virtual CPU for guest operating systems under the control of the Linux kernel."@,
    )
}

/// Append the metadata section of one entity; `uplimit` is the upper limit
/// of the graph's percentage axis.
pub fn push_details(out: &mut String, cpu: u32, uplimit: u64)
    ensures
        final(out)@ == old(out)@ + details_text(cpu, uplimit),
{
    out.append("graph_title CPU usage ");
    push_entity(out, cpu);
    out.append(
        " (1sec)\ngraph_category system\nupdate_rate 1\ngraph_data_size custom 1d, 1s for 1d, 5s for 2d, 10s for 7d, 1m for 1t, 5m for 1y\ngraph_order system user nice idle iowait irq softirq\ngraph_args --base 1000 -r --lower-limit 0 --upper-limit ",
    );
    push_u64(out, uplimit);
    out.append(
        "\ngraph_vlabel %\ngraph_scale no\ngraph_info This graph shows how CPU time is spent.\n",
    );
    push_field_block(out, cpu, "system", "AREA", "CPU time spent by the kernel in system activities");
    push_field_block(out, cpu, "user", "STACK", "CPU time spent by normal programs and daemons");
    push_field_block(out, cpu, "nice", "STACK", "CPU time spent by nice(1)d programs");
    push_field_block(out, cpu, "idle", "STACK", "Idle CPU time");
    push_field_block(
        out,
        cpu,
        "iowait",
        "STACK",
        "CPU time spent waiting for I/O operations to finish when there is nothing else to do.",
    );
    push_field_block(out, cpu, "irq", "STACK", "CPU time spent handling interrupts");
    push_field_block(out, cpu, "softirq", "STACK", "CPU time spent handling \"batched\" interrupts");
    push_field_block(
        out,
        cpu,
        "steal",
        "STACK",
        "The time that a virtual CPU had runnable tasks, but the virtual CPU itself was not running",
    );
    push_field_block(
        out,
        cpu,
        "guest",
        "STACK",
        "The time spent running a virtual CPU for guest operating systems under the control of the Linux kernel.",
    );
    push_field_block(
        out,
        cpu,
        "guest_nice",
        "STACK",
        "The time spent running a nice(1)d virtual CPU for guest operating systems under the control of the Linux kernel.",
    );
    proof {
        reveal(details_text);
        assert(out@ =~= old(out)@ + details_text(cpu, uplimit));
    }
}

/// The per-core sections of the metadata, for cores `0` to `n - 1`: a
/// multigraph header naming the core, then the core's metadata, each core
/// with a percentage axis up to `100`.
pub open spec fn core_sections(n: u64) -> Seq<char>
    recommends
        n < u32::MAX,
    decreases n,
{
    if n == 0 {
        Seq::<char>::empty()
    } else {
        core_sections((n - 1) as u64) + "multigraph cpu1sec.cpu"@ + dec_rep((n - 1) as u64) + "\n"@
            + details_text((n - 1) as u32, 100)
    }
}

/// The whole "describe metrics" output: the total's section (its axis goes
/// up to `100` per core), preceded by its multigraph header and followed
/// by one section per core when per-core detail is on.
pub open spec fn config_text(cpudetail: bool, cores: u64) -> Seq<char> {
    if cpudetail {
        "multigraph cpu1sec\n"@ + details_text(u32::MAX, (cores * 100) as u64) + core_sections(
            cores,
        )
    } else {
        details_text(u32::MAX, (cores * 100) as u64)
    }
}

/// Render the whole "describe metrics" output for `cores` logical cores.
pub fn render_config(cpudetail: bool, cores: u64) -> (r: String)
    requires
        cores * 100 <= u64::MAX,
        cores < u32::MAX,
    ensures
        r@ == config_text(cpudetail, cores),
{
    let mut out = String::new();
    if cpudetail {
        out.append("multigraph cpu1sec\n");
    }
    push_details(&mut out, u32::MAX, cores * 100);
    if cpudetail {
        let ghost pre = "multigraph cpu1sec\n"@ + details_text(u32::MAX, (cores * 100) as u64);
        proof {
            assert(out@ =~= pre + core_sections(0));
        }
        let mut num: u64 = 0;
        while num < cores
            invariant
                num <= cores,
                cores < u32::MAX,
                out@ =~= pre + core_sections(num),
            decreases cores - num,
        {
            out.append("multigraph cpu1sec.cpu");
            push_u64(&mut out, num);
            out.append("\n");
            push_details(&mut out, num as u32, 100);
            proof {
                assert(out@ =~= pre + core_sections((num + 1) as u64));
            }
            num = num + 1;
        }
    }
    proof {
        assert(out@ =~= config_text(cpudetail, cores));
    }
    out
}

} // verus!
