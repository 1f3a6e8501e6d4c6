//! Rendering a snapshot as a field-tagged, self-describing record: a JSON
//! object whose keys are exactly `cpu_usage`, `memory_used` and
//! `memory_total`. The keys are part of the boundary contract, so the
//! rendering is verified character by character against `json_of`.

use vstd::prelude::*;

use crate::metrics::SystemMetrics;

verus! {

/// The character for one decimal digit.
pub open spec fn digit_char(d: nat) -> char {
    if d == 0 {
        '0'
    } else if d == 1 {
        '1'
    } else if d == 2 {
        '2'
    } else if d == 3 {
        '3'
    } else if d == 4 {
        '4'
    } else if d == 5 {
        '5'
    } else if d == 6 {
        '6'
    } else if d == 7 {
        '7'
    } else if d == 8 {
        '8'
    } else {
        '9'
    }
}

/// The decimal rendering of `n`: most significant digit first, no sign, no
/// leading zero except for `n == 0` itself.
pub open spec fn spec_decimal(n: nat) -> Seq<char>
    decreases n,
{
    if n < 10 {
        seq![digit_char(n)]
    } else {
        spec_decimal(n / 10) + seq![digit_char(n % 10)]
    }
}

/// Appends the single digit `d` to `out`.
fn append_digit(out: &mut String, d: u64)
    requires
        d < 10,
    ensures
        final(out)@ == old(out)@ + seq![digit_char(d as nat)],
{
    proof {
        reveal_strlit("0");
        reveal_strlit("1");
        reveal_strlit("2");
        reveal_strlit("3");
        reveal_strlit("4");
        reveal_strlit("5");
        reveal_strlit("6");
        reveal_strlit("7");
        reveal_strlit("8");
        reveal_strlit("9");
    }
    match d {
        0 => out.append("0"),
        1 => out.append("1"),
        2 => out.append("2"),
        3 => out.append("3"),
        4 => out.append("4"),
        5 => out.append("5"),
        6 => out.append("6"),
        7 => out.append("7"),
        8 => out.append("8"),
        _ => out.append("9"),
    }
    proof {
        assert(out@ =~= old(out)@ + seq![digit_char(d as nat)]);
    }
}

/// Appends the decimal rendering of `n` to `out`.
fn push_decimal(out: &mut String, n: u64)
    ensures
        final(out)@ == old(out)@ + spec_decimal(n as nat),
    decreases n,
{
    if n >= 10 {
        push_decimal(out, n / 10);
    }
    append_digit(out, n % 10);
    proof {
        assert(out@ =~= old(out)@ + spec_decimal(n as nat));
    }
}

/// The decimal rendering of `n`, as a fresh string.
pub fn u64_to_decimal(n: u64) -> (r: String)
    ensures
        r@ == spec_decimal(n as nat),
{
    let mut out = String::new();
    push_decimal(&mut out, n);
    proof {
        assert(out@ =~= spec_decimal(n as nat));
    }
    out
}

/// The decimal rendering that the standard library gives the
/// single-precision number whose bit pattern is the argument. It is a
/// function of the bits alone, the same in every process and on every
/// machine.
pub uninterp spec fn f32_decimal(bits: u32) -> Seq<char>;

/// A JSON object with exactly the keys `cpu_usage`, `memory_used` and
/// `memory_total`, in that order, each followed by its value's decimal
/// text.
pub open spec fn json_parts(cpu: Seq<char>, used: nat, total: nat) -> Seq<char> {
    "{\"cpu_usage\":"@ + cpu + ",\"memory_used\":"@ + spec_decimal(used) + ",\"memory_total\":"@
        + spec_decimal(total) + "}"@
}

/// The rendering of a snapshot: its CPU percentage in the decimal text of
/// its bit pattern, its memory counts in plain decimal, under the keys
/// that `json_parts` fixes.
pub open spec fn json_of(m: SystemMetrics) -> Seq<char> {
    json_parts(f32_decimal(m.cpu_usage_bits), m.memory_used as nat, m.memory_total as nat)
}

/// The field names in the rendering of every snapshot are exactly
/// `cpu_usage`, `memory_used` and `memory_total`, in that order: the first
/// key opens the object, and each further key begins right where the
/// previous value's decimal text ends, wherever that is.
pub proof fn lemma_rendering_keys(m: SystemMetrics)
    ensures
        ({
            let cpu = f32_decimal(m.cpu_usage_bits).len() as int;
            let used = spec_decimal(m.memory_used as nat).len() as int;
            let total = spec_decimal(m.memory_total as nat).len() as int;
            let s = json_of(m);
            &&& s.len() == 45 + cpu + used + total
            &&& s.subrange(0, 13) == "{\"cpu_usage\":"@
            &&& s.subrange(13 + cpu, 28 + cpu) == ",\"memory_used\":"@
            &&& s.subrange(28 + cpu + used, 44 + cpu + used) == ",\"memory_total\":"@
            &&& s.subrange(44 + cpu + used + total, 45 + cpu + used + total) == "}"@
        }),
{
    reveal_strlit("{\"cpu_usage\":");
    reveal_strlit(",\"memory_used\":");
    reveal_strlit(",\"memory_total\":");
    reveal_strlit("}");
    let cpu = f32_decimal(m.cpu_usage_bits).len() as int;
    let used = spec_decimal(m.memory_used as nat).len() as int;
    let total = spec_decimal(m.memory_total as nat).len() as int;
    let s = json_of(m);
    assert(s.subrange(0, 13) =~= "{\"cpu_usage\":"@);
    assert(s.subrange(13 + cpu, 28 + cpu) =~= ",\"memory_used\":"@);
    assert(s.subrange(28 + cpu + used, 44 + cpu + used) =~= ",\"memory_total\":"@);
    assert(s.subrange(44 + cpu + used + total, 45 + cpu + used + total) =~= "}"@);
}

/// Renders a snapshot as a JSON object, keyed exactly as `json_parts`
/// says. The CPU percentage's decimal text is handed in by the caller;
/// where it is the text of the snapshot's own bit pattern, the result is
/// exactly `json_of`.
pub fn to_json(m: &SystemMetrics, cpu_text: &str) -> (r: String)
    ensures
        r@ == json_parts(cpu_text@, m.memory_used as nat, m.memory_total as nat),
        cpu_text@ == f32_decimal(m.cpu_usage_bits) ==> r@ == json_of(*m),
{
    let mut out = String::new();
    out.append("{\"cpu_usage\":");
    out.append(cpu_text);
    out.append(",\"memory_used\":");
    push_decimal(&mut out, m.memory_used);
    out.append(",\"memory_total\":");
    push_decimal(&mut out, m.memory_total);
    out.append("}");
    proof {
        assert(out@ =~= json_parts(cpu_text@, m.memory_used as nat, m.memory_total as nat));
    }
    out
}

} // verus!
