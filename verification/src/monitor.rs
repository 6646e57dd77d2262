//! GPU monitoring: the utilisation history kept between polls, the memory
//! percentage, and the braille graph, throughput and level helpers of the
//! middle pane.

use std::collections::VecDeque;
use vstd::prelude::*;
use vstd::string::*;
use crate::text::{dec, u64_to_string};

verus! {

/// How many samples the history graphs keep.
pub const GPU_HISTORY_LEN: usize = 60;

/// The history after recording `value`: the oldest sample is dropped when
/// the history is full.
pub open spec fn spec_push_history(h: Seq<u32>, value: u32) -> Seq<u32> {
    if h.len() >= GPU_HISTORY_LEN {
        h.subrange(1, h.len() as int).push(value)
    } else {
        h.push(value)
    }
}

/// Records a sample, dropping the oldest one when the history is full.
pub fn push_history(history: &mut VecDeque<u32>, value: u32)
    ensures
        final(history)@ == spec_push_history(old(history)@, value),
{
    if history.len() >= GPU_HISTORY_LEN {
        history.pop_front();
    }
    history.push_back(value);
}

/// A history never grows past its capacity, and its newest sample is the
/// one just recorded.
pub proof fn law_history_is_bounded(h: Seq<u32>, value: u32)
    requires
        h.len() <= GPU_HISTORY_LEN,
    ensures
        spec_push_history(h, value).len() <= GPU_HISTORY_LEN,
        spec_push_history(h, value).last() == value,
{
}

/// The percentage of device memory in use (used plus reserved), or 0 when
/// the total is unknown.
pub open spec fn spec_mem_used_percent(used: u64, reserved: u64, total: u64) -> u32 {
    if total > 0 {
        (((used + reserved) * 100) / (total as int)) as u32
    } else {
        0
    }
}

/// The percentage of device memory in use.
pub fn mem_used_percent(used: u64, reserved: u64, total: u64) -> (r: u32)
    requires
        (used + reserved) * 100 <= u64::MAX,
    ensures
        r == spec_mem_used_percent(used, reserved, total),
{
    if total > 0 {
        (((used + reserved) * 100) / total) as u32
    } else {
        0
    }
}

/// Records a GPU poll in both histories and gives the memory percentage.
pub fn record_gpu_sample(
    util_history: &mut VecDeque<u32>,
    mem_history: &mut VecDeque<u32>,
    gpu_util: u32,
    mem_used: u64,
    mem_reserved: u64,
    mem_total: u64,
) -> (pct: u32)
    requires
        (mem_used + mem_reserved) * 100 <= u64::MAX,
    ensures
        pct == spec_mem_used_percent(mem_used, mem_reserved, mem_total),
        final(util_history)@ == spec_push_history(old(util_history)@, gpu_util),
        final(mem_history)@ == spec_push_history(old(mem_history)@, pct),
{
    push_history(util_history, gpu_util);
    let pct = mem_used_percent(mem_used, mem_reserved, mem_total);
    push_history(mem_history, pct);
    pct
}

// ── Braille graph ──

/// The braille cell for a level `value` in 0..=100.
pub open spec fn spec_braille(value: u32) -> char {
    if value <= 16 {
        '\u{28c0}'
    } else if value <= 33 {
        '\u{28c4}'
    } else if value <= 50 {
        '\u{28e4}'
    } else if value <= 66 {
        '\u{28f4}'
    } else if value <= 83 {
        '\u{28f6}'
    } else {
        '\u{28ff}'
    }
}

/// The braille cell for a level in 0..=100.
pub fn value_to_braille(value: u32) -> (c: char)
    ensures
        c == spec_braille(value),
{
    if value <= 16 {
        '\u{28c0}'
    } else if value <= 33 {
        '\u{28c4}'
    } else if value <= 50 {
        '\u{28e4}'
    } else if value <= 66 {
        '\u{28f4}'
    } else if value <= 83 {
        '\u{28f6}'
    } else {
        '\u{28ff}'
    }
}

/// The lower half of a two-row bar: the part of `v` up to 50, scaled to 0..=100.
pub open spec fn spec_bottom_braille(v: u32) -> char {
    spec_braille(((if v < 50 { v } else { 50u32 }) * 100 / 50) as u32)
}

/// The upper half of a two-row bar: blank up to 50, then the excess scaled.
pub open spec fn spec_top_braille(v: u32) -> char {
    if v <= 50 {
        ' '
    } else {
        spec_braille(((v - 50) * 100 / 50) as u32)
    }
}

/// The lower braille cell of a two-row bar for `v`.
pub fn value_to_bottom_braille(v: u32) -> (c: char)
    ensures
        c == spec_bottom_braille(v),
{
    let low: u32 = if v < 50 { v } else { 50 };
    value_to_braille(low * 100 / 50)
}

/// The most a value may be for the upper cell's scaling to stay in `u32`.
pub const TOP_BRAILLE_MAX: u32 = 42949722;

/// The upper braille cell of a two-row bar for `v`.
pub fn value_to_top_braille(v: u32) -> (c: char)
    requires
        v <= TOP_BRAILLE_MAX,
    ensures
        c == spec_top_braille(v),
{
    let excess: u32 = if v > 50 { v - 50 } else { 0 };
    if excess == 0 {
        return ' ';
    }
    value_to_braille(excess * 100 / 50)
}

/// The cell of one sample in the upper or lower row.
pub open spec fn spec_cell(v: u32, top: bool) -> char {
    if top {
        spec_top_braille(v)
    } else {
        spec_bottom_braille(v)
    }
}

/// One row of the history graph, `width` cells wide: the newest samples
/// (as many as fit) oldest first, then blanks.
pub open spec fn spec_graph_row(h: Seq<u32>, width: nat, top: bool) -> Seq<char> {
    let k = if h.len() < width { h.len() } else { width };
    Seq::new(k, |i: int| spec_cell(h[h.len() - k + i], top)) + Seq::new(
        (width - k) as nat,
        |i: int| ' ',
    )
}

/// The one-character string of a cell character.
fn cell_str(c: char) -> (s: &'static str)
    requires
        c == ' ' || c == '\u{28c0}' || c == '\u{28c4}' || c == '\u{28e4}' || c == '\u{28f4}' || c
            == '\u{28f6}' || c == '\u{28ff}',
    ensures
        s@ == seq![c],
{
    proof {
        reveal_strlit(" ");
        reveal_strlit("\u{28c0}");
        reveal_strlit("\u{28c4}");
        reveal_strlit("\u{28e4}");
        reveal_strlit("\u{28f4}");
        reveal_strlit("\u{28f6}");
        reveal_strlit("\u{28ff}");
    }
    let s: &'static str = if c == ' ' {
        " "
    } else if c == '\u{28c0}' {
        "\u{28c0}"
    } else if c == '\u{28c4}' {
        "\u{28c4}"
    } else if c == '\u{28e4}' {
        "\u{28e4}"
    } else if c == '\u{28f4}' {
        "\u{28f4}"
    } else if c == '\u{28f6}' {
        "\u{28f6}"
    } else {
        "\u{28ff}"
    };
    assert(s@ =~= seq![c]);
    s
}

/// Builds one row of the braille history graph: the newest samples that fit
/// in `max_chars` cells, oldest first, padded with blanks.
pub fn build_braille_graph_row(history: &VecDeque<u32>, max_chars: usize, top: bool) -> (s: String)
    requires
        top ==> forall|i: int| 0 <= i < history@.len() ==> #[trigger] history@[i] <= TOP_BRAILLE_MAX,
    ensures
        s@ == spec_graph_row(history@, max_chars as nat, top),
{
    let n: usize = history.len();
    let k: usize = if n < max_chars { n } else { max_chars };
    let mut s = String::new();
    let mut i: usize = 0;
    while i < k
        invariant
            k <= n,
            n == history@.len(),
            i <= k,
            k == (if history@.len() < max_chars { history@.len() } else { max_chars as nat }),
            top ==> forall|j: int| 0 <= j < history@.len() ==> #[trigger] history@[j] <= TOP_BRAILLE_MAX,
            s@ =~= Seq::new(i as nat, |j: int| spec_cell(history@[history@.len() - k + j], top)),
        decreases k - i,
    {
        let v: u32 = history[n - k + i];
        let c = if top { value_to_top_braille(v) } else { value_to_bottom_braille(v) };
        s.append(cell_str(c));
        i = i + 1;
    }
    let mut j: usize = k;
    while j < max_chars
        invariant
            k <= j <= max_chars,
            s@ =~= Seq::new(k as nat, |q: int| spec_cell(history@[history@.len() - k + q], top))
                + Seq::new((j - k) as nat, |q: int| ' '),
        decreases max_chars - j,
    {
        s.append(cell_str(' '));
        j = j + 1;
    }
    s
}

// ── Middle pane layout ──

/// How many braille cells each of the two simple-mode graphs gets in a
/// pane `avail` columns wide, after the labels, brackets and the rendered
/// GPU value, memory value and memory text (of the given lengths).
pub fn braille_cells_per_side(avail: usize, gpu_val_len: usize, mem_val_len: usize, mem_info_len: usize) -> (n: usize)
    requires
        13 + gpu_val_len + mem_val_len + mem_info_len <= usize::MAX,
    ensures
        n == (if avail > 13 + gpu_val_len + mem_val_len + mem_info_len {
            (avail - (13 + gpu_val_len + mem_val_len + mem_info_len)) / 2
        } else {
            0
        }),
{
    let overhead = 13 + gpu_val_len + mem_val_len + mem_info_len;
    avail.saturating_sub(overhead) / 2
}

/// The widths of the GPU and memory bars in graph mode for a pane `avail`
/// columns wide: forty columns go to the labels, at least four to the
/// bars, split in two with the odd one to memory.
pub fn bar_widths(avail: usize) -> (r: (usize, usize))
    ensures
        r.0 + r.1 == (if avail > 44 {
            avail - 40
        } else {
            4
        }),
        r.0 == (if avail > 44 {
            avail - 40
        } else {
            4
        }) / 2,
{
    let total = if avail > 44 {
        avail - 40
    } else {
        4
    };
    let gpu = total / 2;
    (gpu, total - gpu)
}

/// The second marks of the graph's time axis for `n` samples: `n`, three
/// quarters, half and a quarter of it (then 0).
pub fn time_axis_marks(n: usize) -> (r: (usize, usize, usize))
    requires
        n * 3 <= usize::MAX,
    ensures
        r.0 == n * 3 / 4,
        r.1 == n / 2,
        r.2 == n / 4,
{
    (n * 3 / 4, n / 2, n / 4)
}

// ── Levels and throughput ──

/// How alarming a reading is; the pane colours it green, yellow or red.
#[derive(Debug, Clone, Copy, PartialEq, Eq)]
pub enum Level {
    Normal,
    High,
    Critical,
}

/// A utilisation percentage: high from 70, critical from 90.
pub open spec fn spec_usage_level(percent: u32) -> Level {
    if percent >= 90 {
        Level::Critical
    } else if percent >= 70 {
        Level::High
    } else {
        Level::Normal
    }
}

/// The level of a utilisation percentage.
pub fn usage_level(percent: u32) -> (l: Level)
    ensures
        l == spec_usage_level(percent),
{
    if percent >= 90 {
        Level::Critical
    } else if percent >= 70 {
        Level::High
    } else {
        Level::Normal
    }
}

/// A temperature in °C: high from 70, critical from 85.
pub open spec fn spec_temperature_level(celsius: u32) -> Level {
    if celsius >= 85 {
        Level::Critical
    } else if celsius >= 70 {
        Level::High
    } else {
        Level::Normal
    }
}

/// The level of a GPU temperature.
pub fn temperature_level(celsius: u32) -> (l: Level)
    ensures
        l == spec_temperature_level(celsius),
{
    if celsius >= 85 {
        Level::Critical
    } else if celsius >= 70 {
        Level::High
    } else {
        Level::Normal
    }
}

/// `n` rendered with at least three digits, zeros in front.
pub open spec fn pad3(n: nat) -> Seq<char> {
    if n < 10 {
        seq!['0', '0'] + dec(n)
    } else if n < 100 {
        seq!['0'] + dec(n)
    } else {
        dec(n)
    }
}

/// `kbps / 1024` in thousandths, rounded to nearest with ties to even.
pub open spec fn mib_thousandths(kbps: nat) -> nat {
    let x = kbps * 1000;
    let q = x / 1024;
    let r = x % 1024;
    if 2 * r > 1024 || (2 * r == 1024 && q % 2 == 1) {
        q + 1
    } else {
        q
    }
}

/// A PCIe throughput given in KiB/s: `N.0 KiB/s` below 1024, otherwise MiB/s
/// with three decimals.
pub open spec fn spec_format_throughput(kbps: nat) -> Seq<char> {
    if kbps < 1024 {
        dec(kbps) + ".0 KiB/s"@
    } else {
        let t = mib_thousandths(kbps);
        dec(t / 1000) + "."@ + pad3(t % 1000) + " MiB/s"@
    }
}

/// `n < 1000` rendered with three digits.
fn pad3_string(n: u64) -> (s: String)
    requires
        n < 1000,
    ensures
        s@ == pad3(n as nat),
{
    let mut s = String::new();
    if n < 10 {
        s.append("00");
        proof {
            reveal_strlit("00");
        }
    } else if n < 100 {
        s.append("0");
        proof {
            reveal_strlit("0");
        }
    }
    let d = u64_to_string(n);
    s.append(d.as_str());
    proof {
        if n < 10 {
            assert(s@ =~= seq!['0', '0'] + dec(n as nat));
        } else if n < 100 {
            assert(s@ =~= seq!['0'] + dec(n as nat));
        } else {
            assert(s@ =~= dec(n as nat));
        }
    }
    s
}

/// Formats a PCIe throughput given in KiB/s.
pub fn format_throughput(kbps: u32) -> (s: String)
    ensures
        s@ == spec_format_throughput(kbps as nat),
{
    if kbps < 1024 {
        let mut s = u64_to_string(kbps as u64);
        s.append(".0 KiB/s");
        return s;
    }
    let x: u64 = kbps as u64 * 1000;
    let q: u64 = x / 1024;
    let r: u64 = x % 1024;
    let t: u64 = if 2 * r > 1024 || (2 * r == 1024 && q % 2 == 1) { q + 1 } else { q };
    let mut s = u64_to_string(t / 1000);
    s.append(".");
    let frac = pad3_string(t % 1000);
    s.append(frac.as_str());
    s.append(" MiB/s");
    s
}

} // verus!
