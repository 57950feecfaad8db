//! Performance lab: session quality, metric semantics and the CPU kernel.

use vstd::prelude::*;

use crate::contracts::BottleneckKind;
use crate::text::{owned, str_eq, strings_of, to_lowercase, trim, lowercase_of, trim_whitespace, seq_contains, contains_str, nth_piece, piece_from};

verus! {

/// Lowest confidence for a session to count as stable.
pub const STABLE_MIN: u8 = 70;

/// Quality of a benchmark session.
#[derive(Debug, Clone, Copy, PartialEq, Eq, Structural)]
pub struct SessionQuality {
    pub confidence: u8,
    pub stable: bool,
    pub contaminated: bool,
}

/// A session is stable when its confidence reaches `STABLE_MIN` and it was
/// not thermally contaminated.
pub fn is_stable(confidence: u8, contaminated: bool) -> (b: bool)
    ensures
        b == (confidence >= STABLE_MIN && !contaminated),
{
    confidence >= STABLE_MIN && !contaminated
}

/// The metrics where a higher value is better; every other metric (frame
/// times, latencies) is better lower.
pub open spec fn higher_better_metrics() -> Seq<Seq<char>> {
    seq![
        "cpu_single"@,
        "cpu_multi"@,
        "ram_bandwidth_gbs"@,
        "io_seq_read_mbs"@,
        "io_seq_write_mbs"@,
        "io_rand_read_iops"@,
        "fps_avg"@,
        "fps_min"@,
        "fps_max"@,
        "fps_1pct_low"@,
        "fps_01pct_low"@,
    ]
}

/// Whether a higher value of the metric is an improvement.
pub fn higher_is_better(metric: &str) -> (b: bool)
    ensures
        b == higher_better_metrics().contains(metric@),
{
    let names: [&str; 11] = [
        "cpu_single",
        "cpu_multi",
        "ram_bandwidth_gbs",
        "io_seq_read_mbs",
        "io_seq_write_mbs",
        "io_rand_read_iops",
        "fps_avg",
        "fps_min",
        "fps_max",
        "fps_1pct_low",
        "fps_01pct_low",
    ];
    assert(names@.map_values(|s: &str| s@) =~= higher_better_metrics());
    let mut i: usize = 0;
    while i < 11
        invariant
            i <= 11,
            names@.map_values(|s: &str| s@) == higher_better_metrics(),
            forall|k: int| 0 <= k < i ==> higher_better_metrics()[k] != metric@,
        decreases 11 - i,
    {
        if str_eq(names[i], metric) {
            assert(higher_better_metrics()[i as int] == metric@);
            return true;
        }
        i = i + 1;
    }
    assert(!higher_better_metrics().contains(metric@)) by {
        if higher_better_metrics().contains(metric@) {
            let k = choose|k: int| 0 <= k < higher_better_metrics().len() && higher_better_metrics()[k] == metric@;
            assert(higher_better_metrics()[k] != metric@);
        }
    }
    false
}

/// The CPU load is informational: it never decides a verdict.
pub fn is_informational(metric: &str) -> (b: bool)
    ensures
        b == (metric@ == "cpu_load_pct"@),
{
    str_eq(metric, "cpu_load_pct")
}

/// Quality and throughput metrics count for the variation of a session; the
/// CPU load does not.
pub fn is_quality_metric(metric: &str) -> (b: bool)
    ensures
        b == (metric@ != "cpu_load_pct"@),
{
    !str_eq(metric, "cpu_load_pct")
}

/// One round of the benchmark kernel: xorshift, then a multiplicative mix.
pub open spec fn kernel_step(x: u64) -> u64 {
    let a = x ^ (x << 13u64);
    let b = a ^ (a >> 7u64);
    let c = b ^ (b << 17u64);
    c.wrapping_mul(0x2545_F491_4F6C_DD1Du64)
}

/// The kernel state after `n` rounds from the fixed seed.
pub open spec fn kernel_after(n: nat) -> u64
    decreases n,
{
    if n == 0 {
        0x9E37_79B9_7F4A_7C15u64
    } else {
        kernel_step(kernel_after((n - 1) as nat))
    }
}

/// The CPU benchmark kernel: `iters` rounds of xorshift and multiply from a
/// fixed seed.
pub fn cpu_kernel(iters: u64) -> (x: u64)
    ensures
        x == kernel_after(iters as nat),
{
    let mut x: u64 = 0x9E37_79B9_7F4A_7C15;
    let mut i: u64 = 0;
    while i < iters
        invariant
            i <= iters,
            x == kernel_after(i as nat),
        decreases iters - i,
    {
        x = x ^ (x << 13u64);
        x = x ^ (x >> 7u64);
        x = x ^ (x << 17u64);
        x = x.wrapping_mul(0x2545_F491_4F6C_DD1D);
        i = i + 1;
    }
    x
}

/// Frame capture through Intel PresentMon (wraps ETW), located at `exe`.
#[derive(Debug, Clone)]
pub struct PresentMonFrameSource {
    pub exe: String,
}

impl PresentMonFrameSource {
    /// The source for the PresentMon executable found at `exe`.
    pub fn at(exe: &str) -> (s: Self)
        ensures
            s.exe@ == exe@,
    {
        PresentMonFrameSource { exe: owned(exe) }
    }
}

// ───────────────────────── Laws ─────────────────────────

/// The informational metric is excluded from quality, and it is not a
/// higher-is-better metric.
pub proof fn lemma_load_metric_roles()
    ensures
        !higher_better_metrics().contains("cpu_load_pct"@),
{
    reveal_strlit("cpu_load_pct");
    let m = higher_better_metrics();
    reveal_strlit("cpu_single");
    reveal_strlit("cpu_multi");
    reveal_strlit("ram_bandwidth_gbs");
    reveal_strlit("io_seq_read_mbs");
    reveal_strlit("io_seq_write_mbs");
    reveal_strlit("io_rand_read_iops");
    reveal_strlit("fps_avg");
    reveal_strlit("fps_min");
    reveal_strlit("fps_max");
    reveal_strlit("fps_1pct_low");
    reveal_strlit("fps_01pct_low");
    assert forall|k: int| 0 <= k < m.len() implies m[k] != "cpu_load_pct"@ by {
        crate::text::lemma_heads_differ(m[k], "cpu_load_pct"@);
    }
}


// ───────────────────────── Bottlenecks ─────────────────────────

/// Whether an optional whole value is absent or below `limit`.
pub open spec fn none_or_below(v: Option<i64>, limit: i64) -> bool {
    match v {
        Some(g) => g < limit,
        None => true,
    }
}

/// The dominant bottleneck of a sampling window. The GPU at 85 °C or more is
/// thermal first; a saturated GPU (90 %) with CPU headroom (below 85 %) is GPU
/// bound; a saturated CPU (85 %) with the GPU below 80 % or unknown is CPU
/// bound; memory at 90 % is RAM bound; CPU and GPU below 25 % is idle
/// (balanced); anything else is inconclusive.
pub open spec fn bottleneck_of(cpu: i64, gpu: Option<i64>, ram: i64, gpu_temp: Option<i64>) -> BottleneckKind {
    if gpu_temp matches Some(t) && t >= 85 {
        BottleneckKind::Thermal
    } else if gpu matches Some(g) && g >= 90 && cpu < 85 {
        BottleneckKind::Gpu
    } else if cpu >= 85 && none_or_below(gpu, 80) {
        BottleneckKind::Cpu
    } else if ram >= 90 {
        BottleneckKind::Ram
    } else if cpu < 25 && none_or_below(gpu, 25) {
        BottleneckKind::Balanced
    } else {
        BottleneckKind::Inconclusive
    }
}

/// Classifies a sampling window from the whole parts of its averages
/// (utilization in %, GPU temperature in °C). Every threshold is a whole
/// number, so for a finite average `x` the test `x >= n` is the test
/// `floor(x) >= n`.
pub fn classify(cpu_avg: i64, gpu_avg: Option<i64>, ram_avg: i64, gpu_temp: Option<i64>) -> (k: BottleneckKind)
    ensures
        k == bottleneck_of(cpu_avg, gpu_avg, ram_avg, gpu_temp),
{
    if let Some(t) = gpu_temp {
        if t >= 85 {
            return BottleneckKind::Thermal;
        }
    }
    let gpu_below_80 = match gpu_avg {
        Some(g) => g < 80,
        None => true,
    };
    let gpu_below_25 = match gpu_avg {
        Some(g) => g < 25,
        None => true,
    };
    match gpu_avg {
        Some(g) => {
            if g >= 90 && cpu_avg < 85 {
                return BottleneckKind::Gpu;
            }
        },
        None => {},
    }
    if cpu_avg >= 85 && gpu_below_80 {
        BottleneckKind::Cpu
    } else if ram_avg >= 90 {
        BottleneckKind::Ram
    } else if cpu_avg < 25 && gpu_below_25 {
        BottleneckKind::Balanced
    } else {
        BottleneckKind::Inconclusive
    }
}

/// A hot GPU is reported as thermal whatever the loads.
pub proof fn lemma_thermal_takes_priority(cpu: i64, gpu: Option<i64>, ram: i64, t: i64)
    requires
        t >= 85,
    ensures
        bottleneck_of(cpu, gpu, ram, Some(t)) == BottleneckKind::Thermal,
{
}

/// Without a thermal alarm, a GPU-bound or CPU-bound verdict needs the
/// bounding unit saturated and the other one with headroom.
pub proof fn lemma_bound_needs_saturation(cpu: i64, gpu: Option<i64>, ram: i64, gpu_temp: Option<i64>)
    ensures
        bottleneck_of(cpu, gpu, ram, gpu_temp) == BottleneckKind::Gpu ==> (gpu matches Some(g) && g >= 90 && cpu < 85),
        bottleneck_of(cpu, gpu, ram, gpu_temp) == BottleneckKind::Cpu ==> cpu >= 85 && none_or_below(gpu, 80),
{
}


/// Without a thermal alarm, a saturated unit decides the bottleneck whatever
/// the memory load: a GPU at 90 % or more with the CPU under 85 % is
/// GPU-bound; a CPU at 85 % or more with the GPU absent or under 80 % is
/// CPU-bound. Memory pressure (90 % or more) is the verdict only when
/// neither holds; an idle machine (CPU and GPU under 25 %, memory under
/// 90 %) is balanced.
pub proof fn lemma_saturation_before_memory(cpu: i64, gpu: Option<i64>, ram: i64, gpu_temp: Option<i64>)
    requires
        !(gpu_temp matches Some(t) && t >= 85),
    ensures
        (gpu matches Some(g) && g >= 90 && cpu < 85) ==> classify_result_is(cpu, gpu, ram, gpu_temp, BottleneckKind::Gpu),
        (cpu >= 85 && (gpu is None || (gpu matches Some(g) && g < 80))) ==> classify_result_is(
            cpu,
            gpu,
            ram,
            gpu_temp,
            BottleneckKind::Cpu,
        ),
        classify_result_is(cpu, gpu, ram, gpu_temp, BottleneckKind::Ram) <==> (ram >= 90 && !(gpu matches Some(g) && g >= 90
            && cpu < 85) && !(cpu >= 85 && (gpu is None || (gpu matches Some(g) && g < 80)))),
        (cpu < 25 && (gpu is None || (gpu matches Some(g) && g < 25)) && ram < 90) ==> classify_result_is(
            cpu,
            gpu,
            ram,
            gpu_temp,
            BottleneckKind::Balanced,
        ),
        classify_result_is(cpu, gpu, ram, gpu_temp, BottleneckKind::Gpu) <==> (gpu matches Some(g) && g >= 90 && cpu < 85),
        classify_result_is(cpu, gpu, ram, gpu_temp, BottleneckKind::Cpu) <==> (cpu >= 85 && (gpu is None || (gpu matches Some(
            g,
        ) && g < 80))),
        classify_result_is(cpu, gpu, ram, gpu_temp, BottleneckKind::Inconclusive) <==> (ram < 90 && !(gpu matches Some(g)
            && g >= 90 && cpu < 85) && !(cpu >= 85 && (gpu is None || (gpu matches Some(g) && g < 80))) && !(cpu < 25 && (
        gpu is None || (gpu matches Some(g) && g < 25)))),
        !classify_result_is(cpu, gpu, ram, gpu_temp, BottleneckKind::Thermal),
        !classify_result_is(cpu, gpu, ram, gpu_temp, BottleneckKind::Storage),
{
}

/// Whether `classify` answers `k` on these averages.
pub open spec fn classify_result_is(cpu: i64, gpu: Option<i64>, ram: i64, gpu_temp: Option<i64>, k: BottleneckKind) -> bool {
    bottleneck_of(cpu, gpu, ram, gpu_temp) == k
}

// ───────────────────────── Noise, frames and summaries ─────────────────────────

/// Whether `s` starts with `p`.
pub open spec fn starts(s: Seq<char>, p: Seq<char>) -> bool {
    p.len() <= s.len() && s.subrange(0, p.len() as int) == p
}

fn starts_with(s: &str, p: &str) -> (b: bool)
    ensures
        b == starts(s@, p@),
{
    let n = s.unicode_len();
    let m = p.unicode_len();
    if m > n {
        return false;
    }
    str_eq(s.substring_char(0, m), p)
}

/// The default noise of a metric in percent, used until the machine has
/// enough sessions: 8 for CPU and RAM metrics, 12 for I/O, 6 for FPS and
/// frame times, 8 otherwise.
pub open spec fn default_noise_of(metric: Seq<char>) -> u8 {
    if starts(metric, "cpu"@) {
        8
    } else if starts(metric, "ram"@) {
        8
    } else if starts(metric, "io"@) {
        12
    } else if starts(metric, "fps"@) || starts(metric, "frametime"@) {
        6
    } else {
        8
    }
}

/// The default noise of a metric, in percent.
pub fn default_noise_pct(metric: &str) -> (n: u8)
    ensures
        n == default_noise_of(metric@),
{
    if starts_with(metric, "cpu") {
        8
    } else if starts_with(metric, "ram") {
        8
    } else if starts_with(metric, "io") {
        12
    } else if starts_with(metric, "fps") || starts_with(metric, "frametime") {
        6
    } else {
        8
    }
}

/// The number of chunks a capture of `n` frames is split into: one per 50
/// frames, between 1 and 5.
pub open spec fn chunk_count(n: nat) -> nat {
    if n / 50 < 1 {
        1
    } else if n / 50 > 5 {
        5
    } else {
        n / 50
    }
}

/// The frame ranges of the chunks of a capture of `n` frames: equal chunks,
/// the last one taking the remainder.
pub fn frame_chunks(n: usize) -> (r: Vec<(usize, usize)>)
    requires
        n > 0,
    ensures
        r@.len() == chunk_count(n as nat),
        r@[0].0 == 0,
        r@[r@.len() - 1].1 == n,
        forall|c: int| 0 <= c < r@.len() ==> (#[trigger] r@[c]).0 < r@[c].1,
        forall|c: int| 0 <= c < r@.len() - 1 ==> (#[trigger] r@[c]).1 == r@[c + 1].0,
        forall|c: int| 0 <= c < r@.len() ==> (#[trigger] r@[c]).0 == c * ((n as nat) / chunk_count(n as nat)),
{
    let per = n / 50;
    let k: usize = if per < 1 {
        1
    } else if per > 5 {
        5
    } else {
        per
    };
    let size = n / k;
    assert(size >= 1) by (nonlinear_arith)
        requires
            k >= 1,
            k <= 5,
            n > 0,
            (per < 1 ==> k == 1),
            per == n / 50,
            k <= per || k == 1,
            size == n / k,
    ;
    assert(size * k <= n) by (nonlinear_arith)
        requires
            k >= 1,
            size == n / k,
    ;
    let mut r: Vec<(usize, usize)> = Vec::new();
    let mut c: usize = 0;
    while c < k
        invariant
            1 <= k <= 5,
            size >= 1,
            size * k <= n,
            k == chunk_count(n as nat),
            size == n / k,
            c <= k,
            r@.len() == c,
            forall|j: int| 0 <= j < c ==> (#[trigger] r@[j]).0 == j * size,
            forall|j: int| 0 <= j < c ==> (#[trigger] r@[j]).1 == (if j == k - 1 { n as int } else { (j + 1) * size }),
        decreases k - c,
    {
        assert(c * size < n) by (nonlinear_arith)
            requires
                c < k,
                size >= 1,
                size * k <= n,
        ;
        assert((c + 1) * size <= n) by (nonlinear_arith)
            requires
                c < k,
                size * k <= n,
        ;
        let start = c * size;
        let end = if c == k - 1 { n } else { (c + 1) * size };
        r.push((start, end));
        c = c + 1;
    }
    assert forall|j: int| 0 <= j < r@.len() implies (#[trigger] r@[j]).0 < r@[j].1 by {
        assert(j * size < (j + 1) * size) by (nonlinear_arith)
            requires
                size >= 1,
        ;
        assert(j * size < n) by (nonlinear_arith)
            requires
                j < k,
                size >= 1,
                size * k <= n,
        ;
    }
    r
}

/// Whether a header field names the frame time column.
pub open spec fn is_frametime_header(h: Seq<char>) -> bool {
    seq_contains(lowercase_of(trim_whitespace(h)), "betweenpresents"@)
}

/// The first comma-separated field of `header`, from field `i` on, that
/// names the frame time column.
pub open spec fn frametime_column_from(header: Seq<char>, i: nat) -> Option<nat>
    decreases header.len() + 1 - i,
{
    match piece_from(header, ',', 0, i) {
        None => None,
        Some(h) => if is_frametime_header(h) {
            Some(i)
        } else if i >= header.len() {
            None
        } else {
            frametime_column_from(header, i + 1)
        },
    }
}

/// The column of a PresentMon CSV header holding the time between presents.
pub fn frametime_column(header: &str) -> (r: Option<usize>)
    ensures
        match r {
            Some(i) => frametime_column_from(header@, 0) == Some(i as nat),
            None => frametime_column_from(header@, 0) is None,
        },
{
    let n = header.unicode_len();
    let mut i: usize = 0;
    loop
        invariant
            n == header@.len(),
            i <= n,
            frametime_column_from(header@, 0) == frametime_column_from(header@, i as nat),
        decreases n + 1 - i,
    {
        match nth_piece(header, ',', i) {
            None => {
                return None;
            },
            Some(h) => {
                let lower = to_lowercase(trim(h.as_str()));
                if contains_str(lower.as_str(), "betweenpresents") {
                    return Some(i);
                }
                if i >= n {
                    return None;
                }
            },
        }
        i = i + 1;
    }
}

/// Whether `i` is the first position of `name` in `ms`.
pub open spec fn is_first_named(ms: Seq<Seq<char>>, name: Seq<char>, i: int) -> bool {
    0 <= i < ms.len() && ms[i] == name && forall|j: int| 0 <= j < i ==> #[trigger] ms[j] != name
}

/// The first position of `name` in `ms`, if any.
pub open spec fn first_named_of(ms: Seq<Seq<char>>, name: Seq<char>) -> Option<int> {
    if exists|i: int| is_first_named(ms, name, i) {
        Some(choose|i: int| is_first_named(ms, name, i))
    } else {
        None
    }
}

/// The metrics a summary prefers, best first.
pub open spec fn summary_order() -> Seq<Seq<char>> {
    seq!["fps_1pct_low"@, "fps_avg"@, "cpu_multi"@, "ram_bandwidth_gbs"@, "io_seq_read_mbs"@]
}

/// The metric a comparison summary speaks of, from preference `k` on: the
/// first present of the preferred metrics (1% low FPS, average FPS, the
/// multi-core CPU score, the RAM bandwidth, the sequential read speed), else
/// the first metric.
pub open spec fn summary_primary_from(ms: Seq<Seq<char>>, k: int) -> Option<int>
    decreases 5 - k,
{
    if k < 0 || k >= 5 {
        if ms.len() > 0 {
            Some(0)
        } else {
            None
        }
    } else {
        match first_named_of(ms, summary_order()[k]) {
            Some(i) => Some(i),
            None => summary_primary_from(ms, k + 1),
        }
    }
}

fn first_named(metrics: &[String], name: &str) -> (r: Option<usize>)
    ensures
        match r {
            Some(i) => first_named_of(strings_of(metrics@), name@) == Some(i as int),
            None => first_named_of(strings_of(metrics@), name@) is None,
        },
{
    let ghost ms = strings_of(metrics@);
    let mut i: usize = 0;
    while i < metrics.len()
        invariant
            ms == strings_of(metrics@),
            i <= metrics@.len(),
            forall|j: int| 0 <= j < i ==> #[trigger] ms[j] != name@,
        decreases metrics@.len() - i,
    {
        if str_eq(metrics[i].as_str(), name) {
            assert(is_first_named(ms, name@, i as int));
            assert forall|q: int| is_first_named(ms, name@, q) implies q == i as int by {
                if q > i {
                    assert(ms[i as int] != name@);
                }
            }
            return Some(i);
        }
        i = i + 1;
    }
    assert(!exists|q: int| is_first_named(ms, name@, q)) by {
        if exists|q: int| is_first_named(ms, name@, q) {
            let q = choose|q: int| is_first_named(ms, name@, q);
            assert(ms[q] != name@);
        }
    }
    None
}

/// The index of the metric a comparison summary speaks of.
pub fn summary_primary(metrics: &[String]) -> (r: Option<usize>)
    ensures
        match r {
            Some(i) => summary_primary_from(strings_of(metrics@), 0) == Some(i as int),
            None => summary_primary_from(strings_of(metrics@), 0) is None,
        },
{
    let order: [&str; 5] = ["fps_1pct_low", "fps_avg", "cpu_multi", "ram_bandwidth_gbs", "io_seq_read_mbs"];
    assert(forall|q: int| 0 <= q < 5 ==> order@[q]@ == summary_order()[q]);
    let ghost ms = strings_of(metrics@);
    let mut k: usize = 0;
    while k < 5
        invariant
            k <= 5,
            ms == strings_of(metrics@),
            forall|q: int| 0 <= q < 5 ==> order@[q]@ == summary_order()[q],
            summary_primary_from(ms, 0) == summary_primary_from(ms, k as int),
        decreases 5 - k,
    {
        match first_named(metrics, order[k]) {
            Some(i) => {
                return Some(i);
            },
            None => {},
        }
        k = k + 1;
    }
    assert(ms.len() == metrics@.len());
    if metrics.len() > 0 {
        Some(0)
    } else {
        None
    }
}

/// Why an unreliable comparison is unreliable.
pub fn unstable_reason(contaminated: bool) -> (m: &'static str)
    ensures
        contaminated ==> m@ == "throttling/temperatura comprometeu a medição"@,
        !contaminated ==> m@ == "variância alta entre as execuções"@,
{
    if contaminated {
        "throttling/temperatura comprometeu a medição"
    } else {
        "variância alta entre as execuções"
    }
}

/// The number of runs of a benchmark: 1 to 20 for CPU and RAM, 1 to 10 for
/// I/O and the complete suite.
pub fn clamp_runs(runs: u32, max: u32) -> (r: u32)
    requires
        max >= 1,
    ensures
        r == (if runs < 1 { 1 } else if runs > max { max } else { runs }),
{
    if runs < 1 {
        1
    } else if runs > max {
        max
    } else {
        runs
    }
}

} // verus!
