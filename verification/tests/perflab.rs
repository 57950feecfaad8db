use tkspeed::perflab::{clamp_runs, default_noise_pct, frame_chunks, frametime_column, summary_primary, unstable_reason};
use tkspeed::contracts::BottleneckKind;
use tkspeed::perflab::{cpu_kernel, higher_is_better, is_informational, is_quality_metric, is_stable, PresentMonFrameSource, STABLE_MIN};

fn reference_kernel(iters: u64) -> u64 {
    let mut x: u64 = 0x9E37_79B9_7F4A_7C15;
    for _ in 0..iters {
        x ^= x << 13;
        x ^= x >> 7;
        x ^= x << 17;
        x = x.wrapping_mul(0x2545_F491_4F6C_DD1D);
    }
    x
}

#[test]
fn kernel_is_the_xorshift_mix() {
    assert_eq!(cpu_kernel(0), 0x9E37_79B9_7F4A_7C15);
    for n in [1u64, 2, 3, 10, 1000] {
        assert_eq!(cpu_kernel(n), reference_kernel(n));
    }
}

#[test]
fn stability_threshold() {
    assert_eq!(STABLE_MIN, 70);
    assert!(is_stable(70, false));
    assert!(!is_stable(69, false));
    assert!(!is_stable(100, true));
}

#[test]
fn metric_directions() {
    assert!(higher_is_better("cpu_multi"));
    assert!(higher_is_better("fps_01pct_low"));
    assert!(!higher_is_better("frametime_p99"));
    assert!(!higher_is_better("cpu_load_pct"));
    assert!(is_informational("cpu_load_pct"));
    assert!(!is_informational("cpu_single"));
    assert!(!is_quality_metric("cpu_load_pct"));
    assert!(is_quality_metric("ram_bandwidth_gbs"));
}

#[test]
fn presentmon_source_keeps_path() {
    assert_eq!(PresentMonFrameSource::at("C:\\tools\\PresentMon-x64.exe").exe, "C:\\tools\\PresentMon-x64.exe");
}

/// The whole part of a sampled average, as the classification reads it.
fn whole(x: f64) -> i64 {
    x.floor() as i64
}

fn classify_window(cpu: f64, gpu: Option<f64>, ram: f64, temp: Option<f64>) -> BottleneckKind {
    tkspeed::perflab::classify(whole(cpu), gpu.map(whole), whole(ram), temp.map(whole))
}

#[test]
fn gpu_bound_when_gpu_saturated_cpu_free() {
    let k = classify_window(40.0, Some(98.0), 50.0, Some(70.0));
    assert_eq!(k, BottleneckKind::Gpu);
}

#[test]
fn cpu_bound_when_cpu_saturated() {
    let k = classify_window(95.0, Some(50.0), 50.0, Some(60.0));
    assert_eq!(k, BottleneckKind::Cpu);
}

#[test]
fn thermal_takes_priority() {
    let k = classify_window(95.0, Some(99.0), 50.0, Some(90.0));
    assert_eq!(k, BottleneckKind::Thermal);
}

#[test]
fn idle_is_balanced() {
    let k = classify_window(5.0, Some(3.0), 30.0, Some(45.0));
    assert_eq!(k, BottleneckKind::Balanced);
}

#[test]
fn bottleneck_thresholds_are_inclusive_and_fall_through() {
    assert_eq!(classify_window(10.0, None, 10.0, Some(84.9)), BottleneckKind::Balanced);
    assert_eq!(classify_window(10.0, None, 10.0, Some(85.0)), BottleneckKind::Thermal);
    assert_eq!(classify_window(85.0, None, 10.0, None), BottleneckKind::Cpu);
    assert_eq!(classify_window(85.0, Some(80.0), 10.0, None), BottleneckKind::Inconclusive);
    assert_eq!(classify_window(50.0, Some(89.9), 90.0, None), BottleneckKind::Ram);
    assert_eq!(classify_window(84.9, Some(90.0), 10.0, None), BottleneckKind::Gpu);
    assert_eq!(classify_window(24.9, Some(25.0), 10.0, None), BottleneckKind::Inconclusive);
}

#[test]
fn default_noise_by_metric_family() {
    assert_eq!(default_noise_pct("cpu_multi"), 8);
    assert_eq!(default_noise_pct("ram_latency_ns"), 8);
    assert_eq!(default_noise_pct("io_seq_read_mbs"), 12);
    assert_eq!(default_noise_pct("fps_avg"), 6);
    assert_eq!(default_noise_pct("frametime_p99"), 6);
    assert_eq!(default_noise_pct("other"), 8);
}

#[test]
fn frame_chunks_cover_the_capture() {
    assert_eq!(frame_chunks(10), vec![(0, 10)]);
    assert_eq!(frame_chunks(120), vec![(0, 60), (60, 120)]);
    assert_eq!(frame_chunks(253), vec![(0, 50), (50, 100), (100, 150), (150, 200), (200, 253)]);
    assert_eq!(frame_chunks(6000).len(), 5);
    assert_eq!(frame_chunks(6000)[4], (4800, 6000));
}

#[test]
fn presentmon_frametime_column() {
    assert_eq!(frametime_column("Application,ProcessID,MsBetweenPresents,MsBetweenDisplayChange"), Some(2));
    assert_eq!(frametime_column(" msBetweenPresents "), Some(0));
    assert_eq!(frametime_column("Application,ProcessID"), None);
    assert_eq!(frametime_column(""), None);
}

#[test]
fn summary_speaks_of_the_preferred_metric() {
    let names = |v: &[&str]| v.iter().map(|s| s.to_string()).collect::<Vec<String>>();
    assert_eq!(summary_primary(&names(&["cpu_single", "cpu_multi", "fps_avg"])), Some(2));
    assert_eq!(summary_primary(&names(&["fps_avg", "fps_1pct_low"])), Some(1));
    assert_eq!(summary_primary(&names(&["io_latency_us", "ram_bandwidth_gbs"])), Some(1));
    assert_eq!(summary_primary(&names(&["io_latency_us", "cpu_load_pct"])), Some(0));
    assert_eq!(summary_primary(&[]), None);
}

#[test]
fn unstable_reasons_and_run_counts() {
    assert_eq!(unstable_reason(true), "throttling/temperatura comprometeu a medição");
    assert_eq!(unstable_reason(false), "variância alta entre as execuções");
    assert_eq!(clamp_runs(0, 20), 1);
    assert_eq!(clamp_runs(50, 20), 20);
    assert_eq!(clamp_runs(7, 10), 7);
}
