use chrono::DateTime;
use jarvis_backend::metrics::{get_metrics, read_sample, sample_host, HostSample, SystemMetrics};
use sysinfo::System;

fn fake_sample() -> HostSample {
    HostSample {
        cpu_usage_bits: 12.5f32.to_bits(),
        memory_total_bytes: 17_179_869_184,
        memory_used_bytes: 4_294_967_296,
        memory_available_bytes: 12_884_901_888,
        cpu_count: 8,
    }
}

#[test]
fn metrics_report_a_sample_figure_for_figure() {
    let metrics =
        SystemMetrics::from_sample(fake_sample(), String::from("2024-05-01T12:00:00+00:00"));
    assert_eq!(
        metrics,
        SystemMetrics {
            memory_total_bytes: 17_179_869_184,
            memory_used_bytes: 4_294_967_296,
            memory_available_bytes: 12_884_901_888,
            cpu_usage_bits: 0x4148_0000,
            cpu_count: 8,
            timestamp: String::from("2024-05-01T12:00:00+00:00"),
        }
    );
    assert_eq!(f32::from_bits(metrics.cpu_usage_bits), 12.5);
}

#[test]
fn metrics_report_a_host_without_memory_as_it_is() {
    let sample = HostSample {
        cpu_usage_bits: 0,
        memory_total_bytes: 0,
        memory_used_bytes: 0,
        memory_available_bytes: 0,
        cpu_count: 0,
    };
    let metrics = SystemMetrics::from_sample(sample, String::new());
    assert_eq!(metrics.memory_total_bytes, 0);
    assert_eq!(metrics.memory_used_bytes, 0);
    assert_eq!(metrics.memory_available_bytes, 0);
    assert_eq!(metrics.cpu_count, 0);
    assert_eq!(metrics.timestamp, "");
}

#[test]
fn metrics_keep_the_largest_figures() {
    let sample = HostSample {
        cpu_usage_bits: u32::MAX,
        memory_total_bytes: u64::MAX,
        memory_used_bytes: u64::MAX,
        memory_available_bytes: u64::MAX,
        cpu_count: usize::MAX,
    };
    let metrics = SystemMetrics::from_sample(sample, String::from("t"));
    assert_eq!(metrics.memory_total_bytes, u64::MAX);
    assert_eq!(metrics.memory_used_bytes, u64::MAX);
    assert_eq!(metrics.memory_available_bytes, u64::MAX);
    assert_eq!(metrics.cpu_usage_bits, u32::MAX);
    assert_eq!(metrics.cpu_count, usize::MAX);
}

#[test]
fn this_host_has_memory_and_processors() {
    let sample = sample_host();
    assert!(sample.memory_total_bytes > 0);
    assert!(sample.cpu_count > 0);
}

#[test]
fn this_host_uses_no_more_memory_than_it_has() {
    let sample = sample_host();
    assert!(sample.memory_used_bytes <= sample.memory_total_bytes);
    if sample.memory_available_bytes > sample.memory_total_bytes {
        assert_eq!(sample.memory_used_bytes, 0);
    }
}

#[test]
fn this_host_reports_processor_use_as_a_percentage() {
    let usage = f32::from_bits(sample_host().cpu_usage_bits);
    assert!(usage >= 0.0);
    assert!(usage <= 100.0);
}

#[test]
fn metrics_carry_an_rfc_3339_timestamp() {
    let metrics = get_metrics();
    let parsed = DateTime::parse_from_rfc3339(&metrics.timestamp);
    assert!(parsed.is_ok());
    assert_eq!(parsed.unwrap().offset().local_minus_utc(), 0);
}

#[test]
fn timestamps_of_consecutive_metrics_do_not_go_back() {
    let first = get_metrics();
    let second = get_metrics();
    let third = get_metrics();
    let a = DateTime::parse_from_rfc3339(&first.timestamp).unwrap();
    let b = DateTime::parse_from_rfc3339(&second.timestamp).unwrap();
    let c = DateTime::parse_from_rfc3339(&third.timestamp).unwrap();
    assert!(a <= b);
    assert!(b <= c);
}

#[test]
fn two_readings_of_one_host_agree_on_its_size() {
    let first = get_metrics();
    let second = get_metrics();
    assert_eq!(first.memory_total_bytes, second.memory_total_bytes);
    assert_eq!(first.cpu_count, second.cpu_count);
}

#[test]
fn metrics_are_the_sample_of_their_moment() {
    let metrics = get_metrics();
    assert!(metrics.memory_total_bytes > 0);
    assert!(metrics.cpu_count > 0);
    assert!(metrics.memory_used_bytes <= metrics.memory_total_bytes);
    let usage = f32::from_bits(metrics.cpu_usage_bits);
    assert!(usage >= 0.0 && usage <= 100.0);
    assert!(!metrics.timestamp.is_empty());
}

#[test]
fn read_sample_hands_on_what_the_system_holds() {
    let mut sys = System::new_all();
    sys.refresh_all();
    let sample = read_sample(&sys);
    assert_eq!(sample.memory_total_bytes, sys.total_memory());
    assert_eq!(sample.memory_available_bytes, sys.available_memory());
    assert_eq!(sample.cpu_count, sys.cpus().len());
    assert_eq!(sample.cpu_usage_bits, sys.global_cpu_info().cpu_usage().to_bits());
    if sys.available_memory() <= sys.total_memory() {
        assert_eq!(sample.memory_used_bytes, sys.used_memory());
    } else {
        assert_eq!(sample.memory_used_bytes, 0);
    }
}

#[test]
fn read_sample_of_a_system_that_has_read_nothing() {
    let sys = System::new();
    let sample = read_sample(&sys);
    assert_eq!(
        sample,
        HostSample {
            cpu_usage_bits: 0,
            memory_total_bytes: 0,
            memory_used_bytes: 0,
            memory_available_bytes: 0,
            cpu_count: 0,
        }
    );
}

#[test]
fn read_sample_reads_without_refreshing() {
    let sys = System::new_all();
    let first = read_sample(&sys);
    let second = read_sample(&sys);
    assert_eq!(first, second);
}

#[test]
fn read_sample_follows_a_refresh_of_memory_alone() {
    let mut sys = System::new();
    sys.refresh_memory();
    let sample = read_sample(&sys);
    assert!(sample.memory_total_bytes > 0);
    assert_eq!(sample.memory_total_bytes, sys.total_memory());
    assert_eq!(sample.cpu_count, 0);
}
