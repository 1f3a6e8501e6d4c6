use metrics_snapshot::MetricsError;
use metrics_snapshot::SystemMetrics;
use metrics_snapshot::build_metrics;
use metrics_snapshot::get_system_metrics;
use metrics_snapshot::get_system_metrics_json;
use metrics_snapshot::is_finite_bits;
use metrics_snapshot::to_json;
use metrics_snapshot::u64_to_decimal;

#[test]
fn mocked_reading_is_passed_through_verbatim() {
    let r = build_metrics(42.5f32.to_bits(), 4_294_967_296, 8_589_934_592);
    let m = r.expect("a finite reading with positive total memory is available");
    assert_eq!(f32::from_bits(m.cpu_usage_bits), 42.5f32);
    assert_eq!(m.memory_used, 4_294_967_296);
    assert_eq!(m.memory_total, 8_589_934_592);
}

#[test]
fn zero_total_memory_is_unavailable() {
    let r = build_metrics(42.5f32.to_bits(), 0, 0);
    assert_eq!(r, Err(MetricsError::MetricsUnavailable));
}

#[test]
fn nan_cpu_is_unavailable() {
    let r = build_metrics(f32::NAN.to_bits(), 4_294_967_296, 8_589_934_592);
    assert_eq!(r, Err(MetricsError::MetricsUnavailable));
}

#[test]
fn infinite_cpu_is_unavailable() {
    let r = build_metrics(f32::INFINITY.to_bits(), 4_294_967_296, 8_589_934_592);
    assert_eq!(r, Err(MetricsError::MetricsUnavailable));
    let r = build_metrics(f32::NEG_INFINITY.to_bits(), 4_294_967_296, 8_589_934_592);
    assert_eq!(r, Err(MetricsError::MetricsUnavailable));
}

#[test]
fn finite_bits_agree_with_f32() {
    for v in [0.0f32, 42.5, 100.0, -1.0, f32::MAX, f32::MIN_POSITIVE] {
        assert!(is_finite_bits(v.to_bits()));
    }
    for v in [f32::NAN, f32::INFINITY, f32::NEG_INFINITY] {
        assert!(!is_finite_bits(v.to_bits()));
    }
}

#[test]
fn live_snapshot_is_healthy() {
    let m = get_system_metrics().expect("OS counters are readable here");
    assert!(m.memory_total > 0);
    assert!(f32::from_bits(m.cpu_usage_bits).is_finite());
}

#[test]
fn back_to_back_calls_both_return() {
    let first = get_system_metrics();
    let second = get_system_metrics();
    assert!(first.is_ok());
    assert!(second.is_ok());
}

#[test]
fn json_of_mocked_snapshot_is_exact() {
    let m = SystemMetrics {
        cpu_usage_bits: 42.5f32.to_bits(),
        memory_used: 4_294_967_296,
        memory_total: 8_589_934_592,
    };
    let cpu_text = format!("{}", f32::from_bits(m.cpu_usage_bits));
    let s = to_json(&m, cpu_text.as_str());
    assert_eq!(
        s,
        "{\"cpu_usage\":42.5,\"memory_used\":4294967296,\"memory_total\":8589934592}"
    );
}

#[test]
fn live_json_has_exactly_the_contract_keys() {
    let s = get_system_metrics_json().expect("OS counters are readable here");
    let v: serde_json::Value = serde_json::from_str(&s).expect("the rendering is valid JSON");
    let obj = v.as_object().expect("the rendering is an object");
    assert_eq!(obj.len(), 3);
    assert!(obj.get("cpu_usage").expect("cpu_usage key").as_f64().is_some());
    assert!(obj.get("memory_used").expect("memory_used key").as_u64().is_some());
    let total = obj.get("memory_total").expect("memory_total key").as_u64();
    assert!(total.expect("memory_total is an unsigned integer") > 0);
}

#[test]
fn decimal_rendering_matches_std() {
    for n in [0u64, 1, 9, 10, 42, 99, 100, 4_294_967_296, u64::MAX] {
        assert_eq!(u64_to_decimal(n), format!("{}", n));
    }
}

#[test]
fn decimal_rendering_exact_values() {
    assert_eq!(u64_to_decimal(0), "0");
    assert_eq!(u64_to_decimal(8_589_934_592), "8589934592");
    assert_eq!(u64_to_decimal(u64::MAX), "18446744073709551615");
}
