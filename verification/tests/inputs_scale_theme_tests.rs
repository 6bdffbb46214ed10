use taskmanager_iced::inputs::{
    search_shows_clear, segment_rounded_corners, segmented_active_index, segmented_key_outcome,
    segmented_neighbor_index, SegmentedKey, SegmentedKeyOutcome, SegmentedMessage,
};
use taskmanager_iced::scale::{scale_unit_suffix, DeviceMetricScale, TrendSeries};
use taskmanager_iced::theme::zebra_index;

fn publish(value: usize) -> SegmentedKeyOutcome {
    SegmentedKeyOutcome { published: vec![SegmentedMessage::Focus, SegmentedMessage::Change(value)], captured: true }
}

fn ignore() -> SegmentedKeyOutcome {
    SegmentedKeyOutcome { published: vec![], captured: false }
}

fn choices() -> Vec<(String, usize)> {
    vec![("1h".to_string(), 10), ("24h".to_string(), 20), ("7d".to_string(), 30)]
}

#[test]
fn search_clear_affordance() {
    assert!(!search_shows_clear(""));
    assert!(search_shows_clear(" "));
    assert!(search_shows_clear("firefox"));
}

#[test]
fn segmented_navigation_wraps() {
    let c = choices();
    assert_eq!(segmented_active_index(&c, 20), Some(1));
    assert_eq!(segmented_active_index(&c, 99), None);
    assert_eq!(segmented_neighbor_index(&c, 30, true), Some(0));
    assert_eq!(segmented_neighbor_index(&c, 10, false), Some(2));
    assert_eq!(segmented_neighbor_index(&c, 20, true), Some(2));
    assert_eq!(segmented_neighbor_index(&c, 99, true), None);
    assert_eq!(segmented_neighbor_index(&c[..1], 10, true), None);
}

#[test]
fn segmented_keys() {
    let c = choices();
    assert_eq!(segmented_key_outcome(true, SegmentedKey::ArrowRight, &c, 10), publish(20));
    assert_eq!(segmented_key_outcome(true, SegmentedKey::ArrowLeft, &c, 10), publish(30));
    assert_eq!(segmented_key_outcome(true, SegmentedKey::Enter, &c, 20), publish(20));
    assert_eq!(segmented_key_outcome(true, SegmentedKey::Space, &c, 99), ignore());
    assert_eq!(segmented_key_outcome(false, SegmentedKey::Enter, &c, 20), ignore());
    assert_eq!(segmented_key_outcome(true, SegmentedKey::Other, &c, 20), ignore());
    assert_eq!(segment_rounded_corners(0, 2), (true, false));
    assert_eq!(segment_rounded_corners(2, 2), (false, true));
    assert_eq!(segment_rounded_corners(0, 0), (true, true));
}

#[test]
fn scales_and_suffixes() {
    assert_eq!(DeviceMetricScale::from(TrendSeries::CpuUsagePercent), DeviceMetricScale::Percent);
    assert_eq!(
        DeviceMetricScale::from(TrendSeries::NetworkBytesPerSec),
        DeviceMetricScale::BytesPerSecond { use_bytes: true, use_base2: true }
    );
    assert_eq!(DeviceMetricScale::from(TrendSeries::CpuPowerW), DeviceMetricScale::Watts);
    assert!(DeviceMetricScale::Percent.fixed_percent_ceiling());
    assert!(!DeviceMetricScale::Celsius.fixed_percent_ceiling());
    assert_eq!(scale_unit_suffix(DeviceMetricScale::Percent), "%");
    assert_eq!(scale_unit_suffix(DeviceMetricScale::Celsius), " °C");
    assert_eq!(scale_unit_suffix(DeviceMetricScale::Megahertz), " MHz");
    assert_eq!(scale_unit_suffix(DeviceMetricScale::AutoPeak), "");
}

#[test]
fn zebra_rows_alternate() {
    assert!(zebra_index(0));
    assert!(!zebra_index(1));
    assert!(zebra_index(2));
    for i in 0..50usize {
        assert_ne!(zebra_index(i), zebra_index(i + 1));
    }
}
