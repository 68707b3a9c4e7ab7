use naarad_sentinel::collectors::cpu_temp::Temperature;
use naarad_sentinel::collectors::device_info::DeviceInfo;
use naarad_sentinel::metrics::{format_prometheus_metrics, metrics_handler};
use naarad_sentinel::snapshot::{Metrics, Snapshot, Timestamp};

fn identity() -> DeviceInfo {
    DeviceInfo {
        os_type: "Linux".to_string(),
        os_version: "Test OS".to_string(),
        kernel_version: "5.0".to_string(),
        architecture: "x86_64".to_string(),
        hostname: "host1".to_string(),
    }
}

fn reading(celsius: f64) -> Temperature {
    Temperature {
        celsius: celsius.to_string(),
        celsius_json: serde_json::Value::from(celsius).to_string(),
    }
}

fn snapshot_with(cpu: Option<f64>, disk: Option<u64>) -> Snapshot {
    Snapshot {
        device_id: "dev-1".to_string(),
        device_name: "Dev 1".to_string(),
        device_type: "Linux".to_string(),
        timestamp: Timestamp { secs: 1_700_000_000, nanos: 0 },
        metrics: Metrics {
            cpu_temperature_celsius: cpu.map(reading),
            disk_free_megabytes: disk,
        },
        device_info: identity(),
    }
}

const INFO_LINE: &str = "sentinel_device_info{os_type=\"Linux\", os_version=\"Test OS\", kernel=\"5.0\", arch=\"x86_64\", hostname=\"host1\"} 1\n";

#[test]
fn exposition_of_a_full_snapshot() {
    let text = format_prometheus_metrics(&snapshot_with(Some(42.5), Some(102_400)));
    assert_eq!(
        text,
        format!(
            "device_cpu_temperature_celsius 42.5\ndevice_disk_free_mb 102400\n{}",
            INFO_LINE
        )
    );
}

#[test]
fn absent_cpu_temperature_leaves_no_line() {
    let text = format_prometheus_metrics(&snapshot_with(None, Some(7)));
    assert_eq!(text, format!("device_disk_free_mb 7\n{}", INFO_LINE));
    assert!(!text.contains("null"));
    assert!(!text.contains("device_cpu_temperature_celsius"));
}

#[test]
fn absent_disk_space_leaves_no_line() {
    let text = format_prometheus_metrics(&snapshot_with(Some(-0.5), None));
    assert_eq!(text, format!("device_cpu_temperature_celsius -0.5\n{}", INFO_LINE));
    assert!(!text.contains("device_disk_free_mb"));
}

#[test]
fn no_metric_at_all_leaves_the_identity_line() {
    let text = format_prometheus_metrics(&snapshot_with(None, None));
    assert_eq!(text, INFO_LINE);
}

#[test]
fn rendering_twice_gives_the_same_bytes() {
    let snapshot = snapshot_with(Some(61.125), Some(0));
    let first = format_prometheus_metrics(&snapshot);
    let second = format_prometheus_metrics(&snapshot);
    assert_eq!(first.as_bytes(), second.as_bytes());
}

#[test]
fn every_finite_reading_is_written_as_the_program_prints_it() {
    let millidegrees = [
        "0", "42000", "42500", "42500.5", "4.25e4", "42500.", "-1250", "1", "-0",
        "9223372036854775808", "123456789.125", "1e-7", "1.7976931348623157e308", "5e-324",
    ];
    for text in millidegrees {
        let celsius = text.parse::<f64>().unwrap() / 1000.0;
        let text = format_prometheus_metrics(&snapshot_with(Some(celsius), None));
        assert_eq!(
            text,
            format!("device_cpu_temperature_celsius {}\n{}", celsius, INFO_LINE)
        );
    }
    let text = format_prometheus_metrics(&snapshot_with(Some(42500.5 / 1000.0), None));
    assert_eq!(text, format!("device_cpu_temperature_celsius 42.5005\n{}", INFO_LINE));
}

#[test]
fn the_reading_is_written_in_its_decimal_notation() {
    let mut snapshot = snapshot_with(None, Some(u64::MAX));
    snapshot.metrics.cpu_temperature_celsius = Some(Temperature {
        celsius: "42.5".to_string(),
        celsius_json: "4.25e1".to_string(),
    });
    assert_eq!(
        format_prometheus_metrics(&snapshot),
        format!(
            "device_cpu_temperature_celsius 42.5\ndevice_disk_free_mb 18446744073709551615\n{}",
            INFO_LINE
        )
    );
}

#[test]
fn the_pull_endpoint_answers_with_the_exposition_text() {
    let snapshot = snapshot_with(Some(42.5), Some(102_400));
    let response = metrics_handler(&snapshot);
    assert_eq!(response.status, 200);
    assert_eq!(response.body, format_prometheus_metrics(&snapshot));
    let response = metrics_handler(&snapshot_with(None, None));
    assert_eq!(response.status, 200);
    assert_eq!(response.body, INFO_LINE);
}

#[test]
fn labels_are_written_as_they_are() {
    let mut snapshot = snapshot_with(None, None);
    snapshot.device_info.os_version = "Say \"hi\"".to_string();
    snapshot.device_info.hostname = String::new();
    assert_eq!(
        format_prometheus_metrics(&snapshot),
        "sentinel_device_info{os_type=\"Linux\", os_version=\"Say \"hi\"\", kernel=\"5.0\", arch=\"x86_64\", hostname=\"\"} 1\n"
    );
}
