use naarad_sentinel::collectors::cpu_temp::Temperature;
use naarad_sentinel::collectors::device_info::{DeviceProbe, Platform};
use naarad_sentinel::collectors::disk_free::DiskReading;
use naarad_sentinel::config::{Config, ConfigInvalid};
use naarad_sentinel::metrics::format_prometheus_metrics;
use naarad_sentinel::orchestrator::{
    legacy_plan, plan, prepare, select_mode, CliOptions, ErrorKind, RunMode, RunPlan, UsageError,
};
use naarad_sentinel::snapshot::{snapshot, Sources, Timestamp};

fn options() -> CliOptions {
    CliOptions { setup: false, api_key: None, interval: None, legacy: false, dev: false }
}

fn stored_config() -> Config {
    Config {
        api_key: "naarad_user_key".to_string(),
        device_id: "dev-1".to_string(),
        device_name: "Dev 1".to_string(),
        endpoint: "https://example.com/ingest".to_string(),
        interval: 30,
        prometheus_enabled: true,
        prometheus_port: 9200,
        push_enabled: true,
    }
}

#[test]
fn modes_of_the_command_line() {
    assert_eq!(select_mode(&options()), Ok(RunMode::Monitor));
    let mut o = options();
    o.legacy = true;
    assert_eq!(select_mode(&o), Ok(RunMode::PullOnly));
    o.setup = true;
    assert_eq!(select_mode(&o), Err(UsageError::ApiKeyRequired));
    o.api_key = Some("naarad_user_key".to_string());
    assert_eq!(select_mode(&o), Ok(RunMode::Setup));
    o.legacy = false;
    assert_eq!(select_mode(&o), Ok(RunMode::Setup));
    o.setup = false;
    assert_eq!(select_mode(&o), Ok(RunMode::Monitor));
}

#[test]
fn plan_follows_the_switches_of_the_configuration() {
    let mut config = stored_config();
    assert_eq!(plan(&config), Ok(RunPlan { push_interval: Some(30), pull_port: Some(9200) }));
    config.push_enabled = false;
    assert_eq!(plan(&config), Ok(RunPlan { push_interval: None, pull_port: Some(9200) }));
    config.prometheus_enabled = false;
    assert_eq!(plan(&config), Ok(RunPlan { push_interval: None, pull_port: None }));
    config.push_enabled = true;
    assert_eq!(plan(&config), Ok(RunPlan { push_interval: Some(30), pull_port: None }));
}

#[test]
fn legacy_mode_serves_the_default_port_only() {
    assert_eq!(legacy_plan(), RunPlan { push_interval: None, pull_port: Some(9101) });
}

#[test]
fn push_with_empty_api_key_gives_no_plan() {
    let mut config = stored_config();
    config.api_key = String::new();
    config.push_enabled = true;
    assert_eq!(plan(&config), Err(ConfigInvalid::MissingApiKey));
    assert_eq!(prepare(config, &options()).err(), Some(ConfigInvalid::MissingApiKey));
}

#[test]
fn an_invalid_configuration_gives_no_plan() {
    let mut config = stored_config();
    config.interval = 0;
    assert_eq!(plan(&config), Err(ConfigInvalid::ZeroInterval));
    let mut config = stored_config();
    config.endpoint = "no uri at all".to_string();
    assert_eq!(plan(&config), Err(ConfigInvalid::UnparseableEndpoint));
}

#[test]
fn prepare_applies_the_overrides_before_it_plans() {
    let mut o = options();
    o.interval = Some(5);
    o.dev = true;
    let (config, run) = prepare(stored_config(), &o).unwrap();
    assert_eq!(config.interval, 5);
    assert_eq!(config.endpoint, "http://localhost:5001/api/devices/metrics/ingest");
    assert_eq!(run, RunPlan { push_interval: Some(5), pull_port: Some(9200) });

    let mut o = options();
    o.interval = Some(0);
    assert_eq!(prepare(stored_config(), &o).err(), Some(ConfigInvalid::ZeroInterval));

    let mut broken = stored_config();
    broken.endpoint = "no uri at all".to_string();
    let mut o = options();
    assert_eq!(prepare(broken.clone(), &o).err(), Some(ConfigInvalid::UnparseableEndpoint));
    o.dev = true;
    assert!(prepare(broken, &o).is_ok());
}

#[test]
fn only_startup_errors_end_the_process() {
    assert!(!ErrorKind::SourceUnavailable.is_fatal());
    assert!(!ErrorKind::TransportFailure.is_fatal());
    assert!(ErrorKind::ConfigInvalid.is_fatal());
    assert!(ErrorKind::BindFailure.is_fatal());
    assert_eq!(ErrorKind::SourceUnavailable.exit_status(), None);
    assert_eq!(ErrorKind::TransportFailure.exit_status(), None);
    assert_eq!(ErrorKind::ConfigInvalid.exit_status(), Some(1));
    assert_eq!(ErrorKind::BindFailure.exit_status(), Some(1));
}

fn full_sources() -> Sources {
    Sources {
        cpu_temperature: Some(Temperature {
            celsius: "42.5".to_string(),
            celsius_json: "42.5".to_string(),
        }),
        disk: DiskReading::Blocks { free: 26_214_400, size: 4096 },
        device: DeviceProbe {
            platform: Platform::Linux,
            os_version_source: Some("PRETTY_NAME=\"Test OS\"\n".to_string()),
            kernel_release: Some("5.0".to_string()),
            machine: Some("x86_64".to_string()),
            nodename: Some("host1".to_string()),
        },
    }
}

#[test]
fn snapshot_from_sources_to_exposition_text() {
    let at = Timestamp { secs: 1_700_000_000, nanos: 7 };
    let s = snapshot(&stored_config(), &full_sources(), at);
    assert_eq!(s.device_id, "dev-1");
    assert_eq!(s.device_name, "Dev 1");
    assert_eq!(s.device_type, "Linux");
    assert_eq!(s.timestamp, at);
    assert_eq!(s.metrics.cpu_temperature_celsius.as_ref().map(|t| t.celsius.as_str()), Some("42.5"));
    assert_eq!(s.metrics.disk_free_megabytes, Some(102_400));
    assert_eq!(
        format_prometheus_metrics(&s),
        "device_cpu_temperature_celsius 42.5\ndevice_disk_free_mb 102400\nsentinel_device_info{os_type=\"Linux\", os_version=\"Test OS\", kernel=\"5.0\", arch=\"x86_64\", hostname=\"host1\"} 1\n"
    );
}

#[test]
fn a_failing_source_touches_nothing_else() {
    let at = Timestamp { secs: 0, nanos: 0 };
    let mut sources = full_sources();
    sources.cpu_temperature = None;
    let s = snapshot(&stored_config(), &sources, at);
    assert!(s.metrics.cpu_temperature_celsius.is_none());
    assert_eq!(s.metrics.disk_free_megabytes, Some(102_400));
    assert_eq!(s.device_info.hostname, "host1");

    let mut sources = full_sources();
    sources.disk = DiskReading::Unavailable;
    sources.device.nodename = None;
    let s = snapshot(&stored_config(), &sources, at);
    assert_eq!(s.metrics.cpu_temperature_celsius.as_ref().map(|t| t.celsius.as_str()), Some("42.5"));
    assert_eq!(s.metrics.disk_free_megabytes, None);
    assert_eq!(s.device_info.hostname, "Unknown");
    assert_eq!(s.device_info.os_version, "Test OS");
    assert_eq!(
        format_prometheus_metrics(&s),
        "device_cpu_temperature_celsius 42.5\nsentinel_device_info{os_type=\"Linux\", os_version=\"Test OS\", kernel=\"5.0\", arch=\"x86_64\", hostname=\"Unknown\"} 1\n"
    );
}
