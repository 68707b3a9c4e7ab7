//! A snapshot: one point-in-time capture of the metrics and the identity of
//! the device, made from what the sources gave.

use crate::collectors::cpu_temp::{clone_reading, reading_view, Temperature, TemperatureView};
use crate::collectors::device_info::{
    device_info_of, get_device_info, DeviceInfo, DeviceInfoView, DeviceProbe, DeviceProbeView,
};
use crate::collectors::disk_free::{disk_free_mb, get_disk_free_mb, DiskReading, DiskReadingView};
use crate::config::{Config, ConfigView};
use vstd::prelude::*;

verus! {

/// An instant in UTC: the seconds since the start of 1970 and the
/// nanoseconds into that second.
#[derive(Clone, Copy, Debug, PartialEq, Eq, Structural)]
pub struct Timestamp {
    pub secs: i64,
    pub nanos: u32,
}

/// The numeric metrics of a snapshot. A metric whose source gave nothing is
/// `None`.
#[derive(Debug)]
pub struct Metrics {
    pub cpu_temperature_celsius: Option<Temperature>,
    pub disk_free_megabytes: Option<u64>,
}

/// The metrics with their texts as sequences of characters.
pub struct MetricsView {
    pub cpu_temperature_celsius: Option<TemperatureView>,
    pub disk_free_megabytes: Option<u64>,
}

impl View for Metrics {
    type V = MetricsView;

    open spec fn view(&self) -> MetricsView {
        MetricsView {
            cpu_temperature_celsius: reading_view(self.cpu_temperature_celsius),
            disk_free_megabytes: self.disk_free_megabytes,
        }
    }
}

/// One capture of the device's state.
#[derive(Debug)]
pub struct Snapshot {
    pub device_id: String,
    pub device_name: String,
    pub device_type: String,
    pub timestamp: Timestamp,
    pub metrics: Metrics,
    pub device_info: DeviceInfo,
}

/// A snapshot with its texts as sequences of characters.
pub struct SnapshotView {
    pub device_id: Seq<char>,
    pub device_name: Seq<char>,
    pub device_type: Seq<char>,
    pub timestamp: Timestamp,
    pub metrics: MetricsView,
    pub device_info: DeviceInfoView,
}

impl View for Snapshot {
    type V = SnapshotView;

    open spec fn view(&self) -> SnapshotView {
        SnapshotView {
            device_id: self.device_id@,
            device_name: self.device_name@,
            device_type: self.device_type@,
            timestamp: self.timestamp,
            metrics: self.metrics@,
            device_info: self.device_info@,
        }
    }
}

/// What was read from the machine for one snapshot.
#[derive(Debug)]
pub struct Sources {
    /// The reading of the CPU temperature, or `None` if there is none.
    pub cpu_temperature: Option<Temperature>,
    pub disk: DiskReading,
    pub device: DeviceProbe,
}

/// The sources with their texts as sequences of characters.
pub struct SourcesView {
    pub cpu_temperature: Option<TemperatureView>,
    pub disk: DiskReadingView,
    pub device: DeviceProbeView,
}

impl View for Sources {
    type V = SourcesView;

    open spec fn view(&self) -> SourcesView {
        SourcesView {
            cpu_temperature: reading_view(self.cpu_temperature),
            disk: self.disk@,
            device: self.device@,
        }
    }
}

/// The metrics that the sources amount to, each on its own.
pub open spec fn metrics_of(sources: SourcesView) -> MetricsView {
    MetricsView {
        cpu_temperature_celsius: sources.cpu_temperature,
        disk_free_megabytes: disk_free_mb(sources.disk),
    }
}

/// The snapshot of a configured device at the instant `now`: the device as
/// the configuration names it, the kind of device being its operating
/// system, and every metric and identity field as its own source gave it.
pub open spec fn snapshot_of(config: ConfigView, sources: SourcesView, now: Timestamp)
    -> SnapshotView {
    SnapshotView {
        device_id: config.device_id,
        device_name: config.device_name,
        device_type: device_info_of(sources.device).os_type,
        timestamp: now,
        metrics: metrics_of(sources),
        device_info: device_info_of(sources.device),
    }
}

/// Makes the snapshot of the device at the instant `now`. It never fails: a
/// source that gave nothing leaves its own metric absent, or its own
/// identity field at the fallback, and touches nothing else.
pub fn snapshot(config: &Config, sources: &Sources, now: Timestamp) -> (s: Snapshot)
    ensures
        s@ == snapshot_of(config@, sources@, now),
{
    let device_info = get_device_info(&sources.device);
    Snapshot {
        device_id: config.device_id.clone(),
        device_name: config.device_name.clone(),
        device_type: device_info.os_type.clone(),
        timestamp: now,
        metrics: Metrics {
            cpu_temperature_celsius: clone_reading(&sources.cpu_temperature),
            disk_free_megabytes: get_disk_free_mb(&sources.disk),
        },
        device_info,
    }
}

/// A metric depends on its own source alone: two sets of sources that agree
/// on one source agree on its metric or identity, whatever the others gave.
pub proof fn lemma_sources_are_independent(a: SourcesView, b: SourcesView)
    ensures
        a.cpu_temperature == b.cpu_temperature ==> metrics_of(a).cpu_temperature_celsius == metrics_of(
            b,
        ).cpu_temperature_celsius,
        a.disk == b.disk ==> metrics_of(a).disk_free_megabytes == metrics_of(b).disk_free_megabytes,
        a.device == b.device ==> device_info_of(a.device) == device_info_of(b.device),
{
}

} // verus!
