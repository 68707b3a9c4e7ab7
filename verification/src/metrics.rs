//! The pull-format exposition text of a snapshot.

use crate::collectors::cpu_temp::TemperatureView;
use crate::collectors::device_info::DeviceInfoView;
use crate::snapshot::{MetricsView, Snapshot, SnapshotView};
use crate::text::{decimal, push_decimal};
use vstd::prelude::*;
use vstd::string::StringExecFns;

verus! {

/// The line for the CPU temperature, with the reading in its decimal
/// notation: nothing where the metric is absent.
pub open spec fn cpu_line(temperature: Option<TemperatureView>) -> Seq<char> {
    match temperature {
        Some(t) => "device_cpu_temperature_celsius "@ + t.celsius + "\n"@,
        None => Seq::empty(),
    }
}

/// The line for the free disk space: nothing where the metric is absent.
pub open spec fn disk_line(free: Option<u64>) -> Seq<char> {
    match free {
        Some(megabytes) => "device_disk_free_mb "@ + decimal(megabytes as nat) + "\n"@,
        None => Seq::empty(),
    }
}

/// The line for the identity of the device: a record with the value 1 that
/// carries the identity in its labels.
pub open spec fn info_line(info: DeviceInfoView) -> Seq<char> {
    "sentinel_device_info{os_type=\""@ + info.os_type + "\", os_version=\""@ + info.os_version
        + "\", kernel=\""@ + info.kernel_version + "\", arch=\""@ + info.architecture
        + "\", hostname=\""@ + info.hostname + "\"} 1\n"@
}

/// The exposition text of a snapshot: one line for each metric that is
/// present, then the line for the identity of the device.
pub open spec fn exposition(snapshot: SnapshotView) -> Seq<char> {
    cpu_line(snapshot.metrics.cpu_temperature_celsius) + disk_line(
        snapshot.metrics.disk_free_megabytes,
    ) + info_line(snapshot.device_info)
}

/// Renders the exposition text of `snapshot`.
pub fn format_prometheus_metrics(snapshot: &Snapshot) -> (text: String)
    ensures
        text@ == exposition(snapshot@),
{
    let mut text = String::new();
    if let Some(t) = &snapshot.metrics.cpu_temperature_celsius {
        text.append("device_cpu_temperature_celsius ");
        text.append(t.celsius.as_str());
        text.append("\n");
    }
    assert(text@ =~= cpu_line(snapshot@.metrics.cpu_temperature_celsius));
    if let Some(megabytes) = snapshot.metrics.disk_free_megabytes {
        text.append("device_disk_free_mb ");
        push_decimal(&mut text, megabytes);
        text.append("\n");
    }
    assert(text@ =~= cpu_line(snapshot@.metrics.cpu_temperature_celsius) + disk_line(
        snapshot@.metrics.disk_free_megabytes,
    ));
    let info = &snapshot.device_info;
    text.append("sentinel_device_info{os_type=\"");
    text.append(info.os_type.as_str());
    text.append("\", os_version=\"");
    text.append(info.os_version.as_str());
    text.append("\", kernel=\"");
    text.append(info.kernel_version.as_str());
    text.append("\", arch=\"");
    text.append(info.architecture.as_str());
    text.append("\", hostname=\"");
    text.append(info.hostname.as_str());
    text.append("\"} 1\n");
    assert(text@ =~= exposition(snapshot@));
    text
}

/// The answer of the pull endpoint to one request.
#[derive(Debug)]
pub struct PullResponse {
    /// The HTTP status.
    pub status: u16,
    /// The exposition text.
    pub body: String,
}

/// The status of every answer of the pull endpoint.
pub const STATUS_OK: u16 = 200;

/// Answers a request to the pull endpoint from a snapshot taken for it:
/// success, with the exposition text of that snapshot as the body. The
/// answer depends on nothing but the snapshot.
pub fn metrics_handler(snapshot: &Snapshot) -> (response: PullResponse)
    ensures
        response.status == STATUS_OK,
        response.body@ == exposition(snapshot@),
{
    PullResponse { status: STATUS_OK, body: format_prometheus_metrics(snapshot) }
}

/// The same snapshot with the given metrics in place of its own.
pub open spec fn with_metrics(snapshot: SnapshotView, metrics: MetricsView) -> SnapshotView {
    SnapshotView { metrics, ..snapshot }
}

/// An absent metric leaves no trace in the text: the text is exactly the
/// lines of the metrics that are present, followed by the identity line.
pub proof fn lemma_absent_metrics_are_omitted(snapshot: SnapshotView)
    ensures
        snapshot.metrics.cpu_temperature_celsius is None ==> exposition(snapshot) == disk_line(
            snapshot.metrics.disk_free_megabytes,
        ) + info_line(snapshot.device_info),
        snapshot.metrics.disk_free_megabytes is None ==> exposition(snapshot) == cpu_line(
            snapshot.metrics.cpu_temperature_celsius,
        ) + info_line(snapshot.device_info),
        snapshot.metrics.cpu_temperature_celsius is None && snapshot.metrics.disk_free_megabytes
            is None ==> exposition(snapshot) == info_line(snapshot.device_info),
{
    let cpu = cpu_line(snapshot.metrics.cpu_temperature_celsius);
    let disk = disk_line(snapshot.metrics.disk_free_megabytes);
    let info = info_line(snapshot.device_info);
    assert(Seq::<char>::empty() + disk + info =~= disk + info);
    assert(cpu + Seq::<char>::empty() + info =~= cpu + info);
    assert(Seq::<char>::empty() + Seq::<char>::empty() + info =~= info);
}

/// Taking a metric away from a snapshot takes exactly its line out of the
/// text and changes nothing else.
pub proof fn lemma_losing_a_metric_drops_its_line(snapshot: SnapshotView)
    ensures
        exposition(snapshot) == cpu_line(snapshot.metrics.cpu_temperature_celsius) + exposition(
            with_metrics(
                snapshot,
                MetricsView { cpu_temperature_celsius: None, ..snapshot.metrics },
            ),
        ),
        exposition(snapshot) == cpu_line(snapshot.metrics.cpu_temperature_celsius) + disk_line(
            snapshot.metrics.disk_free_megabytes,
        ) + exposition(
            with_metrics(
                snapshot,
                MetricsView { cpu_temperature_celsius: None, disk_free_megabytes: None },
            ),
        ),
{
    let cpu = cpu_line(snapshot.metrics.cpu_temperature_celsius);
    let disk = disk_line(snapshot.metrics.disk_free_megabytes);
    let info = info_line(snapshot.device_info);
    assert(cpu + (Seq::<char>::empty() + disk + info) =~= cpu + disk + info);
    assert(cpu + disk + (Seq::<char>::empty() + Seq::<char>::empty() + info) =~= cpu + disk
        + info);
}

/// Rendering depends on the snapshot alone: snapshots that hold the same
/// values have the same text, character for character.
pub proof fn lemma_rendering_is_a_function(a: Snapshot, b: Snapshot)
    requires
        a@ == b@,
    ensures
        exposition(a@) == exposition(b@),
{
}

} // verus!
