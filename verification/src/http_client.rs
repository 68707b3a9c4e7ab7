//! The push path: the JSON payload of a snapshot, the request that carries
//! it, and what the answer of the service means.

use crate::collectors::cpu_temp::TemperatureView;
use crate::config::{parses_as_uri, uri_accepts, Config, ConfigView};
use crate::snapshot::{Metrics, MetricsView, Snapshot, SnapshotView};
use crate::text::{decimal, digit, push_decimal, text_of};
use vstd::prelude::*;
use vstd::string::StringExecFns;

verus! {

/// The character of one hexadecimal digit, in lowercase.
pub open spec fn hex_digit(d: nat) -> char {
    if d < 10 {
        digit(d)
    } else {
        ('a' as nat + d - 10) as char
    }
}

/// How one character stands inside a JSON string literal: the double quote
/// and the backslash behind a backslash; backspace, tab, line feed, form
/// feed and carriage return as their short escapes; every other character
/// below the space as `\u00` and its two hexadecimal digits; all else as
/// it is.
pub open spec fn escaped_char(c: char) -> Seq<char> {
    if c == '"' {
        seq!['\\', '"']
    } else if c == '\\' {
        seq!['\\', '\\']
    } else if c == '\u{8}' {
        seq!['\\', 'b']
    } else if c == '\t' {
        seq!['\\', 't']
    } else if c == '\n' {
        seq!['\\', 'n']
    } else if c == '\u{c}' {
        seq!['\\', 'f']
    } else if c == '\r' {
        seq!['\\', 'r']
    } else if (c as u32) < 0x20 {
        seq!['\\', 'u', '0', '0', hex_digit(c as nat / 16), hex_digit(c as nat % 16)]
    } else {
        seq![c]
    }
}

/// The characters of `text` as they stand inside a JSON string literal.
pub open spec fn escaped(text: Seq<char>) -> Seq<char>
    decreases text.len(),
{
    if text.len() == 0 {
        Seq::empty()
    } else {
        escaped(text.drop_last()) + escaped_char(text.last())
    }
}

/// The JSON string literal for `text`: its characters, escaped, between
/// double quotes.
pub open spec fn json_string(text: Seq<char>) -> Seq<char> {
    seq!['"'] + escaped(text) + seq!['"']
}

/// Has `serde_json` write `text` as a JSON value, through `to_string` of
/// `serde_json::Value`. For a string value the compact writer of
/// `serde_json` puts out the string literal as `json_string` states it,
/// with the escapes of its escape table.
#[verifier::external_body]
fn quote(text: &str) -> (r: String)
    ensures
        r@ == json_string(text@),
{
    serde_json::Value::String(text.to_owned()).to_string()
}

/// The RFC 3339 notation in UTC that `chrono` gives the instant `secs`
/// seconds and `nanos` nanoseconds after the start of 1970, or `None` where
/// `chrono` has no such instant.
pub uninterp spec fn rfc3339_text(secs: i64, nanos: u32) -> Option<Seq<char>>;

/// Has `chrono` write an instant in RFC 3339 notation: the instant is made
/// by `DateTime::from_timestamp`, which refuses seconds or nanoseconds out
/// of its range, and written by `DateTime::to_rfc3339`. Both read nothing
/// but their arguments.
#[verifier::external_body]
fn format_rfc3339(secs: i64, nanos: u32) -> (r: Option<String>)
    ensures
        text_of(r) == rfc3339_text(secs, nanos),
{
    match chrono::DateTime::from_timestamp(secs, nanos) {
        Some(instant) => Some(instant.to_rfc3339()),
        None => None,
    }
}

/// The texts of a payload, each already written as a JSON string literal.
#[derive(Debug)]
pub struct PayloadFields {
    pub device_id: String,
    pub device_name: String,
    pub device_type: String,
    pub timestamp: String,
    pub os_type: String,
    pub os_version: String,
    pub kernel: String,
    pub arch: String,
    pub hostname: String,
}

/// The texts of a payload as sequences of characters.
pub struct PayloadFieldsView {
    pub device_id: Seq<char>,
    pub device_name: Seq<char>,
    pub device_type: Seq<char>,
    pub timestamp: Seq<char>,
    pub os_type: Seq<char>,
    pub os_version: Seq<char>,
    pub kernel: Seq<char>,
    pub arch: Seq<char>,
    pub hostname: Seq<char>,
}

impl View for PayloadFields {
    type V = PayloadFieldsView;

    open spec fn view(&self) -> PayloadFieldsView {
        PayloadFieldsView {
            device_id: self.device_id@,
            device_name: self.device_name@,
            device_type: self.device_type@,
            timestamp: self.timestamp@,
            os_type: self.os_type@,
            os_version: self.os_version@,
            kernel: self.kernel@,
            arch: self.arch@,
            hostname: self.hostname@,
        }
    }
}

/// The JSON value of the CPU temperature: the reading in its JSON
/// notation, or `null` where the metric is absent.
pub open spec fn cpu_json(temperature: Option<TemperatureView>) -> Seq<char> {
    match temperature {
        Some(t) => t.celsius_json,
        None => "null"@,
    }
}

/// The JSON value of the free disk space: a whole number, or `null` where
/// the metric is absent.
pub open spec fn disk_json(free: Option<u64>) -> Seq<char> {
    match free {
        Some(megabytes) => decimal(megabytes as nat),
        None => "null"@,
    }
}

/// The JSON object with the identity of the device, its keys in
/// alphabetical order.
pub open spec fn info_json(fields: PayloadFieldsView) -> Seq<char> {
    "{\"arch\":"@ + fields.arch + ",\"hostname\":"@ + fields.hostname + ",\"kernel\":"@
        + fields.kernel + ",\"os_type\":"@ + fields.os_type + ",\"os_version\":"@
        + fields.os_version + "}"@
}

/// The JSON object with the metrics, its keys in alphabetical order.
pub open spec fn metrics_json(fields: PayloadFieldsView, metrics: MetricsView) -> Seq<char> {
    "{\"device_cpu_temperature_celsius\":"@ + cpu_json(metrics.cpu_temperature_celsius)
        + ",\"device_disk_free_mb\":"@ + disk_json(metrics.disk_free_megabytes)
        + ",\"sentinel_device_info\":"@ + info_json(fields) + "}"@
}

/// The JSON document that is pushed: one object without white space, its
/// keys in alphabetical order.
pub open spec fn payload_text(fields: PayloadFieldsView, metrics: MetricsView) -> Seq<char> {
    "{\"device_id\":"@ + fields.device_id + ",\"device_name\":"@ + fields.device_name
        + ",\"device_type\":"@ + fields.device_type + ",\"metrics\":"@ + metrics_json(
        fields,
        metrics,
    ) + ",\"timestamp\":"@ + fields.timestamp + "}"@
}

/// Writes the JSON document from texts that are already JSON string
/// literals and from the metrics.
pub fn render_payload(fields: &PayloadFields, metrics: &Metrics) -> (body: String)
    ensures
        body@ == payload_text(fields@, metrics@),
{
    let mut info = String::new();
    info.append("{\"arch\":");
    info.append(fields.arch.as_str());
    info.append(",\"hostname\":");
    info.append(fields.hostname.as_str());
    info.append(",\"kernel\":");
    info.append(fields.kernel.as_str());
    info.append(",\"os_type\":");
    info.append(fields.os_type.as_str());
    info.append(",\"os_version\":");
    info.append(fields.os_version.as_str());
    info.append("}");
    assert(info@ =~= info_json(fields@));

    let mut cpu = String::new();
    match &metrics.cpu_temperature_celsius {
        Some(t) => cpu.append(t.celsius_json.as_str()),
        None => cpu.append("null"),
    }
    assert(cpu@ =~= cpu_json(metrics@.cpu_temperature_celsius));
    let mut disk = String::new();
    match metrics.disk_free_megabytes {
        Some(megabytes) => push_decimal(&mut disk, megabytes),
        None => disk.append("null"),
    }
    assert(disk@ =~= disk_json(metrics.disk_free_megabytes));

    let mut inner = String::new();
    inner.append("{\"device_cpu_temperature_celsius\":");
    inner.append(cpu.as_str());
    inner.append(",\"device_disk_free_mb\":");
    inner.append(disk.as_str());
    inner.append(",\"sentinel_device_info\":");
    inner.append(info.as_str());
    inner.append("}");
    assert(inner@ =~= metrics_json(fields@, metrics@));

    let mut body = String::new();
    body.append("{\"device_id\":");
    body.append(fields.device_id.as_str());
    body.append(",\"device_name\":");
    body.append(fields.device_name.as_str());
    body.append(",\"device_type\":");
    body.append(fields.device_type.as_str());
    body.append(",\"metrics\":");
    body.append(inner.as_str());
    body.append(",\"timestamp\":");
    body.append(fields.timestamp.as_str());
    body.append("}");
    assert(body@ =~= payload_text(fields@, metrics@));
    body
}

/// The texts of a snapshot as JSON string literals, with `timestamp` as the
/// notation of its instant.
pub open spec fn encoded(snapshot: SnapshotView, timestamp: Seq<char>) -> PayloadFieldsView {
    PayloadFieldsView {
        device_id: json_string(snapshot.device_id),
        device_name: json_string(snapshot.device_name),
        device_type: json_string(snapshot.device_type),
        timestamp: json_string(timestamp),
        os_type: json_string(snapshot.device_info.os_type),
        os_version: json_string(snapshot.device_info.os_version),
        kernel: json_string(snapshot.device_info.kernel_version),
        arch: json_string(snapshot.device_info.architecture),
        hostname: json_string(snapshot.device_info.hostname),
    }
}

/// The JSON document for a snapshot, or `None` where its instant has no
/// RFC 3339 notation.
pub open spec fn payload_of(snapshot: SnapshotView) -> Option<Seq<char>> {
    match rfc3339_text(snapshot.timestamp.secs, snapshot.timestamp.nanos) {
        Some(timestamp) => Some(payload_text(encoded(snapshot, timestamp), snapshot.metrics)),
        None => None,
    }
}

/// Writes the JSON document for `snapshot`.
pub fn payload(snapshot: &Snapshot) -> (body: Option<String>)
    ensures
        text_of(body) == payload_of(snapshot@),
{
    match format_rfc3339(snapshot.timestamp.secs, snapshot.timestamp.nanos) {
        Some(timestamp) => {
            let fields = PayloadFields {
                device_id: quote(snapshot.device_id.as_str()),
                device_name: quote(snapshot.device_name.as_str()),
                device_type: quote(snapshot.device_type.as_str()),
                timestamp: quote(timestamp.as_str()),
                os_type: quote(snapshot.device_info.os_type.as_str()),
                os_version: quote(snapshot.device_info.os_version.as_str()),
                kernel: quote(snapshot.device_info.kernel_version.as_str()),
                arch: quote(snapshot.device_info.architecture.as_str()),
                hostname: quote(snapshot.device_info.hostname.as_str()),
            };
            Some(render_payload(&fields, &snapshot.metrics))
        },
        None => None,
    }
}

/// Whether `c` may stand in the value of an HTTP header: a tab, or any
/// character from the space on but the delete character.
pub open spec fn is_header_char(c: char) -> bool {
    c == '\t' || (c >= ' ' && c != '\u{7f}')
}

/// Whether `text` may be the value of an HTTP header.
pub open spec fn is_header_text(text: Seq<char>) -> bool {
    forall|i: int| 0 <= i < text.len() ==> is_header_char(#[trigger] text[i])
}

/// Decides whether `text` may be the value of an HTTP header.
pub fn check_header_text(text: &str) -> (ok: bool)
    ensures
        ok == is_header_text(text@),
{
    for c in it: text.chars()
        invariant
            it.seq() == text@,
            forall|i: int| 0 <= i < it.index() ==> is_header_char(#[trigger] text@[i]),
    {
        if !(c == '\t' || (c >= ' ' && c != '\u{7f}')) {
            assert(!is_header_char(text@[it.index() as int]));
            return false;
        }
    }
    true
}

/// A request to push one snapshot.
#[derive(Debug)]
pub struct PushRequest {
    /// The HTTP method.
    pub method: String,
    /// Where the request goes.
    pub uri: String,
    /// The value of the `Content-Type` header.
    pub content_type: String,
    /// The value of the `Authorization` header.
    pub authorization: String,
    /// The JSON document.
    pub body: String,
}

/// A push request with its texts as sequences of characters.
pub struct PushRequestView {
    pub method: Seq<char>,
    pub uri: Seq<char>,
    pub content_type: Seq<char>,
    pub authorization: Seq<char>,
    pub body: Seq<char>,
}

impl View for PushRequest {
    type V = PushRequestView;

    open spec fn view(&self) -> PushRequestView {
        PushRequestView {
            method: self.method@,
            uri: self.uri@,
            content_type: self.content_type@,
            authorization: self.authorization@,
            body: self.body@,
        }
    }
}

/// Why no request could be made for a snapshot.
#[derive(Clone, Copy, Debug, PartialEq, Eq, Structural)]
pub enum PushError {
    /// The instant of the snapshot has no RFC 3339 notation.
    TimestampOutOfRange,
    /// The endpoint does not parse as a URI.
    UnparseableEndpoint,
    /// The key holds a character that no header value may hold.
    InvalidApiKey,
}

/// The value of the `Authorization` header for a key.
pub open spec fn bearer(api_key: Seq<char>) -> Seq<char> {
    "Bearer "@ + api_key
}

/// The request that pushes a document to the configured endpoint, given the
/// document, if there is one, and whether the endpoint parses: a POST of
/// the document as JSON, authorized by the key as a bearer token.
pub open spec fn request_for(config: ConfigView, body: Option<Seq<char>>, endpoint_parses: bool)
    -> Result<PushRequestView, PushError> {
    match body {
        None => Err(PushError::TimestampOutOfRange),
        Some(document) => if !endpoint_parses {
            Err(PushError::UnparseableEndpoint)
        } else if !is_header_text(config.api_key) {
            Err(PushError::InvalidApiKey)
        } else {
            Ok(
                PushRequestView {
                    method: "POST"@,
                    uri: config.endpoint,
                    content_type: "application/json"@,
                    authorization: bearer(config.api_key),
                    body: document,
                },
            )
        },
    }
}

/// The views of a result that holds a request.
pub open spec fn request_view(r: Result<PushRequest, PushError>) -> Result<
    PushRequestView,
    PushError,
> {
    match r {
        Ok(request) => Ok(request@),
        Err(e) => Err(e),
    }
}

/// Makes the request that pushes `body` to the endpoint of `config`, given
/// whether that endpoint parses.
pub fn assemble_request(config: &Config, body: Option<String>, endpoint_parses: bool) -> (r: Result<
    PushRequest,
    PushError,
>)
    ensures
        request_view(r) == request_for(config@, text_of(body), endpoint_parses),
{
    match body {
        None => Err(PushError::TimestampOutOfRange),
        Some(document) => {
            if !endpoint_parses {
                Err(PushError::UnparseableEndpoint)
            } else if !check_header_text(config.api_key.as_str()) {
                Err(PushError::InvalidApiKey)
            } else {
                let mut authorization = String::new();
                authorization.append("Bearer ");
                authorization.append(config.api_key.as_str());
                assert(authorization@ =~= bearer(config@.api_key));
                Ok(
                    PushRequest {
                        method: "POST".to_owned(),
                        uri: config.endpoint.clone(),
                        content_type: "application/json".to_owned(),
                        authorization,
                        body: document,
                    },
                )
            }
        },
    }
}

/// The client of the ingestion service for one configuration.
#[derive(Debug)]
pub struct NaaradClient {
    config: Config,
}

impl View for NaaradClient {
    type V = ConfigView;

    closed spec fn view(&self) -> ConfigView {
        self.config@
    }
}

impl NaaradClient {
    /// A client that pushes as `config` says.
    pub fn new(config: Config) -> (client: Self)
        ensures
            client@ == config@,
    {
        NaaradClient { config }
    }

    /// The configuration of the client.
    pub fn config(&self) -> (config: &Config)
        ensures
            config@ == self@,
    {
        &self.config
    }

    /// Makes the request that pushes `snapshot`. No request is made for a
    /// snapshot whose instant cannot be written, for an endpoint that does
    /// not parse, or for a key that no header can carry.
    pub fn request(&self, snapshot: &Snapshot) -> (r: Result<PushRequest, PushError>)
        ensures
            request_view(r) == request_for(
                self@,
                payload_of(snapshot@),
                uri_accepts(self@.endpoint),
            ),
    {
        let body = payload(snapshot);
        let endpoint_parses = parses_as_uri(self.config.endpoint.as_str());
        assemble_request(&self.config, body, endpoint_parses)
    }
}

/// What the answer of the service to a push means.
#[derive(Clone, Copy, Debug, PartialEq, Eq, Structural)]
pub enum PushOutcome {
    /// The service took the snapshot.
    Delivered,
    /// The service answered with a status that is no success.
    Rejected { status: u16 },
}

/// Whether an HTTP status reports success: the statuses from 200 to 299.
pub open spec fn is_success(status: u16) -> bool {
    200 <= status < 300
}

/// Reads the status of the service's answer.
pub fn classify(status: u16) -> (outcome: PushOutcome)
    ensures
        outcome == (if is_success(status) {
            PushOutcome::Delivered
        } else {
            PushOutcome::Rejected { status }
        }),
{
    if 200 <= status && status < 300 {
        PushOutcome::Delivered
    } else {
        PushOutcome::Rejected { status }
    }
}

} // verus!
