//! The identity of the device: operating system, kernel, architecture and
//! host name, each with a fallback where its source gave nothing.

use crate::text::{
    chars_of, find_line, first_line_starting, string_of, strip, strip_leading, stripped, text_of,
    trimmed, without_leading, CharClass,
};
use vstd::prelude::*;

verus! {

/// The static identity of a device.
#[derive(Debug)]
pub struct DeviceInfo {
    pub os_type: String,
    pub os_version: String,
    pub kernel_version: String,
    pub architecture: String,
    pub hostname: String,
}

/// A device identity with its fields as sequences of characters.
pub struct DeviceInfoView {
    pub os_type: Seq<char>,
    pub os_version: Seq<char>,
    pub kernel_version: Seq<char>,
    pub architecture: Seq<char>,
    pub hostname: Seq<char>,
}

impl View for DeviceInfo {
    type V = DeviceInfoView;

    open spec fn view(&self) -> DeviceInfoView {
        DeviceInfoView {
            os_type: self.os_type@,
            os_version: self.os_version@,
            kernel_version: self.kernel_version@,
            architecture: self.architecture@,
            hostname: self.hostname@,
        }
    }
}

impl Clone for DeviceInfo {
    fn clone(&self) -> (r: Self)
        ensures
            r@ == self@,
    {
        DeviceInfo {
            os_type: self.os_type.clone(),
            os_version: self.os_version.clone(),
            kernel_version: self.kernel_version.clone(),
            architecture: self.architecture.clone(),
            hostname: self.hostname.clone(),
        }
    }
}

/// The platforms that the agent knows how to probe.
#[derive(Clone, Copy, Debug, PartialEq, Eq, Structural)]
pub enum Platform {
    Linux,
    MacOs,
    Windows,
}

impl Platform {
    /// The name of the operating system as the device identity shows it.
    pub open spec fn os_type(self) -> Seq<char> {
        match self {
            Platform::Linux => "Linux"@,
            Platform::MacOs => "macOS"@,
            Platform::Windows => "Windows"@,
        }
    }

    /// The name of the operating system as the device identity shows it.
    pub fn os_type_name(self) -> (r: &'static str)
        ensures
            r@ == self.os_type(),
    {
        match self {
            Platform::Linux => "Linux",
            Platform::MacOs => "macOS",
            Platform::Windows => "Windows",
        }
    }
}

/// What was read from the machine about its identity. A field is `None`
/// where its source could not be read.
#[derive(Debug)]
pub struct DeviceProbe {
    pub platform: Platform,
    /// On Linux the text of the os-release file; elsewhere the output of the
    /// platform's version command.
    pub os_version_source: Option<String>,
    /// The release of the kernel.
    pub kernel_release: Option<String>,
    /// The hardware architecture.
    pub machine: Option<String>,
    /// The name of the host on its network.
    pub nodename: Option<String>,
}

/// A probe with its texts as sequences of characters.
pub struct DeviceProbeView {
    pub platform: Platform,
    pub os_version_source: Option<Seq<char>>,
    pub kernel_release: Option<Seq<char>>,
    pub machine: Option<Seq<char>>,
    pub nodename: Option<Seq<char>>,
}

impl View for DeviceProbe {
    type V = DeviceProbeView;

    open spec fn view(&self) -> DeviceProbeView {
        DeviceProbeView {
            platform: self.platform,
            os_version_source: text_of(self.os_version_source),
            kernel_release: text_of(self.kernel_release),
            machine: text_of(self.machine),
            nodename: text_of(self.nodename),
        }
    }
}

/// What stands for a field whose source gave nothing.
pub open spec fn unknown() -> Seq<char> {
    "Unknown"@
}

/// The key that introduces the readable name in an os-release file.
pub open spec fn pretty_name_key() -> Seq<char> {
    "PRETTY_NAME="@
}

/// The readable name of the operating system in the text of an os-release
/// file: of the first line that begins with the key, what follows the key,
/// without the double quotes around it.
pub open spec fn pretty_name(content: Seq<char>) -> Option<Seq<char>> {
    match first_line_starting(content, pretty_name_key()) {
        Some(line) => Some(stripped(without_leading(line, pretty_name_key()), CharClass::Quote)),
        None => None,
    }
}

/// The version of the operating system: on Linux the readable name from the
/// os-release text, elsewhere the command's output without the white space
/// around it; the fallback where there is neither.
pub open spec fn os_version_of(platform: Platform, source: Option<Seq<char>>) -> Seq<char> {
    match source {
        Some(text) => match platform {
            Platform::Linux => match pretty_name(text) {
                Some(name) => name,
                None => unknown(),
            },
            _ => trimmed(text),
        },
        None => unknown(),
    }
}

/// The field's text, or the fallback.
pub open spec fn or_unknown(field: Option<Seq<char>>) -> Seq<char> {
    match field {
        Some(text) => text,
        None => unknown(),
    }
}

/// The identity that a probe amounts to.
pub open spec fn device_info_of(probe: DeviceProbeView) -> DeviceInfoView {
    DeviceInfoView {
        os_type: probe.platform.os_type(),
        os_version: os_version_of(probe.platform, probe.os_version_source),
        kernel_version: or_unknown(probe.kernel_release),
        architecture: or_unknown(probe.machine),
        hostname: or_unknown(probe.nodename),
    }
}

/// Reads the readable name of the operating system from the text of an
/// os-release file.
pub fn parse_pretty_name(content: &str) -> (r: Option<String>)
    ensures
        text_of(r) == pretty_name(content@),
{
    let chars = chars_of(content);
    let key = chars_of("PRETTY_NAME=");
    match find_line(chars.as_slice(), key.as_slice()) {
        Some(line) => {
            let value = strip(strip_leading(line, key.as_slice()), CharClass::Quote);
            Some(string_of(value))
        },
        None => None,
    }
}

/// A copy of `s` without the white space around it.
pub fn trim(s: &str) -> (r: String)
    ensures
        r@ == trimmed(s@),
{
    let chars = chars_of(s);
    string_of(strip(chars.as_slice(), CharClass::Space))
}

/// The field's text, or the fallback.
fn text_or_unknown(field: &Option<String>) -> (r: String)
    ensures
        r@ == or_unknown(text_of(*field)),
{
    match field {
        Some(text) => text.clone(),
        None => "Unknown".to_owned(),
    }
}

/// The identity of the device from what was probed. No field fails the
/// others: each one that could not be read takes the fallback.
pub fn get_device_info(probe: &DeviceProbe) -> (info: DeviceInfo)
    ensures
        info@ == device_info_of(probe@),
{
    let os_version = match probe.platform {
        Platform::Linux => {
            let name = match &probe.os_version_source {
                Some(text) => parse_pretty_name(text.as_str()),
                None => None,
            };
            text_or_unknown(&name)
        },
        _ => match &probe.os_version_source {
            Some(text) => trim(text.as_str()),
            None => "Unknown".to_owned(),
        },
    };
    DeviceInfo {
        os_type: probe.platform.os_type_name().to_owned(),
        os_version,
        kernel_version: text_or_unknown(&probe.kernel_release),
        architecture: text_or_unknown(&probe.machine),
        hostname: text_or_unknown(&probe.nodename),
    }
}

} // verus!
