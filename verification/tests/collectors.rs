use naarad_sentinel::collectors::cpu_temp::{clone_reading, Temperature};
use naarad_sentinel::collectors::device_info::{
    get_device_info, parse_pretty_name, trim, DeviceProbe, Platform,
};
use naarad_sentinel::collectors::disk_free::{get_disk_free_mb, parse_usage_report, DiskReading};

#[test]
fn a_copy_of_a_reading_holds_both_notations() {
    let reading = Temperature { celsius: "42".to_string(), celsius_json: "42.0".to_string() };
    let copy = reading.clone();
    assert_eq!(copy.celsius, "42");
    assert_eq!(copy.celsius_json, "42.0");
    let copy = clone_reading(&Some(reading)).unwrap();
    assert_eq!(copy.celsius, "42");
    assert_eq!(copy.celsius_json, "42.0");
    assert!(clone_reading(&None).is_none());
}

#[test]
fn free_blocks_become_megabytes() {
    let reading = DiskReading::Blocks { free: 26_214_400, size: 4096 };
    assert_eq!(get_disk_free_mb(&reading), Some(102_400));
    let reading = DiskReading::Blocks { free: 255, size: 4096 };
    assert_eq!(get_disk_free_mb(&reading), Some(0));
    let reading = DiskReading::Blocks { free: 256, size: 4096 };
    assert_eq!(get_disk_free_mb(&reading), Some(1));
    let reading = DiskReading::Blocks { free: 0, size: 0 };
    assert_eq!(get_disk_free_mb(&reading), Some(0));
}

#[test]
fn free_blocks_beyond_64_bits() {
    // 2^64 - 1 blocks of 2^20 bytes: the product needs more than 64 bits, the megabytes do not.
    let reading = DiskReading::Blocks { free: u64::MAX, size: 1_048_576 };
    assert_eq!(get_disk_free_mb(&reading), Some(u64::MAX));
    let reading = DiskReading::Blocks { free: u64::MAX, size: 1_048_577 };
    assert_eq!(get_disk_free_mb(&reading), None);
    let reading = DiskReading::Blocks { free: u64::MAX, size: u64::MAX };
    assert_eq!(get_disk_free_mb(&reading), None);
    let reading = DiskReading::Blocks { free: 1 << 40, size: 1 << 40 };
    assert_eq!(get_disk_free_mb(&reading), Some(1 << 60));
}

#[test]
fn free_bytes_become_megabytes() {
    assert_eq!(get_disk_free_mb(&DiskReading::Bytes(107_374_182_400)), Some(102_400));
    assert_eq!(get_disk_free_mb(&DiskReading::Bytes(1_048_575)), Some(0));
    assert_eq!(get_disk_free_mb(&DiskReading::Bytes(u64::MAX)), Some(17_592_186_044_415));
}

#[test]
fn unavailable_disk_leaves_the_metric_absent() {
    assert_eq!(get_disk_free_mb(&DiskReading::Unavailable), None);
}

const DF_OUTPUT: &str = "Filesystem   1M-blocks   Used Available Capacity iused ifree %iused  Mounted on\n/dev/disk3s1s1    471482  10342    102400     10%  404167 1048576000    0%   /\n";

#[test]
fn usage_report_gives_the_fourth_column_of_the_second_line() {
    assert_eq!(parse_usage_report(DF_OUTPUT), Some(102_400));
    assert_eq!(
        get_disk_free_mb(&DiskReading::UsageReport(DF_OUTPUT.to_string())),
        Some(102_400)
    );
    assert_eq!(parse_usage_report("h\r\n a\tb  c +12 e\r\nmore"), Some(12));
    assert_eq!(parse_usage_report("\n1 2 3 4"), Some(4));
    assert_eq!(parse_usage_report("header\n\u{3000}1\u{a0}2\u{2003}3\u{85}40"), Some(40));
}

#[test]
fn usage_report_without_the_number_leaves_the_metric_absent() {
    assert_eq!(parse_usage_report(""), None);
    assert_eq!(parse_usage_report("only a header line 1 2 3"), None);
    assert_eq!(parse_usage_report("header\n"), None);
    assert_eq!(parse_usage_report("header\n1 2 3"), None);
    assert_eq!(parse_usage_report("header\n1 2 3 x"), None);
    assert_eq!(parse_usage_report("header\n1 2 3 -4"), None);
    assert_eq!(parse_usage_report("header\n1 2 3 4.5"), None);
    assert_eq!(parse_usage_report("header\n1 2 3 18446744073709551616"), None);
    assert_eq!(parse_usage_report("header\n1 2 3\n4"), None);
    assert_eq!(
        parse_usage_report("header\n1 2 3 18446744073709551615"),
        Some(u64::MAX)
    );
}

#[test]
fn usage_report_agrees_with_the_standard_library() {
    let texts = [
        DF_OUTPUT,
        "a\nb c d e f\n",
        "a\r\n  1   2\t3\u{b}4\u{c}5",
        "x\n\n1 2 3 4",
        "x\ry\n1 2 3 4",
        "x\n1 2 3 4\r",
        "x\n1 2 3 +0004",
    ];
    for text in texts {
        let expected = text.lines().nth(1).and_then(|line| {
            let cols: Vec<&str> = line.split_whitespace().collect();
            if cols.len() >= 4 {
                cols[3].parse::<u64>().ok()
            } else {
                None
            }
        });
        assert_eq!(parse_usage_report(text), expected);
    }
}

const OS_RELEASE: &str = "NAME=\"Ubuntu\"\nVERSION_ID=\"22.04\"\nPRETTY_NAME=\"Ubuntu 22.04.3 LTS\"\nID=ubuntu\n";

#[test]
fn pretty_name_is_read_from_os_release() {
    assert_eq!(parse_pretty_name(OS_RELEASE), Some("Ubuntu 22.04.3 LTS".to_string()));
    assert_eq!(parse_pretty_name("PRETTY_NAME=Alpine"), Some("Alpine".to_string()));
    assert_eq!(parse_pretty_name("PRETTY_NAME=\"A\"\r\nX=1"), Some("A".to_string()));
    assert_eq!(parse_pretty_name("PRETTY_NAME=\"\"\"A \"b\" c\"\""), Some("A \"b\" c".to_string()));
    assert_eq!(parse_pretty_name("PRETTY_NAME=PRETTY_NAME=x"), Some("x".to_string()));
    assert_eq!(parse_pretty_name("PRETTY_NAME="), Some(String::new()));
    assert_eq!(parse_pretty_name("PRETTY_NAME=\"\"\""), Some(String::new()));
    assert_eq!(
        parse_pretty_name("PRETTY_NAME=\"first\"\nPRETTY_NAME=\"second\""),
        Some("first".to_string())
    );
}

#[test]
fn os_release_without_a_pretty_name() {
    assert_eq!(parse_pretty_name(""), None);
    assert_eq!(parse_pretty_name("NAME=x\nID=y\n"), None);
    assert_eq!(parse_pretty_name(" PRETTY_NAME=x"), None);
    assert_eq!(parse_pretty_name("pretty_name=x"), None);
    assert_eq!(parse_pretty_name("PRETTY_NAME"), None);
}

#[test]
fn pretty_name_agrees_with_the_standard_library() {
    let texts = [
        OS_RELEASE,
        "PRETTY_NAME=\"x\"\r\n",
        "PRETTY_NAME=\"x\"\r",
        "a\n\nPRETTY_NAME=\"\"x\"\"\"",
        "PRETTY_NAME=PRETTY_NAME=PRETTY_NAME",
        "PRETTY_NAMEPRETTY_NAME=",
    ];
    for text in texts {
        let expected = text
            .lines()
            .find(|l| l.starts_with("PRETTY_NAME="))
            .map(|l| l.trim_start_matches("PRETTY_NAME=").trim_matches('"').to_string());
        assert_eq!(parse_pretty_name(text), expected);
    }
}

#[test]
fn trim_agrees_with_the_standard_library() {
    let texts = [
        "",
        " ",
        "a",
        "  a b  ",
        "\t\n\u{b}\u{c}\r x \u{85}\u{a0}\u{1680}",
        "\u{2000}\u{2001}\u{2002}\u{2003}\u{2004}\u{2005}\u{2006}\u{2007}\u{2008}\u{2009}\u{200a}y\u{2028}\u{2029}\u{202f}\u{205f}\u{3000}",
        "\u{200b}z\u{feff}",
        "\u{1c} q \u{1f}",
    ];
    for text in texts {
        assert_eq!(trim(text), text.trim());
    }
}

fn linux_probe() -> DeviceProbe {
    DeviceProbe {
        platform: Platform::Linux,
        os_version_source: Some(OS_RELEASE.to_string()),
        kernel_release: Some("6.1.0-18-amd64".to_string()),
        machine: Some("x86_64".to_string()),
        nodename: Some("host1".to_string()),
    }
}

#[test]
fn device_info_of_a_linux_probe() {
    let info = get_device_info(&linux_probe());
    assert_eq!(info.os_type, "Linux");
    assert_eq!(info.os_version, "Ubuntu 22.04.3 LTS");
    assert_eq!(info.kernel_version, "6.1.0-18-amd64");
    assert_eq!(info.architecture, "x86_64");
    assert_eq!(info.hostname, "host1");
}

#[test]
fn each_missing_field_takes_the_fallback_on_its_own() {
    let mut probe = linux_probe();
    probe.kernel_release = None;
    let info = get_device_info(&probe);
    assert_eq!(info.kernel_version, "Unknown");
    assert_eq!(info.os_version, "Ubuntu 22.04.3 LTS");
    assert_eq!(info.architecture, "x86_64");
    assert_eq!(info.hostname, "host1");

    let mut probe = linux_probe();
    probe.os_version_source = None;
    probe.nodename = None;
    let info = get_device_info(&probe);
    assert_eq!(info.os_version, "Unknown");
    assert_eq!(info.hostname, "Unknown");
    assert_eq!(info.kernel_version, "6.1.0-18-amd64");

    let mut probe = linux_probe();
    probe.os_version_source = Some("ID=x\n".to_string());
    probe.machine = None;
    let info = get_device_info(&probe);
    assert_eq!(info.os_version, "Unknown");
    assert_eq!(info.architecture, "Unknown");
}

#[test]
fn device_info_of_the_other_platforms() {
    let probe = DeviceProbe {
        platform: Platform::MacOs,
        os_version_source: Some("14.4.1\n".to_string()),
        kernel_release: Some("23.4.0".to_string()),
        machine: Some("arm64".to_string()),
        nodename: Some("mac.local".to_string()),
    };
    let info = get_device_info(&probe);
    assert_eq!(info.os_type, "macOS");
    assert_eq!(info.os_version, "14.4.1");

    let probe = DeviceProbe {
        platform: Platform::Windows,
        os_version_source: Some("\r\nMicrosoft Windows [Version 10.0.19045.4291]\r\n".to_string()),
        kernel_release: None,
        machine: None,
        nodename: None,
    };
    let info = get_device_info(&probe);
    assert_eq!(info.os_type, "Windows");
    assert_eq!(info.os_version, "Microsoft Windows [Version 10.0.19045.4291]");
    assert_eq!(info.kernel_version, "Unknown");
    assert_eq!(info.architecture, "Unknown");
    assert_eq!(info.hostname, "Unknown");

    let probe = DeviceProbe {
        platform: Platform::MacOs,
        os_version_source: None,
        kernel_release: None,
        machine: None,
        nodename: None,
    };
    assert_eq!(get_device_info(&probe).os_version, "Unknown");
    let probe = DeviceProbe {
        platform: Platform::Windows,
        os_version_source: Some("  \n".to_string()),
        kernel_release: None,
        machine: None,
        nodename: None,
    };
    assert_eq!(get_device_info(&probe).os_version, "");
}
