use sysinfo_cli::banner::{render_banner, BANNER_FONT_PATH, BANNER_TITLE};
use sysinfo_cli::cpu::{render_cpu, CpuError, CpuSnapshot};
use sysinfo_cli::disk::{render_disks, DiskInfo};
use sysinfo_cli::memory::{render_memory, MemorySnapshot};
use sysinfo_cli::network::{render_networks, InterfaceInfo};
use sysinfo_cli::section::{section_header, Section};
use sysinfo_cli::style::{Color, Palette};
use sysinfo_cli::system::{render_system, SystemSnapshot};

fn plain_palette() -> Palette {
    Palette {
        yellow: String::new(),
        cyan: String::new(),
        green: String::new(),
        magenta: String::new(),
        blue: String::new(),
        red: String::new(),
        bold: String::new(),
        reset: String::new(),
    }
}

fn ansi_palette() -> Palette {
    Palette {
        yellow: "\x1b[38;5;3m".to_string(),
        cyan: "\x1b[38;5;6m".to_string(),
        green: "\x1b[38;5;2m".to_string(),
        magenta: "\x1b[38;5;5m".to_string(),
        blue: "\x1b[38;5;4m".to_string(),
        red: "\x1b[38;5;1m".to_string(),
        bold: "\x1b[1m".to_string(),
        reset: "\x1b[m".to_string(),
    }
}

fn host(name: Option<&str>, version: Option<&str>, kernel: Option<&str>) -> SystemSnapshot {
    SystemSnapshot {
        os_name: name.map(|s| s.to_string()),
        os_version: version.map(|s| s.to_string()),
        kernel_version: kernel.map(|s| s.to_string()),
        arch: "x86_64".to_string(),
        uptime: 3725,
    }
}

fn body_of(text: &str, section: Section) -> String {
    let header = section_header(section, &plain_palette());
    text.strip_prefix(header.as_str()).unwrap().to_string()
}

#[test]
fn system_section_in_full() {
    let snapshot = host(Some("Ubuntu"), Some("22.04"), Some("5.15.0-91-generic"));
    assert_eq!(
        render_system(&snapshot, &ansi_palette()),
        "\n\n\x1b[38;5;6m\n==========================\n    System Information    \n==========================\n\x1b[m\nOperating System: Ubuntu 22.04\nKernel Version: 5.15.0-91-generic\nArchitecture: x86_64\nUptime: 1 hours, 2 minutes, 5 seconds\n"
    );
}

#[test]
fn system_section_without_a_name() {
    let text = render_system(&host(None, Some("10.0"), Some("19045")), &plain_palette());
    assert_eq!(
        body_of(&text, Section::System),
        "Operating System: Unknown 10.0\nKernel Version: 19045\nArchitecture: x86_64\nUptime: 1 hours, 2 minutes, 5 seconds\n"
    );
}

#[test]
fn system_section_without_a_version() {
    let text = render_system(&host(Some("Windows"), None, Some("19045")), &plain_palette());
    assert!(body_of(&text, Section::System).starts_with("Operating System: Windows Unknown\n"));
}

#[test]
fn system_section_without_name_version_and_kernel() {
    let text = render_system(&host(None, None, None), &plain_palette());
    assert_eq!(
        body_of(&text, Section::System),
        "Operating System: Unknown Unknown\nKernel Version: Unknown\nArchitecture: x86_64\nUptime: 1 hours, 2 minutes, 5 seconds\n"
    );
}

#[test]
fn system_section_with_a_long_uptime() {
    let mut snapshot = host(Some("Linux"), Some("6"), Some("6.1"));
    snapshot.uptime = 360_000;
    let text = render_system(&snapshot, &plain_palette());
    assert!(text.ends_with("Uptime: 100 hours, 0 minutes, 0 seconds\n"));
    snapshot.uptime = 0;
    let text = render_system(&snapshot, &plain_palette());
    assert!(text.ends_with("Uptime: 0 hours, 0 minutes, 0 seconds\n"));
}

#[test]
fn cpu_section_in_full() {
    let snapshot = CpuSnapshot {
        brand: "AMD Ryzen 7 5800X 8-Core Processor".to_string(),
        cores: 8,
        usage_tenths: 125,
    };
    assert_eq!(
        render_cpu(&snapshot, &ansi_palette()),
        "\n\n\x1b[38;5;2m\n==========================\n     CPU Information      \n==========================\n\x1b[m\nCPU Model: AMD Ryzen 7 5800X 8-Core Processor\nCores: 8\nCPU Usage: 12.5%\n"
    );
}

#[test]
fn cpu_usage_has_one_decimal_place() {
    let mut snapshot = CpuSnapshot { brand: "cpu".to_string(), cores: 1, usage_tenths: 0 };
    assert!(render_cpu(&snapshot, &plain_palette()).ends_with("CPU Usage: 0.0%\n"));
    snapshot.usage_tenths = 7;
    assert!(render_cpu(&snapshot, &plain_palette()).ends_with("CPU Usage: 0.7%\n"));
    snapshot.usage_tenths = 1000;
    assert!(render_cpu(&snapshot, &plain_palette()).ends_with("CPU Usage: 100.0%\n"));
}

#[test]
fn cpu_snapshot_takes_the_first_brand() {
    let brands = vec!["first".to_string(), "second".to_string()];
    let snapshot = CpuSnapshot::from_readings(&brands, Some(4), 31).unwrap();
    assert_eq!(snapshot.brand, "first");
    assert_eq!(snapshot.cores, 4);
    assert_eq!(snapshot.usage_tenths, 31);
}

#[test]
fn cpu_snapshot_needs_a_cpu() {
    let brands: Vec<String> = Vec::new();
    assert_eq!(CpuSnapshot::from_readings(&brands, Some(4), 31).err(), Some(CpuError::NoCpu));
    assert_eq!(CpuSnapshot::from_readings(&brands, None, 31).err(), Some(CpuError::NoCpu));
}

#[test]
fn cpu_snapshot_needs_a_core_count() {
    let brands = vec!["first".to_string()];
    assert_eq!(CpuSnapshot::from_readings(&brands, None, 31).err(), Some(CpuError::NoCoreCount));
}

#[test]
fn memory_section_in_full() {
    let snapshot = MemorySnapshot {
        total: 16 * 1024 * 1024 * 1024,
        used: 6_012_954_214,
        free: 1_073_741_824,
    };
    assert_eq!(
        render_memory(&snapshot, &ansi_palette()),
        "\n\n\x1b[38;5;5m\n==========================\n    Memory Information    \n==========================\n\x1b[m\nTotal Memory: 16.0 GB\nUsed Memory: 5.6 GB\nFree Memory: 1.0 GB\n"
    );
}

#[test]
fn memory_section_agrees_with_floating_point_division() {
    let snapshot = MemorySnapshot { total: 33_554_432_000, used: 12_345_678_901, free: 987_654 };
    let gb = |bytes: u64| bytes as f64 / 1024.0 / 1024.0 / 1024.0;
    let expected = format!(
        "Total Memory: {:.1} GB\nUsed Memory: {:.1} GB\nFree Memory: {:.1} GB\n",
        gb(snapshot.total),
        gb(snapshot.used),
        gb(snapshot.free)
    );
    assert_eq!(body_of(&render_memory(&snapshot, &plain_palette()), Section::Memory), expected);
}

#[test]
fn disk_section_without_disks_is_the_header() {
    let disks: Vec<DiskInfo> = Vec::new();
    assert_eq!(render_disks(&disks, &ansi_palette()), section_header(Section::Disk, &ansi_palette()));
    assert_eq!(
        render_disks(&disks, &ansi_palette()),
        "\n\n\x1b[38;5;4m\n==========================\n     Disk Information     \n==========================\n\x1b[m\n"
    );
}

#[test]
fn disk_section_lists_disks_in_order() {
    let disks = vec![
        DiskInfo {
            mount_point: "/".to_string(),
            total_space: 500_107_862_016,
            available_space: 123_456_789_012,
        },
        DiskInfo {
            mount_point: "/boot/efi".to_string(),
            total_space: 536_870_912,
            available_space: 530_579_456,
        },
    ];
    assert_eq!(
        body_of(&render_disks(&disks, &plain_palette()), Section::Disk),
        "\n/: 465.8 GB total, 115.0 GB free\n\n/boot/efi: 0.5 GB total, 0.5 GB free\n"
    );
}

#[test]
fn network_section_without_interfaces_is_the_header() {
    let interfaces: Vec<InterfaceInfo> = Vec::new();
    assert_eq!(
        render_networks(&interfaces, &ansi_palette()),
        "\n\n\x1b[38;5;1m\n==========================\n   Network Information    \n==========================\n\x1b[m\n"
    );
}

#[test]
fn network_section_lists_interfaces_and_addresses_in_order() {
    let interfaces = vec![
        InterfaceInfo {
            name: "lo".to_string(),
            ip_networks: vec!["127.0.0.1/8".to_string(), "::1/128".to_string()],
            mac_address: [0, 0, 0, 0, 0, 0],
        },
        InterfaceInfo {
            name: "eth0".to_string(),
            ip_networks: vec![],
            mac_address: [0x02, 0x42, 0xAC, 0x11, 0x00, 0xFF],
        },
    ];
    assert_eq!(
        body_of(&render_networks(&interfaces, &plain_palette()), Section::Network),
        "\nInterface: lo\nIP Network: 127.0.0.1/8\nIP Network: ::1/128\nMAC Address: 00:00:00:00:00:00\n\nInterface: eth0\nMAC Address: 02:42:ac:11:00:ff\n"
    );
}

#[test]
fn mac_address_is_lower_case_hexadecimal() {
    let interfaces = vec![InterfaceInfo {
        name: "wlan0".to_string(),
        ip_networks: vec![],
        mac_address: [0x0A, 0x1B, 0x2C, 0x3D, 0x9E, 0xF0],
    }];
    let text = render_networks(&interfaces, &plain_palette());
    assert!(text.ends_with("MAC Address: 0a:1b:2c:3d:9e:f0\n"));
}

#[test]
fn banner_frames_the_figure() {
    assert_eq!(
        render_banner("##\n##\n", &ansi_palette()),
        "\x1b[38;5;3m\n\x1b[1m\n##\n##\n\n\x1b[m\n"
    );
    assert_eq!(render_banner("", &plain_palette()), "\n\n\n\n");
}

#[test]
fn banner_title_and_font() {
    assert_eq!(BANNER_TITLE, "SysInfo CLI");
    assert_eq!(BANNER_FONT_PATH, "resources/larry3d.flf");
}

#[test]
fn terminal_palette_holds_the_styles() {
    let palette = Palette::from_terminal();
    assert_eq!(palette.bold, "\x1b[1m");
    assert_eq!(palette.reset, "\x1b[m");
}

#[test]
fn terminal_palette_holds_each_colour_or_nothing() {
    let palette = Palette::from_terminal();
    let expected = ansi_palette();
    let colors =
        vec![Color::Yellow, Color::Cyan, Color::Green, Color::Magenta, Color::Blue, Color::Red];
    for color in colors {
        let got = palette.color(color);
        assert!(got == expected.color(color) || got.is_empty(), "{:?}", color);
    }
}

#[test]
fn terminal_palette_agrees_with_the_terminal_library() {
    let palette = Palette::from_terminal();
    assert_eq!(palette.yellow, format!("{}", termion::color::Fg(termion::color::Yellow)));
    assert_eq!(palette.cyan, format!("{}", termion::color::Fg(termion::color::Cyan)));
    assert_eq!(palette.green, format!("{}", termion::color::Fg(termion::color::Green)));
    assert_eq!(palette.magenta, format!("{}", termion::color::Fg(termion::color::Magenta)));
    assert_eq!(palette.blue, format!("{}", termion::color::Fg(termion::color::Blue)));
    assert_eq!(palette.red, format!("{}", termion::color::Fg(termion::color::Red)));
    assert_eq!(palette.bold, format!("{}", termion::style::Bold));
    assert_eq!(palette.reset, format!("{}", termion::style::Reset));
}

#[test]
fn palette_gives_each_colour_its_own_text() {
    let palette = ansi_palette();
    assert_eq!(palette.color(Color::Yellow), "\x1b[38;5;3m");
    assert_eq!(palette.color(Color::Cyan), "\x1b[38;5;6m");
    assert_eq!(palette.color(Color::Green), "\x1b[38;5;2m");
    assert_eq!(palette.color(Color::Magenta), "\x1b[38;5;5m");
    assert_eq!(palette.color(Color::Blue), "\x1b[38;5;4m");
    assert_eq!(palette.color(Color::Red), "\x1b[38;5;1m");
}
