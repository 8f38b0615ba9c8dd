use kazeta_bios::system::{
    cpu_name, get_available_sinks, get_battery_info, get_ip_address, gpu_name, kernel_text, line_value,
    local_time_string, os_name, ram_kb_text, sink_from_captures, timezone_hours, timezone_offset, PowerSupply,
};

#[test]
fn file_values() {
    let os = "NAME=\"Arch\"\nPRETTY_NAME=\"Kazeta OS\"\nID=arch";
    assert_eq!(line_value(os, "PRETTY_NAME="), Some("\"Kazeta OS\"".to_string()));
    assert_eq!(line_value(os, "VERSION="), None);
    assert_eq!(line_value("MemTotal:  16000 kB\n", "MemTotal:"), Some("16000 kB".to_string()));
    assert_eq!(os_name(line_value(os, "PRETTY_NAME=")), "Kazeta OS");
    assert_eq!(os_name(None), "Kazeta+ OS");
}

#[test]
fn cpu_kernel_gpu_ram() {
    let cpuinfo = "processor\t: 0\nmodel name\t: AMD Custom APU 0405\n";
    assert_eq!(cpu_name(line_value(cpuinfo, "model name")), "AMD Custom APU 0405");
    assert_eq!(cpu_name(None), "N/A");
    assert_eq!(kernel_text(Some(" 6.1.0-arch1\n")), "6.1.0-arch1");
    assert_eq!(kernel_text(None), "N/A");
    let lspci = "04:00.0 VGA compatible controller: Advanced Micro Devices, Inc. [AMD/ATI]: Van Gogh \n05:00.0 Display: x";
    assert_eq!(gpu_name(Some(lspci)), "Van Gogh");
    assert_eq!(gpu_name(Some("only: two")), "N/A");
    assert_eq!(gpu_name(None), "N/A");
    assert_eq!(ram_kb_text(Some("16000 kB".to_string())), Some("16000".to_string()));
}

#[test]
fn sinks_section() {
    let out = "Audio\n \u{251c}\u{2500} Devices:\n \u{251c}\u{2500} Sinks:\n \u{2502}  *   47. Built-in Audio Analog Stereo [vol: 0.50]\n \u{2502}      52. Rembrandt Digital Stereo (HDMI 2) [vol: 1.00]\n \u{251c}\u{2500} Sources:\n \u{2502}      60. Mic [vol: 1.00]\n";
    let sinks = get_available_sinks(out);
    assert_eq!(sinks.len(), 2);
    assert_eq!(sinks[0].id, 47);
    assert_eq!(sinks[0].name, "Built-in Audio");
    assert_eq!(sinks[1].id, 52);
    assert_eq!(sinks[1].name, "Rembrandt HDMI");
    assert!(get_available_sinks("no sinks here").is_empty());
}

#[test]
fn sink_from_groups() {
    let g = Some(Some(vec![Some("x".to_string()), Some("*".to_string()), Some("12".to_string()), Some("Speakers".to_string())]));
    let s = sink_from_captures(g).unwrap();
    assert_eq!(s.id, 12);
    assert_eq!(s.name, "Speakers");
    let big = Some(Some(vec![None, None, Some("99999999999".to_string()), Some("X".to_string())]));
    assert!(sink_from_captures(big).is_none());
    assert!(sink_from_captures(Some(None)).is_none());
}

#[test]
fn battery() {
    let supplies = vec![
        PowerSupply { is_dir: true, kind: Some("Mains\n".to_string()), capacity: None, status: None },
        PowerSupply { is_dir: true, kind: Some("Battery\n".to_string()), capacity: Some("87\n".to_string()), status: Some("Charging\n".to_string()) },
    ];
    let b = get_battery_info(&supplies).unwrap();
    assert_eq!(b.percentage, "87");
    assert_eq!(b.status, "Charging");
    let none = vec![PowerSupply { is_dir: false, kind: Some("Battery".to_string()), capacity: Some("1".to_string()), status: Some("Full".to_string()) }];
    assert!(get_battery_info(&none).is_none());
}

#[test]
fn ip_address() {
    let out = "2: wlan0: <UP>\n    inet 192.168.1.5/24 brd 192.168.1.255 scope global wlan0\n";
    assert_eq!(get_ip_address(Some(out)), "192.168.1.5");
    assert_eq!(get_ip_address(Some("nothing")), "N/A");
    assert_eq!(get_ip_address(None), "N/A");
}

#[test]
fn time_zones() {
    assert_eq!(timezone_hours("UTC-4"), -4);
    assert_eq!(timezone_hours("UTC+5"), 5);
    assert_eq!(timezone_hours("UTC"), 0);
    assert_eq!(timezone_hours("garbage"), 0);
    assert_eq!(timezone_offset("UTC+2"), 7200);
    assert_eq!(timezone_offset("UTC+24"), 0);
}

#[test]
fn clock_text() {
    assert_eq!(local_time_string("UTC", 17 * 3600 + 8 * 60).unwrap(), "5:08 PM");
    assert_eq!(local_time_string("UTC-4", 17 * 3600 + 8 * 60).unwrap(), "1:08 PM");
    assert_eq!(local_time_string("UTC+1", 23 * 3600 + 30 * 60).unwrap(), "12:30 AM");
}
