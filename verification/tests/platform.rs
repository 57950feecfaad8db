use tkspeed::platform::{
    driver_report, extract_guid, find_high_perf_scheme, gpu_vendor, high_perf_score, is_guid,
    is_virtual_adapter, list_schemes, normalize_date, parse_u32, DriverCategory, DriverInfo,
    drivers_from, gpus_from, scheme_listed_in, setactive_failure, DriverValues,
};

#[test]
fn normalize_date_converts_windows_format() {
    assert_eq!(normalize_date("3-15-2024"), "2024-03-15");
    assert_eq!(normalize_date("12-1-2023"), "2023-12-01");
}

#[test]
fn normalize_date_passes_through_unknown_format() {
    assert_eq!(normalize_date("desconhecido"), "desconhecido");
    assert_eq!(normalize_date("2024.03.15"), "2024.03.15");
}

#[test]
fn virtual_adapters_are_filtered() {
    assert!(is_virtual_adapter("WAN Miniport (IP)"));
    assert!(is_virtual_adapter("Microsoft Kernel Debug Network Adapter"));
    assert!(is_virtual_adapter("VirtualBox Host-Only Ethernet Adapter"));
    assert!(!is_virtual_adapter("NVIDIA GeForce RTX 4070"));
    assert!(!is_virtual_adapter("Realtek PCIe GbE Family Controller"));
}

#[test]
fn normalize_date_edges() {
    assert_eq!(normalize_date("  1/2/2020 "), "2020-01-02");
    assert_eq!(normalize_date("13-1-2020"), "13-1-2020");
    assert_eq!(normalize_date("1-32-2020"), "1-32-2020");
    assert_eq!(normalize_date("1-1-1900"), "1-1-1900");
    assert_eq!(normalize_date("+1-1-2020"), "2020-01-01");
    assert_eq!(normalize_date(" x "), "x");
}

#[test]
fn vpn_and_loopback_are_virtual() {
    assert!(is_virtual_adapter("Cisco AnyConnect VPN"));
    assert!(is_virtual_adapter("Npcap Loopback Adapter"));
}

#[test]
fn guid_shape_and_extraction() {
    assert!(is_guid("381b4222-f694-41f0-9685-ff5bb260df2e"));
    assert!(!is_guid("381b4222-f694-41f0-9685-ff5bb260df2"));
    assert!(!is_guid("381b4222xf694-41f0-9685-ff5bb260df2e"));
    assert!(!is_guid("381b4222-f694-41f0-9685-ff5bb260df2g"));
    assert_eq!(
        extract_guid("Power Scheme GUID: 381B4222-F694-41F0-9685-FF5BB260DF2E  (Balanced) *"),
        Some("381b4222-f694-41f0-9685-ff5bb260df2e".to_string())
    );
    assert_eq!(extract_guid("no guid here"), None);
}

#[test]
fn schemes_are_listed_with_names() {
    let text = "Existing Power Schemes (* Active)\r\n-----------------------------------\r\n\
Power Scheme GUID: 381b4222-f694-41f0-9685-ff5bb260df2e  (Balanced) *\r\n\
Power Scheme GUID: 8c5e7fda-e8bf-4a96-9a85-a6e23a8c635c  (High performance)\r\n\
Power Scheme GUID: a1841308-3541-4fab-bc81-f71556f20b4a\r\n";
    let v = list_schemes(text);
    assert_eq!(
        v,
        vec![
            ("381b4222-f694-41f0-9685-ff5bb260df2e".to_string(), "Balanced".to_string()),
            ("8c5e7fda-e8bf-4a96-9a85-a6e23a8c635c".to_string(), "High performance".to_string()),
            ("a1841308-3541-4fab-bc81-f71556f20b4a".to_string(), String::new()),
        ]
    );
}

#[test]
fn high_perf_scores() {
    assert_eq!(high_perf_score("Ultimate Performance"), 3);
    assert_eq!(high_perf_score("Desempenho Máximo"), 3);
    assert_eq!(high_perf_score("High performance"), 2);
    assert_eq!(high_perf_score("Alto desempenho"), 2);
    assert_eq!(high_perf_score("OEM Performance"), 1);
    assert_eq!(high_perf_score("Balanced"), 0);
}

#[test]
fn best_plan_is_highest_and_last_among_equals() {
    let plans = vec![
        ("a".to_string(), "Balanced".to_string()),
        ("b".to_string(), "High performance".to_string()),
        ("c".to_string(), "Power saver".to_string()),
        ("d".to_string(), "Alto desempenho".to_string()),
    ];
    assert_eq!(find_high_perf_scheme(&plans), Some(3));
    let none = vec![("a".to_string(), "Balanced".to_string())];
    assert_eq!(find_high_perf_scheme(&none), None);
    assert_eq!(find_high_perf_scheme(&[]), None);
}

#[test]
fn gpu_vendors() {
    assert_eq!(gpu_vendor("NVIDIA GeForce RTX 4070"), Some("NVIDIA"));
    assert_eq!(gpu_vendor("AMD Radeon RX 7800 XT"), Some("AMD"));
    assert_eq!(gpu_vendor("Radeon Pro"), Some("AMD"));
    assert_eq!(gpu_vendor("Intel(R) UHD Graphics 770"), Some("Intel"));
    assert_eq!(gpu_vendor("Microsoft Basic Display Adapter"), None);
}

#[test]
fn parse_u32_like_str_parse() {
    assert_eq!(parse_u32("42"), Some(42));
    assert_eq!(parse_u32("+7"), Some(7));
    assert_eq!(parse_u32("4294967295"), Some(4294967295));
    assert_eq!(parse_u32("4294967296"), None);
    assert_eq!(parse_u32(""), None);
    assert_eq!(parse_u32("-1"), None);
    assert_eq!(parse_u32("1a"), None);
}

fn driver(category: DriverCategory, name: &str) -> DriverInfo {
    DriverInfo { category, name: name.into(), vendor: None, version: Some("1.0".into()), date: None }
}

#[test]
fn driver_report_groups_by_category_in_order() {
    let found = vec![
        driver(DriverCategory::Network, "Intel Ethernet"),
        driver(DriverCategory::Gpu, "NVIDIA GeForce RTX 4070"),
        driver(DriverCategory::Audio, "Realtek Audio"),
        driver(DriverCategory::Network, "Wi-Fi 6"),
    ];
    let r = driver_report(&found);
    let names = |v: &Vec<tkspeed::bridge::DriverHealthInfo>| v.iter().map(|h| h.name.clone()).collect::<Vec<_>>();
    assert_eq!(names(&r.gpu), vec!["NVIDIA GeForce RTX 4070"]);
    assert_eq!(names(&r.network), vec!["Intel Ethernet", "Wi-Fi 6"]);
    assert_eq!(names(&r.audio), vec!["Realtek Audio"]);
    assert_eq!(r.network[0].category, "network");
    assert_eq!(r.network[0].version, Some("1.0".to_string()));
}

#[test]
fn gpus_are_known_vendors_once() {
    let descs = vec![
        Some("NVIDIA GeForce RTX 4070".to_string()),
        None,
        Some("   ".to_string()),
        Some("Microsoft Basic Display Adapter".to_string()),
        Some("NVIDIA GeForce RTX 4070".to_string()),
        Some("Intel(R) UHD Graphics 770".to_string()),
    ];
    let gpus = gpus_from(&descs);
    let v: Vec<(&str, &str)> = gpus.iter().map(|g| (g.name.as_str(), g.vendor.as_str())).collect();
    assert_eq!(v, vec![("NVIDIA GeForce RTX 4070", "NVIDIA"), ("Intel(R) UHD Graphics 770", "Intel")]);
}

fn row(desc: Option<&str>, provider: Option<&str>, date: Option<&str>) -> DriverValues {
    DriverValues {
        desc: desc.map(String::from),
        provider: provider.map(String::from),
        version: Some(" 31.0.15.5222 ".into()),
        date: date.map(String::from),
    }
}

#[test]
fn drivers_are_trimmed_filtered_and_unique() {
    let rows = vec![
        row(Some(" Realtek PCIe GbE Family Controller "), Some("Realtek"), Some("3-15-2024")),
        row(Some("WAN Miniport (IP)"), None, None),
        row(Some(""), None, None),
        row(Some("Realtek PCIe GbE Family Controller"), None, None),
        row(None, None, None),
        row(Some("Intel(R) Wi-Fi 6 AX201"), Some("  "), Some("desconhecido")),
    ];
    let ds = drivers_from(DriverCategory::Network, &rows);
    assert_eq!(ds.len(), 2);
    assert_eq!(ds[0].name, "Realtek PCIe GbE Family Controller");
    assert_eq!(ds[0].vendor, Some("Realtek".to_string()));
    assert_eq!(ds[0].version, Some("31.0.15.5222".to_string()));
    assert_eq!(ds[0].date, Some("2024-03-15".to_string()));
    assert_eq!(ds[1].name, "Intel(R) Wi-Fi 6 AX201");
    assert_eq!(ds[1].vendor, None);
    assert_eq!(ds[1].date, Some("desconhecido".to_string()));
    assert_eq!(ds[1].category, DriverCategory::Network);
}

#[test]
fn scheme_listing_and_setactive_messages() {
    let out = "Power Scheme GUID: 381B4222-F694-41F0-9685-FF5BB260DF2E  (Balanced) *";
    assert!(scheme_listed_in(out, "381b4222-f694-41f0-9685-ff5bb260df2e"));
    assert!(!scheme_listed_in(out, "8c5e7fda-e8bf-4a96-9a85-a6e23a8c635c"));
    assert_eq!(setactive_failure("  Invalid parameters \n", "ignored", Some(1)), "powercfg /setactive falhou: Invalid parameters");
    assert_eq!(setactive_failure(" ", " out ", Some(1)), "powercfg /setactive falhou: out");
    assert_eq!(setactive_failure("", "", Some(5)), "powercfg /setactive falhou: código 5");
    assert_eq!(setactive_failure("", "", None), "powercfg /setactive falhou: código -1");
    assert_eq!(setactive_failure("", "", Some(-2147483648)), "powercfg /setactive falhou: código -2147483648");
}
