use sha2::{Digest, Sha256};
use tkspeed::machine::{build, fingerprint, hash_components, HardwareReadings};

/// What sysinfo reports on this machine (NVML is not queried here).
fn readings() -> HardwareReadings {
    let mut sys = sysinfo::System::new();
    sys.refresh_cpu_all();
    sys.refresh_memory();
    HardwareReadings {
        cpu_brand: sys.cpus().first().map(|c| c.brand().to_string()),
        physical_cores: sys.physical_core_count(),
        logical_cpus: sys.cpus().len(),
        gpu_name: None,
        total_memory_bytes: sys.total_memory(),
    }
}

fn base() -> String {
    hash_components("AMD Ryzen 7 5700X", 8, "RTX 4070", 32)
}

#[test]
fn fingerprint_is_64_hex_chars() {
    let fp = hash_components("AMD Ryzen 7 5700X", 8, "RTX 4070", 32);
    assert_eq!(fp.len(), 64, "SHA-256 deve produzir 64 chars hex");
    assert!(fp.chars().all(|c| c.is_ascii_hexdigit()), "deve ser hex válido");
}

#[test]
fn hash_is_deterministic() {
    let a = hash_components("AMD Ryzen 7 5700X", 8, "RTX 4070", 32);
    let b = hash_components("AMD Ryzen 7 5700X", 8, "RTX 4070", 32);
    assert_eq!(a, b, "mesma entrada = mesmo hash");
}

#[test]
fn changing_cpu_changes_hash() {
    let changed = hash_components("Intel Core i9-13900K", 8, "RTX 4070", 32);
    assert_ne!(base(), changed);
}

#[test]
fn changing_cores_changes_hash() {
    let changed = hash_components("AMD Ryzen 7 5700X", 16, "RTX 4070", 32);
    assert_ne!(base(), changed);
}

#[test]
fn changing_gpu_changes_hash() {
    let changed = hash_components("AMD Ryzen 7 5700X", 8, "RTX 3080", 32);
    assert_ne!(base(), changed);
}

#[test]
fn changing_ram_changes_hash() {
    let changed = hash_components("AMD Ryzen 7 5700X", 8, "RTX 4070", 64);
    assert_ne!(base(), changed);
}

#[test]
fn build_cpu_model_non_empty() {
    assert!(!build(&readings()).cpu_model.is_empty(), "cpu_model não deve ser vazio");
}

#[test]
fn build_physical_cores_nonzero() {
    assert!(build(&readings()).physical_cores > 0, "physical_cores deve ser > 0");
}

#[test]
fn build_ram_gb_nonzero() {
    assert!(build(&readings()).ram_gb > 0, "ram_gb deve ser > 0");
}

#[test]
fn build_fingerprint_is_64_chars() {
    assert_eq!(build(&readings()).fingerprint.len(), 64);
}

#[test]
fn no_gpu_differs_from_with_gpu() {
    let with_gpu = hash_components("AMD Ryzen 7 5700X", 8, "RTX 4070", 32);
    let no_gpu = hash_components("AMD Ryzen 7 5700X", 8, "no_gpu", 32);
    assert_ne!(with_gpu, no_gpu);
}

#[test]
fn input_format_uses_colon_separator() {
    let fp_explicit = {
        let input = "AMD Ryzen 7 5700X:8:RTX 4070:32";
        let result = Sha256::digest(input.as_bytes());
        result.iter().map(|b| format!("{b:02x}")).collect::<String>()
    };
    let fp_fn = hash_components("AMD Ryzen 7 5700X", 8, "RTX 4070", 32);
    assert_eq!(fp_explicit, fp_fn, "formato da string de hash deve ser cpu:cores:gpu:ram");
}

#[test]
fn known_digest_of_empty_components() {
    // SHA-256(":0::0")
    let expected = {
        let result = Sha256::digest(":0::0".as_bytes());
        result.iter().map(|b| format!("{b:02x}")).collect::<String>()
    };
    assert_eq!(hash_components("", 0, "", 0), expected);
}

#[test]
fn build_falls_back_when_hardware_is_unknown() {
    let r = HardwareReadings {
        cpu_brand: Some("   ".into()),
        physical_cores: None,
        logical_cpus: 12,
        gpu_name: None,
        total_memory_bytes: 16 * 1024 * 1024 * 1024 + 512 * 1024 * 1024,
    };
    let m = build(&r);
    assert_eq!(m.cpu_model, "unknown_cpu");
    assert_eq!(m.physical_cores, 12);
    assert_eq!(m.primary_gpu, "no_gpu");
    assert_eq!(m.ram_gb, 17, "16.5 GB arredonda para 17");
    assert_eq!(m.fingerprint, hash_components("unknown_cpu", 12, "no_gpu", 17));
    assert_eq!(fingerprint(&r), m.fingerprint);
}

#[test]
fn build_trims_cpu_brand_and_rounds_ram_down() {
    let r = HardwareReadings {
        cpu_brand: Some("  AMD Ryzen 7 5700X 8-Core Processor  ".into()),
        physical_cores: Some(8),
        logical_cpus: 16,
        gpu_name: Some("RTX 4070".into()),
        total_memory_bytes: 32 * 1024 * 1024 * 1024 - 100 * 1024 * 1024,
    };
    let m = build(&r);
    assert_eq!(m.cpu_model, "AMD Ryzen 7 5700X 8-Core Processor");
    assert_eq!(m.physical_cores, 8);
    assert_eq!(m.primary_gpu, "RTX 4070");
    assert_eq!(m.ram_gb, 32);
}

#[test]
fn fingerprint_uses_lowercase_hex_digits() {
    let fp = hash_components("cpu", 4, "gpu", 16);
    assert!(fp.chars().all(|c| matches!(c, '0'..='9' | 'a'..='f')));
    assert_eq!(fp, hash_components("cpu", 4, "gpu", 16));
}
