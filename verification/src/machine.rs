//! Stable hardware identity: the machine fingerprint.
//!
//! Built only from the CPU model, the physical core count, the primary GPU and
//! the RAM size in GB; never from serials, MAC addresses, disks or user data.
//! The SHA-256 of `"{cpu_model}:{physical_cores}:{primary_gpu}:{ram_gb}"`
//! ties benchmark sessions and profile activations to the hardware.

use sha2::Digest;
use vstd::prelude::*;

use crate::text::{decimal, hex_fixed, owned, push_decimal, push_hex_fixed, trim, trim_whitespace};

verus! {

/// SHA-256 digest of a byte string.
pub uninterp spec fn sha256(data: Seq<u8>) -> Seq<u8>;

/// SHA-256 of a byte string (`sha2::Sha256::digest`); the digest has 32
/// bytes.
#[verifier::external_body]
fn sha256_digest(data: &[u8]) -> (r: Vec<u8>)
    ensures
        r@ == sha256(data@),
        r@.len() == 32,
{
    sha2::Sha256::digest(data).to_vec()
}

/// Hardware identity of this machine.
#[derive(Debug, Clone)]
pub struct MachineFingerprint {
    /// SHA-256 hex of `"{cpu_model}:{physical_cores}:{primary_gpu}:{ram_gb}"`.
    pub fingerprint: String,
    pub cpu_model: String,
    pub physical_cores: u32,
    pub primary_gpu: String,
    pub ram_gb: u32,
}

/// What the caller read from the hardware.
#[derive(Debug, Clone)]
pub struct HardwareReadings {
    /// Brand string of the first CPU, if any CPU was listed.
    pub cpu_brand: Option<String>,
    /// Physical core count, when the system reports it.
    pub physical_cores: Option<usize>,
    /// Number of logical CPUs listed.
    pub logical_cpus: usize,
    /// Name of the primary GPU, when one answered.
    pub gpu_name: Option<String>,
    /// Total memory in bytes.
    pub total_memory_bytes: u64,
}

/// Lowercase hex of a byte string, two digits per byte.
pub open spec fn hex_bytes(bs: Seq<u8>) -> Seq<char>
    decreases bs.len(),
{
    if bs.len() == 0 {
        Seq::empty()
    } else {
        hex_bytes(bs.drop_last()) + hex_fixed(bs.last() as nat, 2)
    }
}

/// The hashed text of the four components.
pub open spec fn components_text(cpu: Seq<char>, cores: u32, gpu: Seq<char>, ram: u32) -> Seq<char> {
    cpu + ":"@ + decimal(cores as nat) + ":"@ + gpu + ":"@ + decimal(ram as nat)
}

/// The fingerprint of the four components.
pub open spec fn fingerprint_of(cpu: Seq<char>, cores: u32, gpu: Seq<char>, ram: u32) -> Seq<char> {
    hex_bytes(sha256(vstd::utf8::encode_utf8(components_text(cpu, cores, gpu, ram))))
}

/// SHA-256 (lowercase hex) of `"{cpu}:{cores}:{gpu}:{ram}"`.
pub fn hash_components(cpu: &str, cores: u32, gpu: &str, ram: u32) -> (h: String)
    ensures
        h@ == fingerprint_of(cpu@, cores, gpu@, ram),
        h@.len() == 64,
        forall|i: int| 0 <= i < 64 ==> is_hex_digit(#[trigger] h@[i]),
{
    let mut input = owned(cpu);
    input.append(":");
    push_decimal(&mut input, cores as u64);
    input.append(":");
    input.append(gpu);
    input.append(":");
    push_decimal(&mut input, ram as u64);
    let digest = sha256_digest(input.as_str().as_bytes());
    let mut out = String::new();
    let mut i: usize = 0;
    while i < digest.len()
        invariant
            i <= digest@.len(),
            digest@.len() == 32,
            out@ == hex_bytes(digest@.subrange(0, i as int)),
            out@.len() == 2 * i,
        decreases digest@.len() - i,
    {
        push_hex_fixed(&mut out, digest[i] as u64, 2);
        assert(digest@.subrange(0, i + 1).drop_last() =~= digest@.subrange(0, i as int));
        proof {
            lemma_hex_fixed_len(digest@[i as int] as nat, 2);
        }
        i = i + 1;
    }
    assert(digest@.subrange(0, 32) =~= digest@);
    proof {
        lemma_fingerprint_shape(digest@);
    }
    out
}

/// `hex_fixed` has exactly the requested width.
pub proof fn lemma_hex_fixed_len(n: nat, width: nat)
    ensures
        hex_fixed(n, width).len() == width,
    decreases width,
{
    if width > 0 {
        lemma_hex_fixed_len(n / 16, (width - 1) as nat);
    }
}

/// Every character of `hex_fixed` is a lowercase hex digit.
pub proof fn lemma_hex_fixed_digits(n: nat, width: nat)
    ensures
        forall|i: int| 0 <= i < hex_fixed(n, width).len() ==> is_hex_digit(#[trigger] hex_fixed(n, width)[i]),
    decreases width,
{
    if width > 0 {
        lemma_hex_fixed_digits(n / 16, (width - 1) as nat);
        let d = n % 16;
        let prev = hex_fixed(n / 16, (width - 1) as nat);
        let c = crate::text::hex_digit_char(d);
        assert(is_hex_digit(c)) by {
            if d < 10 {
                assert(c == ((d + 48) as u8) as char);
            } else {
                assert(c == ((d + 87) as u8) as char);
            }
        }
        assert(hex_fixed(n, width) == prev.push(c));
        assert forall|i: int| 0 <= i < hex_fixed(n, width).len() implies is_hex_digit(#[trigger] hex_fixed(n, width)[i]) by {
            if i < prev.len() {
                assert(hex_fixed(n, width)[i] == prev[i]);
            }
        }
    }
}

/// Whether `c` is a lowercase hex digit.
pub open spec fn is_hex_digit(c: char) -> bool {
    ('0' <= c && c <= '9') || ('a' <= c && c <= 'f')
}

/// A fingerprint has 64 lowercase hex digits, whatever the components.
pub proof fn lemma_fingerprint_shape(bs: Seq<u8>)
    ensures
        hex_bytes(bs).len() == 2 * bs.len(),
        forall|i: int| 0 <= i < hex_bytes(bs).len() ==> is_hex_digit(#[trigger] hex_bytes(bs)[i]),
    decreases bs.len(),
{
    if bs.len() > 0 {
        lemma_fingerprint_shape(bs.drop_last());
        lemma_hex_fixed_len(bs.last() as nat, 2);
        lemma_hex_fixed_digits(bs.last() as nat, 2);
        let a = hex_bytes(bs.drop_last());
        let b = hex_fixed(bs.last() as nat, 2);
        assert forall|i: int| 0 <= i < hex_bytes(bs).len() implies is_hex_digit(#[trigger] hex_bytes(bs)[i]) by {
            if i < a.len() {
                assert(hex_bytes(bs)[i] == a[i]);
            } else {
                assert(hex_bytes(bs)[i] == b[i - a.len()]);
            }
        }
    }
}

/// Bytes in one GB.
pub const BYTES_PER_GB: u64 = 1073741824;

/// RAM size in whole GB, rounded to nearest (halves round up).
pub open spec fn ram_gb_of(bytes: u64) -> int {
    (bytes + BYTES_PER_GB / 2) / (BYTES_PER_GB as int)
}

/// The CPU model: the trimmed brand, or "unknown_cpu" when absent or blank.
pub open spec fn cpu_model_of(brand: Option<String>) -> Seq<char> {
    match brand {
        Some(b) => if trim_whitespace(b@).len() > 0 {
            trim_whitespace(b@)
        } else {
            "unknown_cpu"@
        },
        None => "unknown_cpu"@,
    }
}

/// The primary GPU: its name, or "no_gpu".
pub open spec fn gpu_of(name: Option<String>) -> Seq<char> {
    match name {
        Some(n) => n@,
        None => "no_gpu"@,
    }
}

/// Builds the fingerprint from the hardware readings. The core count is the
/// physical count when reported, else the logical count.
pub fn build(r: &HardwareReadings) -> (m: MachineFingerprint)
    ensures
        m.cpu_model@ == cpu_model_of(r.cpu_brand),
        m.physical_cores == (match r.physical_cores {
            Some(n) => n,
            None => r.logical_cpus,
        }) as u32,
        m.primary_gpu@ == gpu_of(r.gpu_name),
        m.ram_gb == ram_gb_of(r.total_memory_bytes) as u32,
        m.fingerprint@ == fingerprint_of(m.cpu_model@, m.physical_cores, m.primary_gpu@, m.ram_gb),
        m.fingerprint@.len() == 64,
        forall|i: int| 0 <= i < 64 ==> is_hex_digit(#[trigger] m.fingerprint@[i]),
{
    let cpu_model = match &r.cpu_brand {
        Some(b) => {
            let t = trim(b.as_str());
            if t.unicode_len() > 0 {
                owned(t)
            } else {
                owned("unknown_cpu")
            }
        },
        None => owned("unknown_cpu"),
    };
    let cores: usize = match r.physical_cores {
        Some(n) => n,
        None => r.logical_cpus,
    };
    #[verifier::truncate]
    let physical_cores: u32 = cores as u32;
    let primary_gpu = match &r.gpu_name {
        Some(n) => owned(n.as_str()),
        None => owned("no_gpu"),
    };
    let ram: u64 = r.total_memory_bytes / BYTES_PER_GB + if r.total_memory_bytes % BYTES_PER_GB
        >= BYTES_PER_GB / 2 {
        1
    } else {
        0
    };
    assert(ram == ram_gb_of(r.total_memory_bytes)) by (nonlinear_arith)
        requires
            ram == r.total_memory_bytes / BYTES_PER_GB + if r.total_memory_bytes % BYTES_PER_GB
                >= BYTES_PER_GB / 2 {
                1int
            } else {
                0int
            },
            BYTES_PER_GB == 1073741824,
    ;
    #[verifier::truncate]
    let ram_gb: u32 = ram as u32;
    let fingerprint = hash_components(cpu_model.as_str(), physical_cores, primary_gpu.as_str(), ram_gb);
    MachineFingerprint { fingerprint, cpu_model, physical_cores, primary_gpu, ram_gb }
}

/// The fingerprint (64 hex chars) of the hardware readings.
pub fn fingerprint(r: &HardwareReadings) -> (f: String)
    ensures
        f@ == fingerprint_of(
            cpu_model_of(r.cpu_brand),
            (match r.physical_cores {
                Some(n) => n,
                None => r.logical_cpus,
            }) as u32,
            gpu_of(r.gpu_name),
            ram_gb_of(r.total_memory_bytes) as u32,
        ),
        f@.len() == 64,
        forall|i: int| 0 <= i < 64 ==> is_hex_digit(#[trigger] f@[i]),
{
    build(r).fingerprint
}

} // verus!
