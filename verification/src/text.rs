//! Plain-text renderings of the records and the attestation report.
//!
//! The verifier does not accept `core::fmt::Formatter`, so the types carry
//! no `Display`; these methods build the same text by hand, as ASCII bytes,
//! and hand it out as a `String`.

use crate::records::{GuestPolicy, KeyInfo, PlatformInfo};
use crate::report::{AttestationReport, Signature, TcbVersion};
use crate::key::push_bytes;
use vstd::prelude::*;

verus! {

/// Relies on `String::from_utf8`: a buffer of ASCII bytes converts to the
/// string holding exactly those characters; input that is not UTF-8 yields
/// the empty string instead of an error. Every caller here feeds ASCII.
#[verifier::external_body]
fn string_from_ascii(bytes: Vec<u8>) -> (r: String)
    ensures
        (forall|i: int| 0 <= i < bytes@.len() ==> bytes@[i] < 128) ==> r@ == bytes@.map_values(
            |b: u8| b as char,
        ),
{
    String::from_utf8(bytes).unwrap_or_default()
}

/// Append a text literal's bytes.
fn push_text(out: &mut Vec<u8>, text: &str) {
    push_bytes(out, text.as_bytes());
}

/// Append the decimal digits of `n`.
fn push_dec(out: &mut Vec<u8>, n: u64) {
    let mut m: u64 = n;
    let mut digits: Vec<u8> = Vec::new();
    while m >= 10
        decreases m,
    {
        digits.push(48 + ((m % 10) as u8));
        proof {
            assert(m / 10 < m) by (nonlinear_arith)
                requires
                    m >= 10,
            ;
        }
        m = m / 10;
    }
    digits.push(48 + ((m % 10) as u8));
    let mut i: usize = digits.len();
    while i > 0
        invariant
            i <= digits@.len(),
        decreases i,
    {
        i = i - 1;
        out.push(digits[i]);
    }
}

/// The ASCII digit for a value below sixteen, in lower case.
fn hex_digit(d: u8) -> u8
    requires
        d < 16,
{
    if d < 10 {
        48 + d
    } else {
        87 + d
    }
}

/// Append the hexadecimal digits of `n`, in lower case, without a prefix.
fn push_hex(out: &mut Vec<u8>, n: u64) {
    let mut m: u64 = n;
    let mut digits: Vec<u8> = Vec::new();
    while m >= 16
        decreases m,
    {
        digits.push(hex_digit((m % 16) as u8));
        proof {
            assert(m / 16 < m) by (nonlinear_arith)
                requires
                    m >= 16,
            ;
        }
        m = m / 16;
    }
    digits.push(hex_digit((m % 16) as u8));
    let mut i: usize = digits.len();
    while i > 0
        invariant
            i <= digits@.len(),
        decreases i,
    {
        i = i - 1;
        out.push(digits[i]);
    }
}

/// Append a byte as two lower-case hexadecimal digits.
fn push_hex_byte(out: &mut Vec<u8>, b: u8) {
    out.push(hex_digit(b / 16));
    out.push(hex_digit(b % 16));
}

/// Append a hex dump of `data`: sixteen bytes to a line, each followed by a
/// space, a newline before every line and one after the last.
fn push_hexdump(out: &mut Vec<u8>, data: &[u8]) {
    let mut i: usize = 0;
    while i < data.len()
        invariant
            i <= data@.len(),
        decreases data@.len() - i,
    {
        if i % 16 == 0 {
            out.push(10);
        }
        push_hex_byte(out, *vstd::slice::slice_index_get(data, i));
        out.push(32);
        i = i + 1;
    }
    out.push(10);
}

/// Append "true" or "false".
fn push_bool(out: &mut Vec<u8>, b: bool) {
    if b {
        push_text(out, "true");
    } else {
        push_text(out, "false");
    }
}

/// Append the guest-policy rendering.
fn push_guest_policy(out: &mut Vec<u8>, p: &GuestPolicy) {
    push_text(out, "\n    Guest Policy (0x");
    push_hex(out, p.0);
    push_text(out, "):\n    ABI Major:     ");
    push_dec(out, p.abi_major());
    push_text(out, "\n    ABI Minor:     ");
    push_dec(out, p.abi_minor());
    push_text(out, "\n    SMT Allowed:   ");
    push_dec(out, p.smt_allowed());
    push_text(out, "\n    Migrate MA:    ");
    push_dec(out, p.migrate_ma_allowed());
    push_text(out, "\n    Debug Allowed: ");
    push_dec(out, p.debug_allowed());
    push_text(out, "\n    Single Socket: ");
    push_dec(out, p.single_socket_required());
}

/// Append the platform-information rendering.
fn push_platform_info(out: &mut Vec<u8>, p: &PlatformInfo) {
    push_text(out, "\nPlatform Info (");
    push_dec(out, p.0);
    push_text(out, "):\n  SMT Enabled:               ");
    push_dec(out, p.smt_enabled());
    push_text(out, "\n  TSME Enabled:              ");
    push_dec(out, p.tsme_enabled());
    push_text(out, "\n  ECC Enabled:               ");
    push_dec(out, p.ecc_enabled());
    push_text(out, "\n  RAPL Disabled:             ");
    push_dec(out, p.rapl_disabled());
    push_text(out, "\n  Ciphertext Hiding Enabled: ");
    push_dec(out, p.ciphertext_hiding_enabled());
    push_text(out, "\n");
}

/// Append the key-information rendering.
fn push_key_info(out: &mut Vec<u8>, k: &KeyInfo) {
    push_text(out, "\nKey Information:\n    author key enabled: ");
    push_bool(out, k.author_key_en());
    push_text(out, "\n    mask chip key:      ");
    push_dec(out, k.mask_chip_key() as u64);
    push_text(out, "\n    signing key:        ");
    let signing_key = k.signing_key();
    if signing_key == 0 {
        push_text(out, "vcek");
    } else if signing_key == 1 {
        push_text(out, "vlek");
    } else if signing_key == 7 {
        push_text(out, "none");
    } else {
        push_text(out, "unkown");
    }
    push_text(out, "\n");
}

/// Append the TCB-version rendering.
fn push_tcb_text(out: &mut Vec<u8>, t: &TcbVersion) {
    push_text(out, "\nTCB Version:\n  Microcode:   ");
    push_dec(out, t.microcode as u64);
    push_text(out, "\n  SNP:         ");
    push_dec(out, t.snp as u64);
    push_text(out, "\n  TEE:         ");
    push_dec(out, t.tee as u64);
    push_text(out, "\n  Boot Loader: ");
    push_dec(out, t.bootloader as u64);
    push_text(out, "\n  ");
}

/// Append the signature rendering.
fn push_signature_text(out: &mut Vec<u8>, s: &Signature) {
    push_text(out, "\nSignature:\n  R: ");
    push_hexdump(out, s.r.as_slice());
    push_text(out, "\n  S: ");
    push_hexdump(out, s.s.as_slice());
    push_text(out, "\n            ");
}

impl GuestPolicy {
    /// The policy rendered as text, field by field.
    pub fn display_string(&self) -> String {
        let mut out: Vec<u8> = Vec::new();
        push_guest_policy(&mut out, self);
        string_from_ascii(out)
    }
}

impl PlatformInfo {
    /// The platform information rendered as text, field by field.
    pub fn display_string(&self) -> String {
        let mut out: Vec<u8> = Vec::new();
        push_platform_info(&mut out, self);
        string_from_ascii(out)
    }
}

impl KeyInfo {
    /// The key information rendered as text, with the signing key named.
    pub fn display_string(&self) -> String {
        let mut out: Vec<u8> = Vec::new();
        push_key_info(&mut out, self);
        string_from_ascii(out)
    }
}

impl AttestationReport {
    /// The whole report rendered as text: every named field, with byte
    /// buffers hex-dumped sixteen to a line.
    pub fn display_string(&self) -> String {
        let mut out: Vec<u8> = Vec::new();
        push_text(&mut out, "\nAttestation Report (");
        let bytes = self.to_bytes();
        push_dec(&mut out, bytes.len() as u64);
        push_text(&mut out, " bytes):\nVersion:                      ");
        push_dec(&mut out, self.version as u64);
        push_text(&mut out, "\nGuest SVN:                    ");
        push_dec(&mut out, self.guest_svn as u64);
        push_text(&mut out, "\n");
        push_guest_policy(&mut out, &self.policy);
        push_text(&mut out, "\nFamily ID:                    ");
        push_hexdump(&mut out, self.family_id.as_slice());
        push_text(&mut out, "\nImage ID:                     ");
        push_hexdump(&mut out, self.image_id.as_slice());
        push_text(&mut out, "\nVMPL:                         ");
        push_dec(&mut out, self.vmpl as u64);
        push_text(&mut out, "\nSignature Algorithm:          ");
        push_dec(&mut out, self.sig_algo as u64);
        push_text(&mut out, "\nCurrent TCB:\n");
        push_tcb_text(&mut out, &self.current_tcb);
        push_text(&mut out, "\n");
        push_platform_info(&mut out, &self.plat_info);
        push_text(&mut out, "\n");
        push_key_info(&mut out, &self.key_info);
        push_text(&mut out, "\nReport Data:                  ");
        push_hexdump(&mut out, self.report_data.as_slice());
        push_text(&mut out, "\nMeasurement:                  ");
        push_hexdump(&mut out, self.measurement.as_slice());
        push_text(&mut out, "\nHost Data:                    ");
        push_hexdump(&mut out, self.host_data.as_slice());
        push_text(&mut out, "\nID Key Digest:                ");
        push_hexdump(&mut out, self.id_key_digest.as_slice());
        push_text(&mut out, "\nAuthor Key Digest:            ");
        push_hexdump(&mut out, self.author_key_digest.as_slice());
        push_text(&mut out, "\nReport ID:                    ");
        push_hexdump(&mut out, self.report_id.as_slice());
        push_text(&mut out, "\nReport ID Migration Agent:    ");
        push_hexdump(&mut out, self.report_id_ma.as_slice());
        push_text(&mut out, "\nReported TCB:                 ");
        push_tcb_text(&mut out, &self.reported_tcb);
        push_text(&mut out, "\nChip ID:                      ");
        push_hexdump(&mut out, self.chip_id.as_slice());
        push_text(&mut out, "\nCommitted TCB:\n");
        push_tcb_text(&mut out, &self.committed_tcb);
        push_text(&mut out, "\nCurrent Build:                ");
        push_dec(&mut out, self.current_build as u64);
        push_text(&mut out, "\nCurrent Minor:                ");
        push_dec(&mut out, self.current_minor as u64);
        push_text(&mut out, "\nCurrent Major:                ");
        push_dec(&mut out, self.current_major as u64);
        push_text(&mut out, "\nCommitted Build:              ");
        push_dec(&mut out, self.committed_build as u64);
        push_text(&mut out, "\nCommitted Minor:              ");
        push_dec(&mut out, self.committed_minor as u64);
        push_text(&mut out, "\nCommitted Major:              ");
        push_dec(&mut out, self.committed_major as u64);
        push_text(&mut out, "\nLaunch TCB:\n");
        push_tcb_text(&mut out, &self.launch_tcb);
        push_text(&mut out, "\n");
        push_signature_text(&mut out, &self.signature);
        push_text(&mut out, "\n");
        string_from_ascii(out)
    }
}

} // verus!
