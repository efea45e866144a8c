//! The fixed-layout attestation report and its signature verification.
//!
//! The report is a versioned, 1184-byte binary record with an exact field
//! order and explicit reserved regions; every byte, reserved fields
//! included, survives (de)serialization. Its embedded ECDSA P-384 signature
//! covers exactly the first 0x2A0 bytes of the serialized record, hashed
//! with SHA-384: the signature field itself and the trailing reserved block
//! are never hashed.

use crate::crypto::{
    p384_verify, sha384, spec_p384_inputs_ok, spec_p384_sig_valid, spec_sha384,
};
use crate::key::push_bytes;
use crate::records::{GuestPolicy, KeyInfo, PlatformInfo};
use crate::Error;
use vstd::bytes::{
    lemma_auto_spec_u32_to_from_le_bytes, lemma_auto_spec_u64_to_from_le_bytes,
    spec_u32_to_le_bytes, spec_u64_to_le_bytes, u32_from_le_bytes, u32_to_le_bytes,
    u64_from_le_bytes, u64_to_le_bytes,
};
use vstd::prelude::*;
use vstd::slice::slice_subrange;

verus! {

broadcast use vstd::array::group_array_axioms;

/// Copy a slice of exactly `N` bytes into a fresh array.
fn copy_to_array<const N: usize>(src: &[u8]) -> (r: [u8; N])
    requires
        src@.len() == N,
    ensures
        r@ == src@,
{
    let mut r: [u8; N] = [0u8; N];
    let mut i: usize = 0;
    while i < N
        invariant
            i <= N,
            src@.len() == N,
            r@.len() == N,
            forall|j: int| 0 <= j < i ==> r@[j] == src@[j],
        decreases N - i,
    {
        r[i] = src[i];
        i = i + 1;
    }
    proof {
        assert(r@ =~= src@);
    }
    r
}

/// A TCB version: the firmware/microcode version vector, eight bytes on the
/// wire in the order boot loader, TEE, four reserved bytes, SNP, microcode.
#[derive(Copy, Clone, Debug, PartialEq, Eq, PartialOrd, Ord)]
#[verifier::ext_equal]
pub struct TcbVersion {
    /// Current boot loader version.
    pub bootloader: u8,
    /// Current TEE version.
    pub tee: u8,
    /// Reserved, must be zero.
    pub _reserved: [u8; 4],
    /// Current SNP firmware version.
    pub snp: u8,
    /// Lowest current microcode patch level.
    pub microcode: u8,
}

/// Whether every field of a TCB version, the reserved bytes included, is
/// zero.
pub open spec fn spec_tcb_is_zero(t: TcbVersion) -> bool {
    t.bootloader == 0 && t.tee == 0 && t._reserved@ == Seq::new(4, |i: int| 0u8) && t.snp == 0
        && t.microcode == 0
}

/// The eight wire bytes of a TCB version.
pub open spec fn spec_tcb_bytes(t: TcbVersion) -> Seq<u8> {
    seq![t.bootloader, t.tee] + t._reserved@ + seq![t.snp, t.microcode]
}

impl Default for TcbVersion {
    /// The zero TCB version.
    fn default() -> (r: Self)
        ensures
            spec_tcb_is_zero(r),
    {
        let r = TcbVersion { bootloader: 0, tee: 0, _reserved: [0u8; 4], snp: 0, microcode: 0 };
        proof {
            assert(r._reserved@ =~= Seq::new(4, |i: int| 0u8));
        }
        r
    }
}

/// An ECDSA signature as the report carries it: the `r` and `s` components
/// as 72-byte little-endian buffers, then a reserved block, 512 bytes in
/// all. On curve P-384 only the first 48 bytes of each component are
/// significant.
#[derive(Copy, Clone, Debug, PartialEq, Eq, PartialOrd, Ord)]
#[verifier::ext_equal]
pub struct Signature {
    /// The `r` component, little-endian.
    pub r: [u8; 72],
    /// The `s` component, little-endian.
    pub s: [u8; 72],
    /// Reserved, must be zero.
    pub _reserved: [u8; 368],
}

/// The 512 wire bytes of a report signature.
pub open spec fn spec_signature_bytes(s: Signature) -> Seq<u8> {
    s.r@ + s.s@ + s._reserved@
}

impl Default for Signature {
    /// The zero signature: R and S all zero.
    fn default() -> (r: Self)
        ensures
            r.r@ == Seq::new(72, |i: int| 0u8),
            r.s@ == Seq::new(72, |i: int| 0u8),
            r._reserved@ == Seq::new(368, |i: int| 0u8),
    {
        let r = Signature { r: [0u8; 72], s: [0u8; 72], _reserved: [0u8; 368] };
        proof {
            assert(r.r@ =~= Seq::new(72, |i: int| 0u8));
            assert(r.s@ =~= Seq::new(72, |i: int| 0u8));
            assert(r._reserved@ =~= Seq::new(368, |i: int| 0u8));
        }
        r
    }
}

/// Append a TCB version's eight wire bytes.
fn push_tcb(out: &mut Vec<u8>, t: &TcbVersion)
    ensures
        final(out)@ == old(out)@ + spec_tcb_bytes(*t),
{
    out.push(t.bootloader);
    out.push(t.tee);
    push_bytes(out, t._reserved.as_slice());
    out.push(t.snp);
    out.push(t.microcode);
    proof {
        assert(out@ =~= old(out)@ + spec_tcb_bytes(*t));
    }
}

/// Decode a TCB version from its eight wire bytes.
fn tcb_from_bytes(src: &[u8]) -> (r: TcbVersion)
    requires
        src@.len() == 8,
    ensures
        spec_tcb_bytes(r) == src@,
{
    let reserved = copy_to_array::<4>(slice_subrange(src, 2, 6));
    let r = TcbVersion {
        bootloader: *vstd::slice::slice_index_get(src, 0),
        tee: *vstd::slice::slice_index_get(src, 1),
        _reserved: reserved,
        snp: *vstd::slice::slice_index_get(src, 6),
        microcode: *vstd::slice::slice_index_get(src, 7),
    };
    proof {
        assert(spec_tcb_bytes(r) =~= src@);
    }
    r
}

/// An attestation report, as the security processor's firmware constructs
/// and signs it. External entities use it to assure the identity and
/// security configuration of a guest: the firmware fills the fields below,
/// signs the first 0x2A0 bytes of the serialized record with its versioned
/// endorsement key, and places the signature in the tail.
#[derive(Copy, Clone, Debug, PartialEq, Eq, PartialOrd, Ord)]
#[verifier::ext_equal]
pub struct AttestationReport {
    /// Version number of this attestation report.
    pub version: u32,
    /// The guest SVN.
    pub guest_svn: u32,
    /// The guest policy.
    pub policy: GuestPolicy,
    /// The family ID provided at launch.
    pub family_id: [u8; 16],
    /// The image ID provided at launch.
    pub image_id: [u8; 16],
    /// The request VMPL for the attestation report.
    pub vmpl: u32,
    /// The signature algorithm used to sign this report.
    pub sig_algo: u32,
    /// The current TCB version.
    pub current_tcb: TcbVersion,
    /// Information about the platform.
    pub plat_info: PlatformInfo,
    /// Information related to the signing key of the report.
    pub key_info: KeyInfo,
    /// Reserved, must be zero.
    pub _reserved_0: u32,
    /// Guest-provided data.
    pub report_data: [u8; 64],
    /// The measurement calculated at launch.
    pub measurement: [u8; 48],
    /// Data provided by the hypervisor at launch.
    pub host_data: [u8; 32],
    /// SHA-384 digest of the ID public key that signed the ID block.
    pub id_key_digest: [u8; 48],
    /// SHA-384 digest of the author public key that certified the ID key.
    pub author_key_digest: [u8; 48],
    /// Report ID of this guest.
    pub report_id: [u8; 32],
    /// Report ID of this guest's migration agent, if any.
    pub report_id_ma: [u8; 32],
    /// The reported TCB version used to derive the key that signed this
    /// report.
    pub reported_tcb: TcbVersion,
    /// Reserved, must be zero.
    pub _reserved_1: [u8; 24],
    /// The identifier unique to the chip, or all zero when masked.
    pub chip_id: [u8; 64],
    /// The committed TCB version.
    pub committed_tcb: TcbVersion,
    /// The build number of the current firmware version.
    pub current_build: u8,
    /// The minor number of the current firmware version.
    pub current_minor: u8,
    /// The major number of the current firmware version.
    pub current_major: u8,
    /// Reserved, must be zero.
    pub _reserved_2: u8,
    /// The build number of the committed firmware version.
    pub committed_build: u8,
    /// The minor number of the committed firmware version.
    pub committed_minor: u8,
    /// The major number of the committed firmware version.
    pub committed_major: u8,
    /// Reserved, must be zero.
    pub _reserved_3: u8,
    /// The current TCB version at the time the guest was launched or
    /// imported.
    pub launch_tcb: TcbVersion,
    /// Reserved, must be zero.
    pub _reserved_4: [u8; 168],
    /// Signature over bytes 0 through 0x29F inclusive of the serialized
    /// report.
    pub signature: Signature,
}

/// How many bytes of the serialized report the signature covers: everything
/// up to, and excluding, the trailing reserved block and the signature.
pub open spec fn spec_signed_len() -> int {
    0x2a0
}

/// The full 1184-byte wire form of a report: every field in order, in
/// little-endian byte order, reserved regions included.
pub open spec fn spec_report_bytes(r: AttestationReport) -> Seq<u8> {
    spec_u32_to_le_bytes(r.version) + spec_u32_to_le_bytes(r.guest_svn) + spec_u64_to_le_bytes(
        r.policy.0,
    ) + r.family_id@ + r.image_id@ + spec_u32_to_le_bytes(r.vmpl) + spec_u32_to_le_bytes(
        r.sig_algo,
    ) + spec_tcb_bytes(r.current_tcb) + spec_u64_to_le_bytes(r.plat_info.0)
        + spec_u32_to_le_bytes(r.key_info.0) + spec_u32_to_le_bytes(r._reserved_0)
        + r.report_data@ + r.measurement@ + r.host_data@ + r.id_key_digest@
        + r.author_key_digest@ + r.report_id@ + r.report_id_ma@ + spec_tcb_bytes(r.reported_tcb)
        + r._reserved_1@ + r.chip_id@ + spec_tcb_bytes(r.committed_tcb) + seq![
        r.current_build,
        r.current_minor,
        r.current_major,
        r._reserved_2,
        r.committed_build,
        r.committed_minor,
        r.committed_major,
        r._reserved_3,
    ] + spec_tcb_bytes(r.launch_tcb) + r._reserved_4@ + spec_signature_bytes(r.signature)
}

impl Default for AttestationReport {
    /// The zeroed report: every field, reserved regions included, is zero.
    fn default() -> (r: Self)
        ensures
            r.version == 0,
            r.guest_svn == 0,
            r.policy.0 == 0,
            r.family_id@ == Seq::new(16, |i: int| 0u8),
            r.image_id@ == Seq::new(16, |i: int| 0u8),
            r.vmpl == 0,
            r.sig_algo == 0,
            spec_tcb_is_zero(r.current_tcb),
            r.plat_info.0 == 0,
            r.key_info.0 == 0,
            r._reserved_0 == 0,
            r.report_data@ == Seq::new(64, |i: int| 0u8),
            r.measurement@ == Seq::new(48, |i: int| 0u8),
            r.host_data@ == Seq::new(32, |i: int| 0u8),
            r.id_key_digest@ == Seq::new(48, |i: int| 0u8),
            r.author_key_digest@ == Seq::new(48, |i: int| 0u8),
            r.report_id@ == Seq::new(32, |i: int| 0u8),
            r.report_id_ma@ == Seq::new(32, |i: int| 0u8),
            spec_tcb_is_zero(r.reported_tcb),
            r._reserved_1@ == Seq::new(24, |i: int| 0u8),
            r.chip_id@ == Seq::new(64, |i: int| 0u8),
            spec_tcb_is_zero(r.committed_tcb),
            r.current_build == 0,
            r.current_minor == 0,
            r.current_major == 0,
            r._reserved_2 == 0,
            r.committed_build == 0,
            r.committed_minor == 0,
            r.committed_major == 0,
            r._reserved_3 == 0,
            spec_tcb_is_zero(r.launch_tcb),
            r._reserved_4@ == Seq::new(168, |i: int| 0u8),
            r.signature.r@ == Seq::new(72, |i: int| 0u8),
            r.signature.s@ == Seq::new(72, |i: int| 0u8),
            r.signature._reserved@ == Seq::new(368, |i: int| 0u8),
    {
        let r = AttestationReport {
            version: 0,
            guest_svn: 0,
            policy: GuestPolicy(0),
            family_id: [0u8; 16],
            image_id: [0u8; 16],
            vmpl: 0,
            sig_algo: 0,
            current_tcb: TcbVersion::default(),
            plat_info: PlatformInfo(0),
            key_info: KeyInfo(0),
            _reserved_0: 0,
            report_data: [0u8; 64],
            measurement: [0u8; 48],
            host_data: [0u8; 32],
            id_key_digest: [0u8; 48],
            author_key_digest: [0u8; 48],
            report_id: [0u8; 32],
            report_id_ma: [0u8; 32],
            reported_tcb: TcbVersion::default(),
            _reserved_1: [0u8; 24],
            chip_id: [0u8; 64],
            committed_tcb: TcbVersion::default(),
            current_build: 0,
            current_minor: 0,
            current_major: 0,
            _reserved_2: 0,
            committed_build: 0,
            committed_minor: 0,
            committed_major: 0,
            _reserved_3: 0,
            launch_tcb: TcbVersion::default(),
            _reserved_4: [0u8; 168],
            signature: Signature::default(),
        };
        proof {
            assert(r.family_id@ =~= Seq::new(16, |i: int| 0u8));
            assert(r.image_id@ =~= Seq::new(16, |i: int| 0u8));
            assert(r.report_data@ =~= Seq::new(64, |i: int| 0u8));
            assert(r.measurement@ =~= Seq::new(48, |i: int| 0u8));
            assert(r.host_data@ =~= Seq::new(32, |i: int| 0u8));
            assert(r.id_key_digest@ =~= Seq::new(48, |i: int| 0u8));
            assert(r.author_key_digest@ =~= Seq::new(48, |i: int| 0u8));
            assert(r.report_id@ =~= Seq::new(32, |i: int| 0u8));
            assert(r.report_id_ma@ =~= Seq::new(32, |i: int| 0u8));
            assert(r._reserved_1@ =~= Seq::new(24, |i: int| 0u8));
            assert(r.chip_id@ =~= Seq::new(64, |i: int| 0u8));
            assert(r._reserved_4@ =~= Seq::new(168, |i: int| 0u8));
        }
        r
    }
}

impl AttestationReport {
    /// Serialize the report to its canonical fixed-width binary form:
    /// exactly 1184 bytes, every field in order, every byte preserved.
    pub fn to_bytes(&self) -> (r: Vec<u8>)
        ensures
            r@ == spec_report_bytes(*self),
            r@.len() == 1184,
    {
        proof {
            lemma_auto_spec_u32_to_from_le_bytes();
            lemma_auto_spec_u64_to_from_le_bytes();
        }
        let mut out: Vec<u8> = Vec::new();
        let version_bytes = u32_to_le_bytes(self.version);
        push_bytes(&mut out, version_bytes.as_slice());
        proof {
            assert(out@ =~= spec_u32_to_le_bytes(self.version));
        }
        let guest_svn_bytes = u32_to_le_bytes(self.guest_svn);
        push_bytes(&mut out, guest_svn_bytes.as_slice());
        let policy_bytes = u64_to_le_bytes(self.policy.0);
        push_bytes(&mut out, policy_bytes.as_slice());
        push_bytes(&mut out, self.family_id.as_slice());
        push_bytes(&mut out, self.image_id.as_slice());
        let vmpl_bytes = u32_to_le_bytes(self.vmpl);
        push_bytes(&mut out, vmpl_bytes.as_slice());
        let sig_algo_bytes = u32_to_le_bytes(self.sig_algo);
        push_bytes(&mut out, sig_algo_bytes.as_slice());
        push_tcb(&mut out, &self.current_tcb);
        let plat_info_bytes = u64_to_le_bytes(self.plat_info.0);
        push_bytes(&mut out, plat_info_bytes.as_slice());
        let key_info_bytes = u32_to_le_bytes(self.key_info.0);
        push_bytes(&mut out, key_info_bytes.as_slice());
        let reserved_0_bytes = u32_to_le_bytes(self._reserved_0);
        push_bytes(&mut out, reserved_0_bytes.as_slice());
        push_bytes(&mut out, self.report_data.as_slice());
        push_bytes(&mut out, self.measurement.as_slice());
        push_bytes(&mut out, self.host_data.as_slice());
        push_bytes(&mut out, self.id_key_digest.as_slice());
        push_bytes(&mut out, self.author_key_digest.as_slice());
        push_bytes(&mut out, self.report_id.as_slice());
        push_bytes(&mut out, self.report_id_ma.as_slice());
        push_tcb(&mut out, &self.reported_tcb);
        push_bytes(&mut out, self._reserved_1.as_slice());
        push_bytes(&mut out, self.chip_id.as_slice());
        push_tcb(&mut out, &self.committed_tcb);
        out.push(self.current_build);
        out.push(self.current_minor);
        out.push(self.current_major);
        out.push(self._reserved_2);
        out.push(self.committed_build);
        out.push(self.committed_minor);
        out.push(self.committed_major);
        out.push(self._reserved_3);
        push_tcb(&mut out, &self.launch_tcb);
        push_bytes(&mut out, self._reserved_4.as_slice());
        push_bytes(&mut out, self.signature.r.as_slice());
        push_bytes(&mut out, self.signature.s.as_slice());
        push_bytes(&mut out, self.signature._reserved.as_slice());
        proof {
            assert(out@ =~= spec_report_bytes(*self));
        }
        out
    }

    /// Rebuild a report from its canonical binary form. Returns `None`
    /// exactly when the input is not 1184 bytes long; otherwise the
    /// returned report is one whose serialization is the input, byte for
    /// byte, reserved regions included.
    #[verifier::rlimit(30)]
    pub fn from_bytes(bytes: &[u8]) -> (r: Option<AttestationReport>)
        ensures
            bytes@.len() == 1184 ==> (r matches Some(rep) && spec_report_bytes(rep) == bytes@),
            bytes@.len() != 1184 ==> r is None,
    {
        proof {
            lemma_auto_spec_u32_to_from_le_bytes();
            lemma_auto_spec_u64_to_from_le_bytes();
        }
        if bytes.len() != 1184 {
            return None;
        }
        let rep = AttestationReport {
            version: u32_from_le_bytes(slice_subrange(bytes, 0, 4)),
            guest_svn: u32_from_le_bytes(slice_subrange(bytes, 4, 8)),
            policy: GuestPolicy(u64_from_le_bytes(slice_subrange(bytes, 8, 16))),
            family_id: copy_to_array::<16>(slice_subrange(bytes, 16, 32)),
            image_id: copy_to_array::<16>(slice_subrange(bytes, 32, 48)),
            vmpl: u32_from_le_bytes(slice_subrange(bytes, 48, 52)),
            sig_algo: u32_from_le_bytes(slice_subrange(bytes, 52, 56)),
            current_tcb: tcb_from_bytes(slice_subrange(bytes, 56, 64)),
            plat_info: PlatformInfo(u64_from_le_bytes(slice_subrange(bytes, 64, 72))),
            key_info: KeyInfo(u32_from_le_bytes(slice_subrange(bytes, 72, 76))),
            _reserved_0: u32_from_le_bytes(slice_subrange(bytes, 76, 80)),
            report_data: copy_to_array::<64>(slice_subrange(bytes, 80, 144)),
            measurement: copy_to_array::<48>(slice_subrange(bytes, 144, 192)),
            host_data: copy_to_array::<32>(slice_subrange(bytes, 192, 224)),
            id_key_digest: copy_to_array::<48>(slice_subrange(bytes, 224, 272)),
            author_key_digest: copy_to_array::<48>(slice_subrange(bytes, 272, 320)),
            report_id: copy_to_array::<32>(slice_subrange(bytes, 320, 352)),
            report_id_ma: copy_to_array::<32>(slice_subrange(bytes, 352, 384)),
            reported_tcb: tcb_from_bytes(slice_subrange(bytes, 384, 392)),
            _reserved_1: copy_to_array::<24>(slice_subrange(bytes, 392, 416)),
            chip_id: copy_to_array::<64>(slice_subrange(bytes, 416, 480)),
            committed_tcb: tcb_from_bytes(slice_subrange(bytes, 480, 488)),
            current_build: *vstd::slice::slice_index_get(bytes, 488),
            current_minor: *vstd::slice::slice_index_get(bytes, 489),
            current_major: *vstd::slice::slice_index_get(bytes, 490),
            _reserved_2: *vstd::slice::slice_index_get(bytes, 491),
            committed_build: *vstd::slice::slice_index_get(bytes, 492),
            committed_minor: *vstd::slice::slice_index_get(bytes, 493),
            committed_major: *vstd::slice::slice_index_get(bytes, 494),
            _reserved_3: *vstd::slice::slice_index_get(bytes, 495),
            launch_tcb: tcb_from_bytes(slice_subrange(bytes, 496, 504)),
            _reserved_4: copy_to_array::<168>(slice_subrange(bytes, 504, 672)),
            signature: Signature {
                r: copy_to_array::<72>(slice_subrange(bytes, 672, 744)),
                s: copy_to_array::<72>(slice_subrange(bytes, 744, 816)),
                _reserved: copy_to_array::<368>(slice_subrange(bytes, 816, 1184)),
            },
        };
        proof {
            assert(spec_report_bytes(rep) =~= bytes@);
        }
        Some(rep)
    }
}

/// Law: the eight wire bytes determine the TCB version, reserved bytes
/// included.
pub proof fn lemma_tcb_bytes_injective(t1: TcbVersion, t2: TcbVersion)
    requires
        spec_tcb_bytes(t1) == spec_tcb_bytes(t2),
    ensures
        t1 == t2,
{
    let b = spec_tcb_bytes(t1);
    assert(t1._reserved@ =~= b.subrange(2, 6));
    assert(t2._reserved@ =~= b.subrange(2, 6));
    assert(t1._reserved =~= t2._reserved);
    assert(b[0] == t1.bootloader && b[0] == t2.bootloader);
    assert(b[1] == t1.tee && b[1] == t2.tee);
    assert(b[6] == t1.snp && b[6] == t2.snp);
    assert(b[7] == t1.microcode && b[7] == t2.microcode);
    assert(t1 =~= t2);
}

/// Law: the 512 wire bytes determine the signature, reserved bytes
/// included.
pub proof fn lemma_signature_bytes_injective(s1: Signature, s2: Signature)
    requires
        spec_signature_bytes(s1) == spec_signature_bytes(s2),
    ensures
        s1 == s2,
{
    let b = spec_signature_bytes(s1);
    assert(s1.r@ =~= b.subrange(0, 72));
    assert(s2.r@ =~= b.subrange(0, 72));
    assert(s1.s@ =~= b.subrange(72, 144));
    assert(s2.s@ =~= b.subrange(72, 144));
    assert(s1._reserved@ =~= b.subrange(144, 512));
    assert(s2._reserved@ =~= b.subrange(144, 512));
    assert(s1 =~= s2);
}

/// Law: the 1184 wire bytes determine the report: two reports with the same
/// serialization are equal in every field, reserved regions included. With
/// `from_bytes`'s contract this says that deserializing a serialized report
/// gives the report back, every bit preserved.
#[verifier::rlimit(100)]
#[verifier::spinoff_prover]
pub proof fn lemma_report_bytes_injective(r1: AttestationReport, r2: AttestationReport)
    requires
        spec_report_bytes(r1) == spec_report_bytes(r2),
    ensures
        r1 == r2,
{
    lemma_auto_spec_u32_to_from_le_bytes();
    lemma_auto_spec_u64_to_from_le_bytes();
    let b = spec_report_bytes(r1);
    assert(spec_u32_to_le_bytes(r1.version) =~= b.subrange(0, 4));
    assert(spec_u32_to_le_bytes(r2.version) =~= b.subrange(0, 4));
    assert(spec_u32_to_le_bytes(r1.guest_svn) =~= b.subrange(4, 8));
    assert(spec_u32_to_le_bytes(r2.guest_svn) =~= b.subrange(4, 8));
    assert(spec_u64_to_le_bytes(r1.policy.0) =~= b.subrange(8, 16));
    assert(spec_u64_to_le_bytes(r2.policy.0) =~= b.subrange(8, 16));
    assert(r1.family_id@ =~= b.subrange(16, 32));
    assert(r2.family_id@ =~= b.subrange(16, 32));
    assert(r1.image_id@ =~= b.subrange(32, 48));
    assert(r2.image_id@ =~= b.subrange(32, 48));
    assert(spec_u32_to_le_bytes(r1.vmpl) =~= b.subrange(48, 52));
    assert(spec_u32_to_le_bytes(r2.vmpl) =~= b.subrange(48, 52));
    assert(spec_u32_to_le_bytes(r1.sig_algo) =~= b.subrange(52, 56));
    assert(spec_u32_to_le_bytes(r2.sig_algo) =~= b.subrange(52, 56));
    assert(spec_tcb_bytes(r1.current_tcb) =~= b.subrange(56, 64));
    assert(spec_tcb_bytes(r2.current_tcb) =~= b.subrange(56, 64));
    lemma_tcb_bytes_injective(r1.current_tcb, r2.current_tcb);
    assert(spec_u64_to_le_bytes(r1.plat_info.0) =~= b.subrange(64, 72));
    assert(spec_u64_to_le_bytes(r2.plat_info.0) =~= b.subrange(64, 72));
    assert(spec_u32_to_le_bytes(r1.key_info.0) =~= b.subrange(72, 76));
    assert(spec_u32_to_le_bytes(r2.key_info.0) =~= b.subrange(72, 76));
    assert(spec_u32_to_le_bytes(r1._reserved_0) =~= b.subrange(76, 80));
    assert(spec_u32_to_le_bytes(r2._reserved_0) =~= b.subrange(76, 80));
    assert(r1.report_data@ =~= b.subrange(80, 144));
    assert(r2.report_data@ =~= b.subrange(80, 144));
    assert(r1.measurement@ =~= b.subrange(144, 192));
    assert(r2.measurement@ =~= b.subrange(144, 192));
    assert(r1.host_data@ =~= b.subrange(192, 224));
    assert(r2.host_data@ =~= b.subrange(192, 224));
    assert(r1.id_key_digest@ =~= b.subrange(224, 272));
    assert(r2.id_key_digest@ =~= b.subrange(224, 272));
    assert(r1.author_key_digest@ =~= b.subrange(272, 320));
    assert(r2.author_key_digest@ =~= b.subrange(272, 320));
    assert(r1.report_id@ =~= b.subrange(320, 352));
    assert(r2.report_id@ =~= b.subrange(320, 352));
    assert(r1.report_id_ma@ =~= b.subrange(352, 384));
    assert(r2.report_id_ma@ =~= b.subrange(352, 384));
    assert(spec_tcb_bytes(r1.reported_tcb) =~= b.subrange(384, 392));
    assert(spec_tcb_bytes(r2.reported_tcb) =~= b.subrange(384, 392));
    lemma_tcb_bytes_injective(r1.reported_tcb, r2.reported_tcb);
    assert(r1._reserved_1@ =~= b.subrange(392, 416));
    assert(r2._reserved_1@ =~= b.subrange(392, 416));
    assert(r1.chip_id@ =~= b.subrange(416, 480));
    assert(r2.chip_id@ =~= b.subrange(416, 480));
    assert(spec_tcb_bytes(r1.committed_tcb) =~= b.subrange(480, 488));
    assert(spec_tcb_bytes(r2.committed_tcb) =~= b.subrange(480, 488));
    lemma_tcb_bytes_injective(r1.committed_tcb, r2.committed_tcb);
    assert(seq![
        r1.current_build,
        r1.current_minor,
        r1.current_major,
        r1._reserved_2,
        r1.committed_build,
        r1.committed_minor,
        r1.committed_major,
        r1._reserved_3,
    ] =~= b.subrange(488, 496));
    assert(seq![
        r2.current_build,
        r2.current_minor,
        r2.current_major,
        r2._reserved_2,
        r2.committed_build,
        r2.committed_minor,
        r2.committed_major,
        r2._reserved_3,
    ] =~= b.subrange(488, 496));
    assert(spec_tcb_bytes(r1.launch_tcb) =~= b.subrange(496, 504));
    assert(spec_tcb_bytes(r2.launch_tcb) =~= b.subrange(496, 504));
    lemma_tcb_bytes_injective(r1.launch_tcb, r2.launch_tcb);
    assert(r1._reserved_4@ =~= b.subrange(504, 672));
    assert(r2._reserved_4@ =~= b.subrange(504, 672));
    assert(spec_signature_bytes(r1.signature) =~= b.subrange(672, 1184));
    assert(spec_signature_bytes(r2.signature) =~= b.subrange(672, 1184));
    lemma_signature_bytes_injective(r1.signature, r2.signature);
    assert(r1 =~= r2);
}

/// The report's signature in the fixed-width big-endian form that ECDSA
/// verification takes: the first 48 bytes of `r` reversed, then the first
/// 48 bytes of `s` reversed.
pub open spec fn spec_signature_be(s: Signature) -> Seq<u8> {
    Seq::new(48, |i: int| s.r@[47 - i]) + Seq::new(48, |i: int| s.s@[47 - i])
}

/// Convert the report's signature to fixed-width big-endian bytes.
fn signature_be(s: &Signature) -> (out: Vec<u8>)
    ensures
        out@ == spec_signature_be(*s),
        out@.len() == 96,
{
    let mut out: Vec<u8> = Vec::new();
    let mut i: usize = 0;
    while i < 48
        invariant
            i <= 48,
            out@.len() == i,
            forall|j: int| 0 <= j < i ==> out@[j] == s.r@[47 - j],
        decreases 48 - i,
    {
        out.push(s.r[47 - i]);
        i = i + 1;
    }
    let mut i: usize = 0;
    while i < 48
        invariant
            i <= 48,
            out@.len() == 48 + i,
            forall|j: int| 0 <= j < 48 ==> out@[j] == s.r@[47 - j],
            forall|j: int| 48 <= j < 48 + i ==> out@[j] == s.s@[47 - (j - 48)],
        decreases 48 - i,
    {
        out.push(s.s[47 - i]);
        i = i + 1;
    }
    proof {
        assert(out@ =~= spec_signature_be(*s));
    }
    out
}

impl AttestationReport {
    /// Verify the report's embedded ECDSA P-384 signature with the given
    /// verifying key: serialize the report, hash the first 0x2A0 bytes with
    /// SHA-384, and check the signature over that digest. Succeeds exactly
    /// when the key and signature encodings are well formed and the
    /// signature covers the digest; a malformed encoding is rejected as a
    /// crypto error, a sound encoding that does not sign the report as a
    /// verification error.
    ///
    /// The key arrives as SEC1 bytes. Obtaining it from a certificate or a
    /// validated chain is the trust collaborator's business, outside this
    /// library: a chain that fails its own validation never reaches this
    /// call.
    pub fn verify(&self, vek_sec1: &[u8]) -> (r: Result<(), Error>)
        ensures
            r is Ok <==> (spec_p384_inputs_ok(vek_sec1@, spec_signature_be(self.signature))
                && spec_p384_sig_valid(
                vek_sec1@,
                spec_sha384(spec_report_bytes(*self).take(spec_signed_len())),
                spec_signature_be(self.signature),
            )),
            !spec_p384_inputs_ok(vek_sec1@, spec_signature_be(self.signature)) ==> (r matches Err(
                e,
            ) && e == Error::Crypto),
            (spec_p384_inputs_ok(vek_sec1@, spec_signature_be(self.signature))
                && !spec_p384_sig_valid(
                vek_sec1@,
                spec_sha384(spec_report_bytes(*self).take(spec_signed_len())),
                spec_signature_be(self.signature),
            )) ==> (r matches Err(e) && e == Error::Verification),
    {
        let bytes = self.to_bytes();
        let measurable = slice_subrange(bytes.as_slice(), 0, 0x2a0);
        let digest = sha384(measurable);
        let sig = signature_be(&self.signature);
        match p384_verify(vek_sec1, digest.as_slice(), sig.as_slice()) {
            Ok(true) => Ok(()),
            Ok(false) => Err(Error::Verification),
            Err(e) => Err(e),
        }
    }
}

} // verus!
