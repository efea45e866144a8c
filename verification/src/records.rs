//! Bit-packed configuration and metadata records.
//!
//! Each record is a single unsigned integer with named, non-overlapping bit
//! ranges. Accessors read or write only their assigned bits; reserved bits are
//! preserved verbatim through every read-modify-write. Records serialize as
//! the little-endian bytes of the raw integer, reserved bits included.

use vstd::prelude::*;
use vstd::bytes::{
    lemma_auto_spec_u32_to_from_le_bytes, lemma_auto_spec_u64_to_from_le_bytes,
    spec_u32_from_le_bytes, spec_u32_to_le_bytes, spec_u64_from_le_bytes, spec_u64_to_le_bytes,
    u32_from_le_bytes, u32_to_le_bytes, u64_from_le_bytes, u64_to_le_bytes,
};

verus! {

/// Data which will be mixed into a hardware-derived key.
///
/// Bit 0: guest policy; bit 1: image ID; bit 2: family ID; bit 3: launch
/// measurement; bit 4: guest SVN; bit 5: TCB version. Bits 63:6 are reserved
/// and must be zero.
#[derive(Copy, Clone, Debug, PartialEq, Eq, PartialOrd, Ord, Structural)]
pub struct GuestFieldSelect(pub u64);

impl GuestFieldSelect {
    /// Whether the guest policy is mixed into the derived key.
    pub fn get_guest_policy(&self) -> (r: u64)
        ensures
            r == self.0 & 1,
    {
        self.0 & 1
    }

    /// Select or deselect the guest policy, leaving every other bit unchanged.
    pub fn set_guest_policy(&mut self, value: u64)
        ensures
            final(self).0 == (old(self).0 & !1u64) | (value & 1),
            final(self).0 & !1u64 == old(self).0 & !1u64,
            final(self).0 & 1 == value & 1,
    {
        self.0 = (self.0 & !1u64) | (value & 1);
        proof {
            let r: u64 = old(self).0;
            assert(((r & !1u64) | (value & 1)) & !1u64 == r & !1u64 && ((r & !1u64) | (value & 1)) & 1 == value & 1) by (bit_vector);
        }
    }

    /// Whether the image ID is mixed into the derived key.
    pub fn get_image_id(&self) -> (r: u64)
        ensures
            r == (self.0 >> 1) & 1,
    {
        (self.0 >> 1) & 1
    }

    /// Select or deselect the image ID, leaving every other bit unchanged.
    pub fn set_image_id(&mut self, value: u64)
        ensures
            final(self).0 == (old(self).0 & !2u64) | ((value & 1) << 1),
            final(self).0 & !2u64 == old(self).0 & !2u64,
            (final(self).0 >> 1) & 1 == value & 1,
    {
        self.0 = (self.0 & !2u64) | ((value & 1) << 1);
        proof {
            let r: u64 = old(self).0;
            assert(((r & !2u64) | ((value & 1) << 1)) & !2u64 == r & !2u64 && (((r & !2u64) | ((value & 1) << 1)) >> 1) & 1 == value & 1) by (bit_vector);
        }
    }

    /// Whether the family ID is mixed into the derived key.
    pub fn get_family_id(&self) -> (r: u64)
        ensures
            r == (self.0 >> 2) & 1,
    {
        (self.0 >> 2) & 1
    }

    /// Select or deselect the family ID, leaving every other bit unchanged.
    pub fn set_family_id(&mut self, value: u64)
        ensures
            final(self).0 == (old(self).0 & !4u64) | ((value & 1) << 2),
            final(self).0 & !4u64 == old(self).0 & !4u64,
            (final(self).0 >> 2) & 1 == value & 1,
    {
        self.0 = (self.0 & !4u64) | ((value & 1) << 2);
        proof {
            let r: u64 = old(self).0;
            assert(((r & !4u64) | ((value & 1) << 2)) & !4u64 == r & !4u64 && (((r & !4u64) | ((value & 1) << 2)) >> 2) & 1 == value & 1) by (bit_vector);
        }
    }

    /// Whether the launch measurement is mixed into the derived key.
    pub fn get_measurement(&self) -> (r: u64)
        ensures
            r == (self.0 >> 3) & 1,
    {
        (self.0 >> 3) & 1
    }

    /// Select or deselect the measurement, leaving every other bit unchanged.
    pub fn set_measurement(&mut self, value: u64)
        ensures
            final(self).0 == (old(self).0 & !8u64) | ((value & 1) << 3),
            final(self).0 & !8u64 == old(self).0 & !8u64,
            (final(self).0 >> 3) & 1 == value & 1,
    {
        self.0 = (self.0 & !8u64) | ((value & 1) << 3);
        proof {
            let r: u64 = old(self).0;
            assert(((r & !8u64) | ((value & 1) << 3)) & !8u64 == r & !8u64 && (((r & !8u64) | ((value & 1) << 3)) >> 3) & 1 == value & 1) by (bit_vector);
        }
    }

    /// Whether the guest-provided SVN is mixed into the derived key.
    pub fn get_svn(&self) -> (r: u64)
        ensures
            r == (self.0 >> 4) & 1,
    {
        (self.0 >> 4) & 1
    }

    /// Select or deselect the guest SVN, leaving every other bit unchanged.
    pub fn set_svn(&mut self, value: u64)
        ensures
            final(self).0 == (old(self).0 & !16u64) | ((value & 1) << 4),
            final(self).0 & !16u64 == old(self).0 & !16u64,
            (final(self).0 >> 4) & 1 == value & 1,
    {
        self.0 = (self.0 & !16u64) | ((value & 1) << 4);
        proof {
            let r: u64 = old(self).0;
            assert(((r & !16u64) | ((value & 1) << 4)) & !16u64 == r & !16u64 && (((r & !16u64) | ((value & 1) << 4)) >> 4) & 1 == value & 1) by (bit_vector);
        }
    }

    /// Whether the guest-provided TCB version is mixed into the derived key.
    pub fn get_tcb_version(&self) -> (r: u64)
        ensures
            r == (self.0 >> 5) & 1,
    {
        (self.0 >> 5) & 1
    }

    /// Select or deselect the TCB version, leaving every other bit unchanged.
    pub fn set_tcb_version(&mut self, value: u64)
        ensures
            final(self).0 == (old(self).0 & !32u64) | ((value & 1) << 5),
            final(self).0 & !32u64 == old(self).0 & !32u64,
            (final(self).0 >> 5) & 1 == value & 1,
    {
        self.0 = (self.0 & !32u64) | ((value & 1) << 5);
        proof {
            let r: u64 = old(self).0;
            assert(((r & !32u64) | ((value & 1) << 5)) & !32u64 == r & !32u64 && (((r & !32u64) | ((value & 1) << 5)) >> 5) & 1 == value & 1) by (bit_vector);
        }
    }
}

impl Default for GuestFieldSelect {
    /// The empty selection: no field is mixed into the derived key.
    fn default() -> (r: Self)
        ensures
            r.0 == 0,
    {
        GuestFieldSelect(0)
    }
}

/// The guest policy that the guest owner provides at launch. The firmware
/// binds it to the guest and restricts what the hypervisor may do according
/// to it.
///
/// Bits 7:0: ABI_MINOR; bits 15:8: ABI_MAJOR; bit 16: SMT; bit 17: reserved,
/// must be one on the wire; bit 18: MIGRATE_MA; bit 19: DEBUG; bit 20:
/// SINGLE_SOCKET; bit 21: CXL_ALLOW; bit 22: MEM_AES_256_XTS; bit 23:
/// RAPL_DIS; bit 24: CIPHERTEXT_HIDING. Bits 63:25 are reserved.
#[derive(Copy, Clone, Debug, PartialEq, Eq, PartialOrd, Ord, Structural)]
pub struct GuestPolicy(pub u64);

/// The wire form of a guest policy: the raw value with the reserved
/// must-be-one bit 17 forced to one, whatever is stored.
pub open spec fn spec_policy_wire(raw: u64) -> u64 {
    raw | 0x20000
}

impl GuestPolicy {
    /// The minimum ABI minor version required for this guest to run.
    pub fn abi_minor(&self) -> (r: u64)
        ensures
            r == self.0 & 0xff,
    {
        self.0 & 0xff
    }

    /// Set the minimum ABI minor version, leaving every other bit unchanged.
    pub fn set_abi_minor(&mut self, value: u64)
        ensures
            final(self).0 == (old(self).0 & !0xffu64) | (value & 0xff),
            final(self).0 & !0xffu64 == old(self).0 & !0xffu64,
            final(self).0 & 0xff == value & 0xff,
    {
        self.0 = (self.0 & !0xffu64) | (value & 0xff);
        proof {
            let r: u64 = old(self).0;
            assert(((r & !0xffu64) | (value & 0xff)) & !0xffu64 == r & !0xffu64 && ((r & !0xffu64) | (value & 0xff)) & 0xff == value & 0xff) by (bit_vector);
        }
    }

    /// The minimum ABI major version required for this guest to run.
    pub fn abi_major(&self) -> (r: u64)
        ensures
            r == (self.0 >> 8) & 0xff,
    {
        (self.0 >> 8) & 0xff
    }

    /// Set the minimum ABI major version, leaving every other bit unchanged.
    pub fn set_abi_major(&mut self, value: u64)
        ensures
            final(self).0 == (old(self).0 & !0xff00u64) | ((value & 0xff) << 8),
            final(self).0 & !0xff00u64 == old(self).0 & !0xff00u64,
            (final(self).0 >> 8) & 0xff == value & 0xff,
    {
        self.0 = (self.0 & !0xff00u64) | ((value & 0xff) << 8);
        proof {
            let r: u64 = old(self).0;
            assert(((r & !0xff00u64) | ((value & 0xff) << 8)) & !0xff00u64 == r & !0xff00u64 && (((r & !0xff00u64) | ((value & 0xff) << 8)) >> 8) & 0xff == value & 0xff) by (bit_vector);
        }
    }

    /// Whether host SMT usage is allowed.
    pub fn smt_allowed(&self) -> (r: u64)
        ensures
            r == (self.0 >> 16) & 1,
    {
        (self.0 >> 16) & 1
    }

    /// Allow or disallow host SMT usage, leaving every other bit unchanged.
    pub fn set_smt_allowed(&mut self, value: u64)
        ensures
            final(self).0 == (old(self).0 & !0x10000u64) | ((value & 1) << 16),
            final(self).0 & !0x10000u64 == old(self).0 & !0x10000u64,
            (final(self).0 >> 16) & 1 == value & 1,
    {
        self.0 = (self.0 & !0x10000u64) | ((value & 1) << 16);
        proof {
            let r: u64 = old(self).0;
            assert(((r & !0x10000u64) | ((value & 1) << 16)) & !0x10000u64 == r & !0x10000u64 && (((r & !0x10000u64) | ((value & 1) << 16)) >> 16) & 1 == value & 1) by (bit_vector);
        }
    }

    /// Whether association with a migration agent is allowed.
    pub fn migrate_ma_allowed(&self) -> (r: u64)
        ensures
            r == (self.0 >> 18) & 1,
    {
        (self.0 >> 18) & 1
    }

    /// Allow or disallow a migration agent, leaving every other bit unchanged.
    pub fn set_migrate_ma_allowed(&mut self, value: u64)
        ensures
            final(self).0 == (old(self).0 & !0x40000u64) | ((value & 1) << 18),
            final(self).0 & !0x40000u64 == old(self).0 & !0x40000u64,
            (final(self).0 >> 18) & 1 == value & 1,
    {
        self.0 = (self.0 & !0x40000u64) | ((value & 1) << 18);
        proof {
            let r: u64 = old(self).0;
            assert(((r & !0x40000u64) | ((value & 1) << 18)) & !0x40000u64 == r & !0x40000u64 && (((r & !0x40000u64) | ((value & 1) << 18)) >> 18) & 1 == value & 1) by (bit_vector);
        }
    }

    /// Whether debugging of the guest is allowed.
    pub fn debug_allowed(&self) -> (r: u64)
        ensures
            r == (self.0 >> 19) & 1,
    {
        (self.0 >> 19) & 1
    }

    /// Allow or disallow debugging, leaving every other bit unchanged.
    pub fn set_debug_allowed(&mut self, value: u64)
        ensures
            final(self).0 == (old(self).0 & !0x80000u64) | ((value & 1) << 19),
            final(self).0 & !0x80000u64 == old(self).0 & !0x80000u64,
            (final(self).0 >> 19) & 1 == value & 1,
    {
        self.0 = (self.0 & !0x80000u64) | ((value & 1) << 19);
        proof {
            let r: u64 = old(self).0;
            assert(((r & !0x80000u64) | ((value & 1) << 19)) & !0x80000u64 == r & !0x80000u64 && (((r & !0x80000u64) | ((value & 1) << 19)) >> 19) & 1 == value & 1) by (bit_vector);
        }
    }

    /// Whether the guest may only be activated on a single socket.
    pub fn single_socket_required(&self) -> (r: u64)
        ensures
            r == (self.0 >> 20) & 1,
    {
        (self.0 >> 20) & 1
    }

    /// Require or release single-socket activation, leaving every other bit
    /// unchanged.
    pub fn set_single_socket_required(&mut self, value: u64)
        ensures
            final(self).0 == (old(self).0 & !0x100000u64) | ((value & 1) << 20),
            final(self).0 & !0x100000u64 == old(self).0 & !0x100000u64,
            (final(self).0 >> 20) & 1 == value & 1,
    {
        self.0 = (self.0 & !0x100000u64) | ((value & 1) << 20);
        proof {
            let r: u64 = old(self).0;
            assert(((r & !0x100000u64) | ((value & 1) << 20)) & !0x100000u64 == r & !0x100000u64 && (((r & !0x100000u64) | ((value & 1) << 20)) >> 20) & 1 == value & 1) by (bit_vector);
        }
    }

    /// Whether CXL may be populated with devices or memory.
    pub fn cxl_allowed(&self) -> (r: u64)
        ensures
            r == (self.0 >> 21) & 1,
    {
        (self.0 >> 21) & 1
    }

    /// Allow or disallow CXL population, leaving every other bit unchanged.
    pub fn set_cxl_allowed(&mut self, value: u64)
        ensures
            final(self).0 == (old(self).0 & !0x200000u64) | ((value & 1) << 21),
            final(self).0 & !0x200000u64 == old(self).0 & !0x200000u64,
            (final(self).0 >> 21) & 1 == value & 1,
    {
        self.0 = (self.0 & !0x200000u64) | ((value & 1) << 21);
        proof {
            let r: u64 = old(self).0;
            assert(((r & !0x200000u64) | ((value & 1) << 21)) & !0x200000u64 == r & !0x200000u64 && (((r & !0x200000u64) | ((value & 1) << 21)) >> 21) & 1 == value & 1) by (bit_vector);
        }
    }

    /// Whether AES 256 XTS is required for memory encryption.
    pub fn mem_aes_256_xts(&self) -> (r: u64)
        ensures
            r == (self.0 >> 22) & 1,
    {
        (self.0 >> 22) & 1
    }

    /// Require or release AES 256 XTS, leaving every other bit unchanged.
    pub fn set_mem_aes_256_xts(&mut self, value: u64)
        ensures
            final(self).0 == (old(self).0 & !0x400000u64) | ((value & 1) << 22),
            final(self).0 & !0x400000u64 == old(self).0 & !0x400000u64,
            (final(self).0 >> 22) & 1 == value & 1,
    {
        self.0 = (self.0 & !0x400000u64) | ((value & 1) << 22);
        proof {
            let r: u64 = old(self).0;
            assert(((r & !0x400000u64) | ((value & 1) << 22)) & !0x400000u64 == r & !0x400000u64 && (((r & !0x400000u64) | ((value & 1) << 22)) >> 22) & 1 == value & 1) by (bit_vector);
        }
    }

    /// Whether RAPL must be disabled.
    pub fn rapl_dis(&self) -> (r: u64)
        ensures
            r == (self.0 >> 23) & 1,
    {
        (self.0 >> 23) & 1
    }

    /// Require or release disabling RAPL, leaving every other bit unchanged.
    pub fn set_rapl_dis(&mut self, value: u64)
        ensures
            final(self).0 == (old(self).0 & !0x800000u64) | ((value & 1) << 23),
            final(self).0 & !0x800000u64 == old(self).0 & !0x800000u64,
            (final(self).0 >> 23) & 1 == value & 1,
    {
        self.0 = (self.0 & !0x800000u64) | ((value & 1) << 23);
        proof {
            let r: u64 = old(self).0;
            assert(((r & !0x800000u64) | ((value & 1) << 23)) & !0x800000u64 == r & !0x800000u64 && (((r & !0x800000u64) | ((value & 1) << 23)) >> 23) & 1 == value & 1) by (bit_vector);
        }
    }

    /// Whether ciphertext hiding must be enabled.
    pub fn ciphertext_hiding(&self) -> (r: u64)
        ensures
            r == (self.0 >> 24) & 1,
    {
        (self.0 >> 24) & 1
    }

    /// Require or release ciphertext hiding, leaving every other bit
    /// unchanged.
    pub fn set_ciphertext_hiding(&mut self, value: u64)
        ensures
            final(self).0 == (old(self).0 & !0x1000000u64) | ((value & 1) << 24),
            final(self).0 & !0x1000000u64 == old(self).0 & !0x1000000u64,
            (final(self).0 >> 24) & 1 == value & 1,
    {
        self.0 = (self.0 & !0x1000000u64) | ((value & 1) << 24);
        proof {
            let r: u64 = old(self).0;
            assert(((r & !0x1000000u64) | ((value & 1) << 24)) & !0x1000000u64 == r & !0x1000000u64 && (((r & !0x1000000u64) | ((value & 1) << 24)) >> 24) & 1 == value & 1) by (bit_vector);
        }
    }

    /// The value this policy takes on the wire. Bit 17 is reserved and must
    /// be one, so it is forced to one here regardless of the stored value:
    /// a protocol constant, not configurable state.
    pub fn to_wire(&self) -> (r: u64)
        ensures
            r == spec_policy_wire(self.0),
    {
        self.0 | 0x20000
    }
}

impl Default for GuestPolicy {
    /// The all-clear policy: every configurable field is zero.
    fn default() -> (r: Self)
        ensures
            r.0 == 0,
    {
        GuestPolicy(0)
    }
}

/// Law: the wire form of a guest policy has bit 17 set, for every stored
/// value, and alters no other bit.
pub proof fn lemma_policy_wire_bit17(raw: u64)
    ensures
        spec_policy_wire(raw) & 0x20000 == 0x20000,
        spec_policy_wire(raw) & !0x20000u64 == raw & !0x20000u64,
{
    assert((raw | 0x20000) & 0x20000 == 0x20000) by (bit_vector);
    assert((raw | 0x20000) & !0x20000u64 == raw & !0x20000u64) by (bit_vector);
}

/// A request for a key derived by the firmware from one of its root keys.
#[derive(Copy, Clone, Debug, PartialEq, Eq, PartialOrd, Ord, Structural)]
pub struct DerivedKey {
    /// Selects the root key to derive the key from: 0 for VCEK, 1 for VMRK.
    pub root_key_select: u32,
    /// Reserved, must be zero.
    pub _reserved_0: u32,
    /// What data will be mixed into the derived key.
    pub guest_field_select: GuestFieldSelect,
    /// The VMPL to mix into the derived key. Must be greater than or equal
    /// to the current VMPL.
    pub vmpl: u32,
    /// The guest SVN to mix into the key. Must not exceed the guest SVN
    /// provided at launch in the ID block.
    pub guest_svn: u32,
    /// The TCB version to mix into the derived key. Must not exceed the
    /// committed TCB.
    pub tcb_version: u64,
}

impl DerivedKey {
    /// Build a derived-key request. `root_key_select` picks VMRK over VCEK.
    pub fn new(
        root_key_select: bool,
        guest_field_select: GuestFieldSelect,
        vmpl: u32,
        guest_svn: u32,
        tcb_version: u64,
    ) -> (r: Self)
        ensures
            r.root_key_select == if root_key_select { 1u32 } else { 0u32 },
            r._reserved_0 == 0,
            r.guest_field_select == guest_field_select,
            r.vmpl == vmpl,
            r.guest_svn == guest_svn,
            r.tcb_version == tcb_version,
    {
        DerivedKey {
            root_key_select: if root_key_select { 1 } else { 0 },
            _reserved_0: 0,
            guest_field_select,
            vmpl,
            guest_svn,
            tcb_version,
        }
    }

    /// The root-key selector: 0 for VCEK, 1 for VMRK.
    pub fn get_root_key_select(&self) -> (r: u32)
        ensures
            r == self.root_key_select,
    {
        self.root_key_select
    }
}

/// Information about the platform that produced an attestation report.
///
/// Bit 0: SMT enabled; bit 1: TSME enabled; bit 2: ECC memory in use; bit 3:
/// RAPL disabled; bit 4: ciphertext hiding enabled. Bits 63:5 are reserved.
#[derive(Copy, Clone, Debug, PartialEq, Eq, PartialOrd, Ord, Structural)]
pub struct PlatformInfo(pub u64);

impl PlatformInfo {
    /// The bit state of SMT.
    pub fn smt_enabled(&self) -> (r: u64)
        ensures
            r == self.0 & 1,
    {
        self.0 & 1
    }

    /// The bit state of TSME.
    pub fn tsme_enabled(&self) -> (r: u64)
        ensures
            r == (self.0 >> 1) & 1,
    {
        (self.0 >> 1) & 1
    }

    /// Whether the platform is currently using ECC memory.
    pub fn ecc_enabled(&self) -> (r: u64)
        ensures
            r == (self.0 >> 2) & 1,
    {
        (self.0 >> 2) & 1
    }

    /// Whether the RAPL feature is disabled.
    pub fn rapl_disabled(&self) -> (r: u64)
        ensures
            r == (self.0 >> 3) & 1,
    {
        (self.0 >> 3) & 1
    }

    /// Whether ciphertext hiding is enabled.
    pub fn ciphertext_hiding_enabled(&self) -> (r: u64)
        ensures
            r == (self.0 >> 4) & 1,
    {
        (self.0 >> 4) & 1
    }

    /// The reserved bits, 63:5.
    pub fn reserved(&self) -> (r: u64)
        ensures
            r == self.0 >> 5,
    {
        self.0 >> 5
    }
}

impl Default for PlatformInfo {
    /// The all-clear platform description.
    fn default() -> (r: Self)
        ensures
            r.0 == 0,
    {
        PlatformInfo(0)
    }
}

/// Information on the key that signed an attestation report.
///
/// Bit 0: AUTHOR_KEY_EN; bit 1: MASK_CHIP_KEY; bits 4:2: SIGNING_KEY
/// (0 VCEK, 1 VLEK, 7 none). Bits 31:5 are reserved.
#[derive(Copy, Clone, Debug, PartialEq, Eq, PartialOrd, Ord, Structural)]
pub struct KeyInfo(pub u32);

impl KeyInfo {
    /// Whether the digest of the author key is present in the report.
    pub fn author_key_en(&self) -> (r: bool)
        ensures
            r == (self.0 & 1 == 1),
    {
        self.0 & 1 == 1
    }

    /// The MaskChipKey value: with 1 the firmware writes zeroes into the
    /// signature field instead of signing the report.
    pub fn mask_chip_key(&self) -> (r: u32)
        ensures
            r == (self.0 >> 1) & 1,
    {
        (self.0 >> 1) & 1
    }

    /// The key that signed the report: 0 VCEK, 1 VLEK, 7 none.
    pub fn signing_key(&self) -> (r: u32)
        ensures
            r == (self.0 >> 2) & 7,
    {
        (self.0 >> 2) & 7
    }
}

impl Default for KeyInfo {
    /// The all-clear key description: VCEK-signed, no author key.
    fn default() -> (r: Self)
        ensures
            r.0 == 0,
    {
        KeyInfo(0)
    }
}

/// What a 64-bit record's serialized form holds: the little-endian bytes of
/// the raw value, every bit included.
pub open spec fn spec_record64_bytes(raw: u64) -> Seq<u8> {
    spec_u64_to_le_bytes(raw)
}

/// What a 32-bit record's serialized form holds.
pub open spec fn spec_record32_bytes(raw: u32) -> Seq<u8> {
    spec_u32_to_le_bytes(raw)
}

impl GuestFieldSelect {
    /// The serialized form: eight little-endian bytes of the raw value.
    pub fn serialize(&self) -> (r: Vec<u8>)
        ensures
            r@ == spec_record64_bytes(self.0),
            r@.len() == 8,
    {
        proof {
            lemma_auto_spec_u64_to_from_le_bytes();
        }
        u64_to_le_bytes(self.0)
    }

    /// Rebuild a record from its serialized form. Returns `None` exactly when
    /// the input is not eight bytes long.
    pub fn deserialize(bytes: &[u8]) -> (r: Option<Self>)
        ensures
            bytes@.len() == 8 ==> r == Some(GuestFieldSelect(spec_u64_from_le_bytes(bytes@))),
            bytes@.len() != 8 ==> r is None,
    {
        if bytes.len() == 8 {
            Some(GuestFieldSelect(u64_from_le_bytes(bytes)))
        } else {
            None
        }
    }
}

impl GuestPolicy {
    /// The serialized form: eight little-endian bytes of the raw value. The
    /// stored value is serialized as it stands; forcing bit 17 belongs to
    /// `to_wire` alone.
    pub fn serialize(&self) -> (r: Vec<u8>)
        ensures
            r@ == spec_record64_bytes(self.0),
            r@.len() == 8,
    {
        proof {
            lemma_auto_spec_u64_to_from_le_bytes();
        }
        u64_to_le_bytes(self.0)
    }

    /// Rebuild a record from its serialized form. Returns `None` exactly when
    /// the input is not eight bytes long.
    pub fn deserialize(bytes: &[u8]) -> (r: Option<Self>)
        ensures
            bytes@.len() == 8 ==> r == Some(GuestPolicy(spec_u64_from_le_bytes(bytes@))),
            bytes@.len() != 8 ==> r is None,
    {
        if bytes.len() == 8 {
            Some(GuestPolicy(u64_from_le_bytes(bytes)))
        } else {
            None
        }
    }
}

impl PlatformInfo {
    /// The serialized form: eight little-endian bytes of the raw value.
    pub fn serialize(&self) -> (r: Vec<u8>)
        ensures
            r@ == spec_record64_bytes(self.0),
            r@.len() == 8,
    {
        proof {
            lemma_auto_spec_u64_to_from_le_bytes();
        }
        u64_to_le_bytes(self.0)
    }

    /// Rebuild a record from its serialized form. Returns `None` exactly when
    /// the input is not eight bytes long.
    pub fn deserialize(bytes: &[u8]) -> (r: Option<Self>)
        ensures
            bytes@.len() == 8 ==> r == Some(PlatformInfo(spec_u64_from_le_bytes(bytes@))),
            bytes@.len() != 8 ==> r is None,
    {
        if bytes.len() == 8 {
            Some(PlatformInfo(u64_from_le_bytes(bytes)))
        } else {
            None
        }
    }
}

impl KeyInfo {
    /// The serialized form: four little-endian bytes of the raw value.
    pub fn serialize(&self) -> (r: Vec<u8>)
        ensures
            r@ == spec_record32_bytes(self.0),
            r@.len() == 4,
    {
        proof {
            lemma_auto_spec_u32_to_from_le_bytes();
        }
        u32_to_le_bytes(self.0)
    }

    /// Rebuild a record from its serialized form. Returns `None` exactly when
    /// the input is not four bytes long.
    pub fn deserialize(bytes: &[u8]) -> (r: Option<Self>)
        ensures
            bytes@.len() == 4 ==> r == Some(KeyInfo(spec_u32_from_le_bytes(bytes@))),
            bytes@.len() != 4 ==> r is None,
    {
        if bytes.len() == 4 {
            Some(KeyInfo(u32_from_le_bytes(bytes)))
        } else {
            None
        }
    }
}

/// Law: every 64-bit record round-trips through serialization with every bit
/// preserved, boundary values included.
pub proof fn lemma_record64_round_trip(raw: u64)
    ensures
        spec_u64_from_le_bytes(spec_record64_bytes(raw)) == raw,
        spec_record64_bytes(raw).len() == 8,
{
    lemma_auto_spec_u64_to_from_le_bytes();
}

/// Law: every 32-bit record round-trips through serialization with every bit
/// preserved, boundary values included.
pub proof fn lemma_record32_round_trip(raw: u32)
    ensures
        spec_u32_from_le_bytes(spec_record32_bytes(raw)) == raw,
        spec_record32_bytes(raw).len() == 4,
{
    lemma_auto_spec_u32_to_from_le_bytes();
}

} // verus!
