//! Constants and argument structures of the KVM RME ABI.

use vstd::prelude::*;

verus! {

/// KVM capability number for ARM Realm Management Extension.
///
/// Gates all RME functionality. Checked via `KVM_CHECK_EXTENSION` on the
/// system (KVM) fd. Returns 0 if unsupported, positive otherwise.
pub const KVM_CAP_ARM_RME: u32 = 243;

/// VM type flag passed to `KVM_CREATE_VM` to create a Realm VM.
pub const KVM_VM_TYPE_ARM_REALM: u64 = 1u64 << 8u64;

/// vCPU feature bit that initializes a vCPU as a Realm Execution Context (REC).
pub const KVM_ARM_VCPU_REC: u32 = 8;

/// Sub-op: configure realm parameters (RPV and measurement hash algorithm).
pub const KVM_CAP_ARM_RME_CONFIG_REALM: u64 = 0;

/// Sub-op: create the Realm Descriptor (RD) in KVM/RMM.
pub const KVM_CAP_ARM_RME_CREATE_REALM: u64 = 1;

/// Sub-op: declare the Realm IPA Space (RIPAS) RAM ranges.
pub const KVM_CAP_ARM_RME_INIT_RIPAS_REALM: u64 = 2;

/// Sub-op: populate realm memory pages and optionally measure them.
pub const KVM_CAP_ARM_RME_POPULATE_REALM: u64 = 3;

/// Sub-op: seal and activate the realm, transitioning to running state.
pub const KVM_CAP_ARM_RME_ACTIVATE_REALM: u64 = 4;

/// Config selector: set the Realm Personalization Value (RPV).
pub const ARM_RME_CONFIG_RPV: u32 = 0;

/// Config selector: set the measurement hash algorithm.
pub const ARM_RME_CONFIG_HASH_ALGO: u32 = 1;

/// SHA-256 measurement algorithm.
pub const ARM_RME_MEASUREMENT_ALGO_SHA256: u32 = 0;

/// SHA-512 measurement algorithm.
pub const ARM_RME_MEASUREMENT_ALGO_SHA512: u32 = 1;

/// Populate flag: include the populated pages in the realm measurement (RIM).
pub const KVM_ARM_RME_POPULATE_FLAGS_MEASURE: u32 = 1u32 << 0u32;

/// Size of the Realm Personalization Value in bytes.
pub const ARM_RME_CONFIG_RPV_SIZE: usize = 64;

/// Ioctl number for `KVM_ENABLE_CAP`, `_IOW(0xAE, 0xa3, struct kvm_enable_cap)`.
pub const KVM_ENABLE_CAP_IOCTL: u64 =
    (1u64 << 30u64) | (104u64 << 16u64) | (0xAEu64 << 8u64) | 0xa3u64;

/// The shifted constants have the values that their documentation gives.
pub proof fn lemma_abi_constant_values()
    ensures
        KVM_VM_TYPE_ARM_REALM == 256,
        KVM_ARM_RME_POPULATE_FLAGS_MEASURE == 1,
        KVM_ENABLE_CAP_IOCTL == 0x4068_AEA3,
{
    assert((1u64 << 8u64) == 256u64) by (bit_vector);
    assert((1u32 << 0u32) == 1u32) by (bit_vector);
    assert(((1u64 << 30u64) | (104u64 << 16u64) | (0xAEu64 << 8u64) | 0xa3u64) == 0x4068_AEA3u64)
        by (bit_vector);
}


/// Every byte of `bytes` is zero.
pub open spec fn all_zero_bytes(bytes: Seq<u8>) -> bool {
    forall|i: int| 0 <= i < bytes.len() ==> #[trigger] bytes[i] == 0u8
}

/// Payload of an [`ArmRmeConfig`]: either the RPV or the hash algorithm.
///
/// The kernel reads only the member that [`ArmRmeConfig::cfg`] selects; the
/// payload is 64 bytes, the size of its largest member, `rpv`.
#[derive(Debug, Clone, Copy)]
pub enum ArmRmeConfigData {
    /// Realm Personalization Value: 64 bytes mixed into the RIM.
    Rpv([u8; 64]),
    /// Measurement hash algorithm selector.
    HashAlgo(u32),
}

impl Default for ArmRmeConfigData {
    /// An all-zero personalization value.
    fn default() -> (data: Self)
        ensures
            data matches ArmRmeConfigData::Rpv(rpv) && all_zero_bytes(rpv@) && forall|i: int|
                0 <= i < 64 ==> rpv[i] == 0u8,
    {
        ArmRmeConfigData::Rpv([0u8; 64])
    }
}

/// Configuration structure for `KVM_CAP_ARM_RME_CONFIG_REALM`
/// (the kernel's `struct arm_rme_config`).
///
/// The `cfg` field selects which payload member the kernel reads:
/// [`ARM_RME_CONFIG_RPV`] reads `rpv`, [`ARM_RME_CONFIG_HASH_ALGO`] reads
/// `hash_algo`.
#[derive(Debug, Clone, Copy)]
pub struct ArmRmeConfig {
    /// Selector: [`ARM_RME_CONFIG_RPV`] or [`ARM_RME_CONFIG_HASH_ALGO`].
    pub cfg: u32,
    /// Reserved, must be zero.
    pub reserved: u32,
    /// Configuration payload.
    pub data: ArmRmeConfigData,
}

impl ArmRmeConfig {
    /// The selector names the payload that is present and the reserved word is zero.
    pub open spec fn wf(&self) -> bool {
        &&& self.reserved == 0
        &&& (self.cfg == ARM_RME_CONFIG_RPV <==> self.data is Rpv)
        &&& (self.cfg == ARM_RME_CONFIG_HASH_ALGO <==> self.data is HashAlgo)
    }
}

impl Default for ArmRmeConfig {
    /// Selector 0 (the RPV) with an all-zero personalization value.
    fn default() -> (config: Self)
        ensures
            config.cfg == 0,
            config.reserved == 0,
            config.data matches ArmRmeConfigData::Rpv(rpv) && all_zero_bytes(rpv@) && forall|i: int|
                0 <= i < 64 ==> rpv[i] == 0u8,
            config.wf(),
    {
        ArmRmeConfig { cfg: 0, reserved: 0, data: ArmRmeConfigData::default() }
    }
}

/// RIPAS (Realm IPA Space) initialization structure for
/// `KVM_CAP_ARM_RME_INIT_RIPAS_REALM` (the kernel's `struct arm_rme_init_ripas`).
///
/// Declares a contiguous range of guest physical addresses as RAM within the realm.
#[derive(Debug, Clone, Copy)]
pub struct ArmRmeInitRipas {
    /// Base guest physical address (must be page-aligned).
    pub base: u64,
    /// Size of the region in bytes (must be page-aligned).
    pub size: u64,
    /// Reserved, must be zero.
    pub reserved: [u64; 2],
}

impl Default for ArmRmeInitRipas {
    /// All fields zero.
    fn default() -> (ripas: Self)
        ensures
            ripas.base == 0,
            ripas.size == 0,
            ripas.reserved@ == seq![0u64, 0u64],
    {
        let ripas = ArmRmeInitRipas { base: 0, size: 0, reserved: [0u64, 0u64] };
        assert(ripas.reserved@ =~= seq![0u64, 0u64]);
        ripas
    }
}

/// Realm population structure for `KVM_CAP_ARM_RME_POPULATE_REALM`
/// (the kernel's `struct arm_rme_populate_realm`).
///
/// Populates a range of guest physical pages and optionally includes them in
/// the measurement.
#[derive(Debug, Clone, Copy)]
pub struct ArmRmePopulateRealm {
    /// Base guest physical address (must be page-aligned).
    pub base: u64,
    /// Size of the region in bytes (must be page-aligned).
    pub size: u64,
    /// Bitmask of populate flags. Set [`KVM_ARM_RME_POPULATE_FLAGS_MEASURE`]
    /// to include these pages in the Realm Initial Measurement.
    pub flags: u32,
    /// Reserved, must be zero.
    pub reserved: [u32; 3],
}

impl Default for ArmRmePopulateRealm {
    /// All fields zero.
    fn default() -> (pop: Self)
        ensures
            pop.base == 0,
            pop.size == 0,
            pop.flags == 0,
            pop.reserved@ == seq![0u32, 0u32, 0u32],
    {
        let pop = ArmRmePopulateRealm { base: 0, size: 0, flags: 0, reserved: [0u32, 0u32, 0u32] };
        assert(pop.reserved@ =~= seq![0u32, 0u32, 0u32]);
        pop
    }
}

/// The fields of a `KVM_ENABLE_CAP` request (the kernel's `struct kvm_enable_cap`).
#[derive(Debug, Clone, Copy)]
pub struct KvmEnableCap {
    /// Capability number.
    pub cap: u32,
    /// Capability flags.
    pub flags: u32,
    /// Capability arguments.
    pub args: [u64; 4],
    /// Padding, zero.
    pub pad: [u8; 64],
}

} // verus!
