//! The realm lifecycle of one microVM.

use vstd::prelude::*;
use crate::abi::{
    lemma_abi_constant_values, ArmRmeConfig, ArmRmeConfigData, ArmRmeInitRipas,
    ArmRmePopulateRealm, KvmEnableCap, ARM_RME_CONFIG_HASH_ALGO, ARM_RME_CONFIG_RPV,
    ARM_RME_MEASUREMENT_ALGO_SHA256, ARM_RME_MEASUREMENT_ALGO_SHA512, KVM_ARM_RME_POPULATE_FLAGS_MEASURE,
    KVM_ARM_VCPU_REC, KVM_CAP_ARM_RME, KVM_CAP_ARM_RME_CONFIG_REALM, KVM_VM_TYPE_ARM_REALM,
};
use crate::call::{initial_state, RealmCall};
use crate::error::RealmOp;
use crate::request::{is_rme_cap, RmeRequest};

verus! {

/// Measurement hash algorithm for the Realm Initial Measurement (RIM).
#[derive(Debug, Clone, Copy, PartialEq, Eq, Structural)]
pub enum MeasurementAlgo {
    /// SHA-256
    Sha256,
    /// SHA-512
    Sha512,
}

impl MeasurementAlgo {
    /// The ABI value of the algorithm.
    pub open spec fn value_spec(self) -> u32 {
        match self {
            MeasurementAlgo::Sha256 => ARM_RME_MEASUREMENT_ALGO_SHA256,
            MeasurementAlgo::Sha512 => ARM_RME_MEASUREMENT_ALGO_SHA512,
        }
    }

    /// The ABI value of the algorithm: 0 for SHA-256, 1 for SHA-512.
    pub fn value(&self) -> (v: u32)
        ensures
            v == self.value_spec(),
            v == (if *self is Sha256 { 0u32 } else { 1u32 }),
    {
        match self {
            MeasurementAlgo::Sha256 => ARM_RME_MEASUREMENT_ALGO_SHA256,
            MeasurementAlgo::Sha512 => ARM_RME_MEASUREMENT_ALGO_SHA512,
        }
    }
}

/// Configuration of a Realm VM, given when the [`RealmManager`] is built and
/// used by [`RealmManager::configure`].
#[derive(Debug, Clone, Copy)]
pub struct RealmConfig {
    /// Hash algorithm used for the Realm Initial Measurement.
    pub measurement_algo: MeasurementAlgo,
    /// Optional 64-byte Realm Personalization Value. When `Some`, the RPV
    /// is mixed into the RIM, binding the realm to a specific identity.
    pub personalization_value: Option<[u8; 64]>,
}

/// The configuration that sets the measurement hash algorithm `algo`.
pub open spec fn hash_algo_config(algo: MeasurementAlgo) -> ArmRmeConfig {
    ArmRmeConfig {
        cfg: ARM_RME_CONFIG_HASH_ALGO,
        reserved: 0,
        data: ArmRmeConfigData::HashAlgo(algo.value_spec()),
    }
}

/// The configuration that sets the personalization value `rpv`.
pub open spec fn rpv_config(rpv: [u8; 64]) -> ArmRmeConfig {
    ArmRmeConfig { cfg: ARM_RME_CONFIG_RPV, reserved: 0, data: ArmRmeConfigData::Rpv(rpv) }
}

/// The requests that configure a realm: the hash algorithm always, then the
/// personalization value where one is given.
pub open spec fn configure_requests(config: RealmConfig) -> Seq<RmeRequest> {
    let algo = seq![RmeRequest::Configure(hash_algo_config(config.measurement_algo))];
    match config.personalization_value {
        Some(rpv) => algo.push(RmeRequest::Configure(rpv_config(rpv))),
        None => algo,
    }
}

/// `req` declares the RAM range of `size` bytes at `base`, reserved words zero.
pub open spec fn is_init_ripas_request(req: RmeRequest, base: u64, size: u64) -> bool {
    req matches RmeRequest::InitRipas(r) && r.base == base && r.size == size && r.reserved@ == seq![0u64, 0u64]
}

/// The populate flags: [`KVM_ARM_RME_POPULATE_FLAGS_MEASURE`] exactly when measuring.
pub open spec fn populate_flags(measure: bool) -> u32 {
    if measure {
        KVM_ARM_RME_POPULATE_FLAGS_MEASURE
    } else {
        0
    }
}

/// `req` populates the range of `size` bytes at `base`, measured when
/// `measure` holds, reserved words zero.
pub open spec fn is_populate_request(req: RmeRequest, base: u64, size: u64, measure: bool) -> bool {
    &&& req matches RmeRequest::Populate(p)
    &&& p.base == base
    &&& p.size == size
    &&& p.flags == populate_flags(measure)
    &&& p.reserved@ == seq![0u32, 0u32, 0u32]
}

/// Configuring issues one `KVM_CAP_ARM_RME_CONFIG_REALM` request, or two
/// when a personalization value is given; each carries a well-formed
/// configuration whose selector names its payload; the first sets the hash
/// algorithm, the second the personalization value.
pub proof fn lemma_configure_requests(config: RealmConfig)
    ensures
        configure_requests(config).len() == (if config.personalization_value is Some { 2nat } else { 1nat }),
        forall|i: int|
            0 <= i < configure_requests(config).len() ==> {
                &&& #[trigger] configure_requests(config)[i] matches RmeRequest::Configure(c)
                &&& c.wf()
                &&& configure_requests(config)[i].sub_op_spec() == Some(KVM_CAP_ARM_RME_CONFIG_REALM)
            },
        configure_requests(config)[0] == RmeRequest::Configure(hash_algo_config(config.measurement_algo)),
        config.personalization_value matches Some(rpv) ==> configure_requests(config)[1] == RmeRequest::Configure(rpv_config(rpv)),
{
}

/// The configuration requests carry exactly the configured values: the
/// first selects the hash algorithm (selector 1) with the algorithm's ABI
/// value, and, when a personalization value `r` is configured, the second
/// selects the RPV (selector 0) and carries `r` itself, byte for byte.
pub proof fn lemma_configure_sends_configured_values(config: RealmConfig)
    ensures
        configure_requests(config)[0] matches RmeRequest::Configure(c) && c.cfg == 1 && c.reserved == 0
            && c.data == ArmRmeConfigData::HashAlgo(
            if config.measurement_algo is Sha256 { 0u32 } else { 1u32 },
        ),
        forall|r: [u8; 64]|
            config.personalization_value == Some(r) ==> {
                &&& configure_requests(config).len() == 2
                &&& configure_requests(config)[1] matches RmeRequest::Configure(c)
                &&& c.cfg == 0
                &&& c.reserved == 0
                &&& c.data == ArmRmeConfigData::Rpv(r)
            },
        config.personalization_value is None ==> configure_requests(config).len() == 1,
{
}

/// Two configurations that differ only in their personalization values give
/// RPV requests that differ exactly as those values do.
pub proof fn lemma_configure_rpv_follows_config(a: RealmConfig, b: RealmConfig, ra: [u8; 64], rb: [u8; 64])
    requires
        a.personalization_value == Some(ra),
        b.personalization_value == Some(rb),
    ensures
        (configure_requests(a)[1] == configure_requests(b)[1]) <==> (ra == rb),
{
    lemma_configure_sends_configured_values(a);
    lemma_configure_sends_configured_values(b);
}

/// A RIPAS request declares exactly the range it is given: its base and
/// size are the caller's, unchanged, and its reserved words are zero.
pub proof fn lemma_init_ripas_request_fields(req: RmeRequest, base: u64, size: u64)
    requires
        is_init_ripas_request(req, base, size),
    ensures
        req matches RmeRequest::InitRipas(r) && r.base == base && r.size == size && r.reserved[0] == 0
            && r.reserved[1] == 0,
{
}

/// A populate request covers exactly the range it is given, and its flags
/// depend on `measure` alone: the measure flag (1) when measuring, none
/// otherwise, whatever the base and size.
pub proof fn lemma_populate_request_fields(req: RmeRequest, base: u64, size: u64, measure: bool)
    requires
        is_populate_request(req, base, size, measure),
    ensures
        req matches RmeRequest::Populate(p) && p.base == base && p.size == size && p.flags == (if measure {
            1u32
        } else {
            0u32
        }) && p.reserved[0] == 0 && p.reserved[1] == 0 && p.reserved[2] == 0,
{
    lemma_abi_constant_values();
}

/// Populate requests for different ranges with the same `measure` carry the
/// same flags.
pub proof fn lemma_populate_flags_ignore_range(
    r1: RmeRequest,
    base1: u64,
    size1: u64,
    r2: RmeRequest,
    base2: u64,
    size2: u64,
    measure: bool,
)
    requires
        is_populate_request(r1, base1, size1, measure),
        is_populate_request(r2, base2, size2, measure),
    ensures
        r1 matches RmeRequest::Populate(p1) && r2 matches RmeRequest::Populate(p2) && p1.flags == p2.flags,
{
    lemma_populate_request_fields(r1, base1, size1, measure);
    lemma_populate_request_fields(r2, base2, size2, measure);
}

/// Manages the ARM CCA RME realm lifecycle for a single microVM.
///
/// The typical call sequence is: check support, pass [`RealmManager::vm_type`]
/// to `KVM_CREATE_VM`, then configure, create the realm, declare the RAM
/// ranges, populate memory, finalize each REC and activate.
#[derive(Debug)]
pub struct RealmManager {
    config: RealmConfig,
}

impl RealmManager {
    /// The configuration the manager was built with.
    pub closed spec fn config(&self) -> RealmConfig {
        self.config
    }

    /// Create a new [`RealmManager`] with the given configuration.
    pub fn new(config: RealmConfig) -> (manager: Self)
        ensures
            manager.config() == config,
    {
        RealmManager { config }
    }

    /// Whether the host KVM supports ARM RME, given what
    /// `KVM_CHECK_EXTENSION` answered for [`KVM_CAP_ARM_RME`]: 0 when the
    /// capability is unsupported, a positive number when it is available,
    /// and a negative one when the check itself failed.
    pub fn is_supported(check_extension: i32) -> (supported: bool)
        ensures
            supported == (check_extension > 0),
    {
        check_extension > 0
    }

    /// The VM type flag for realm creation, to be OR'd into the `type`
    /// argument of `KVM_CREATE_VM`.
    pub fn vm_type(&self) -> (t: u64)
        ensures
            t == KVM_VM_TYPE_ARM_REALM,
            t == 256,
    {
        proof {
            lemma_abi_constant_values();
        }
        KVM_VM_TYPE_ARM_REALM
    }

    /// A `KVM_ENABLE_CAP` for `KVM_CAP_ARM_RME` with a sub-operation and the
    /// address of its argument structure: `args[0]` = sub-op,
    /// `args[1]` = `arg_addr`.
    pub fn build_cap(sub_op: u64, arg_addr: u64) -> (cap: KvmEnableCap)
        ensures
            is_rme_cap(cap, seq![sub_op, arg_addr, 0u64, 0u64]),
            cap.cap == 243,
            cap.flags == 0,
            cap.args[0] == sub_op,
            cap.args[1] == arg_addr,
            cap.args[2] == 0,
            cap.args[3] == 0,
            forall|i: int| 0 <= i < 64 ==> cap.pad[i] == 0u8,
    {
        let cap = KvmEnableCap {
            cap: KVM_CAP_ARM_RME,
            flags: 0,
            args: [sub_op, arg_addr, 0u64, 0u64],
            pad: [0u8; 64],
        };
        assert(cap.args@ =~= seq![sub_op, arg_addr, 0u64, 0u64]);
        cap
    }

    /// A `KVM_ENABLE_CAP` for `KVM_CAP_ARM_RME` with a sub-operation that
    /// takes no argument structure: `args` = `[sub_op, 0, 0, 0]`.
    pub fn bare_cap(sub_op: u64) -> (cap: KvmEnableCap)
        ensures
            is_rme_cap(cap, seq![sub_op, 0u64, 0u64, 0u64]),
            cap.cap == 243,
            cap.flags == 0,
            cap.args[0] == sub_op,
            cap.args[1] == 0,
            cap.args[2] == 0,
            cap.args[3] == 0,
            forall|i: int| 0 <= i < 64 ==> cap.pad[i] == 0u8,
    {
        let cap = KvmEnableCap {
            cap: KVM_CAP_ARM_RME,
            flags: 0,
            args: [sub_op, 0u64, 0u64, 0u64],
            pad: [0u8; 64],
        };
        assert(cap.args@ =~= seq![sub_op, 0u64, 0u64, 0u64]);
        cap
    }

    /// Configure the realm's security parameters: always the measurement
    /// hash algorithm, then the personalization value if one is configured.
    pub fn configure(&self) -> (call: RealmCall)
        ensures
            call.op() == RealmOp::Configure,
            call.requests() == configure_requests(self.config()),
            call.state() == initial_state(),
            call.requests().len() == (if self.config().personalization_value is Some { 2nat } else { 1nat }),
            call.requests()[0] matches RmeRequest::Configure(c) && c.cfg == 1 && c.reserved == 0
                && c.data == ArmRmeConfigData::HashAlgo(
                if self.config().measurement_algo is Sha256 { 0u32 } else { 1u32 },
            ),
            self.config().personalization_value matches Some(r) ==> (call.requests()[1] matches RmeRequest::Configure(c)
                && c.cfg == 0 && c.reserved == 0 && c.data == ArmRmeConfigData::Rpv(r)),
    {
        let algo_config = ArmRmeConfig {
            cfg: ARM_RME_CONFIG_HASH_ALGO,
            reserved: 0,
            data: ArmRmeConfigData::HashAlgo(self.config.measurement_algo.value()),
        };
        let mut requests: Vec<RmeRequest> = Vec::new();
        requests.push(RmeRequest::Configure(algo_config));
        if let Some(rpv) = &self.config.personalization_value {
            let rpv_config = ArmRmeConfig {
                cfg: ARM_RME_CONFIG_RPV,
                reserved: 0,
                data: ArmRmeConfigData::Rpv(*rpv),
            };
            requests.push(RmeRequest::Configure(rpv_config));
        }
        assert(requests@ =~= configure_requests(self.config()));
        RealmCall::new(RealmOp::Configure, requests)
    }

    /// Create the Realm Descriptor (RD) in KVM/RMM. Belongs after
    /// [`RealmManager::configure`] and before any memory operation.
    pub fn create_realm(&self) -> (call: RealmCall)
        ensures
            call.op() == RealmOp::Create,
            call.requests() == seq![RmeRequest::CreateRealm],
            call.state() == initial_state(),
    {
        let mut requests: Vec<RmeRequest> = Vec::new();
        requests.push(RmeRequest::CreateRealm);
        assert(requests@ =~= seq![RmeRequest::CreateRealm]);
        RealmCall::new(RealmOp::Create, requests)
    }

    /// Declare the RAM region of `size` bytes at `base` in the Realm IPA
    /// Space. Both are to be page-aligned.
    pub fn init_ripas(&self, base: u64, size: u64) -> (call: RealmCall)
        ensures
            call.op() == RealmOp::InitRipas,
            call.requests().len() == 1,
            is_init_ripas_request(call.requests()[0], base, size),
            call.requests()[0] matches RmeRequest::InitRipas(r) && r.base == base && r.size == size
                && r.reserved[0] == 0 && r.reserved[1] == 0,
            call.state() == initial_state(),
    {
        let ripas = ArmRmeInitRipas { base, size, reserved: [0u64, 0u64] };
        assert(ripas.reserved@ =~= seq![0u64, 0u64]);
        let mut requests: Vec<RmeRequest> = Vec::new();
        requests.push(RmeRequest::InitRipas(ripas));
        RealmCall::new(RealmOp::InitRipas, requests)
    }

    /// Populate the guest physical pages of `size` bytes at `base`, and
    /// include them in the Realm Initial Measurement when `measure` holds.
    /// Both `base` and `size` are to be page-aligned.
    pub fn populate(&self, base: u64, size: u64, measure: bool) -> (call: RealmCall)
        ensures
            call.op() == RealmOp::Populate,
            call.requests().len() == 1,
            is_populate_request(call.requests()[0], base, size, measure),
            call.requests()[0] matches RmeRequest::Populate(p) && p.base == base && p.size == size
                && (measure ==> p.flags == 1) && (!measure ==> p.flags == 0)
                && p.reserved[0] == 0 && p.reserved[1] == 0 && p.reserved[2] == 0,
            call.state() == initial_state(),
    {
        let flags = if measure {
            KVM_ARM_RME_POPULATE_FLAGS_MEASURE
        } else {
            0
        };
        proof {
            lemma_abi_constant_values();
        }
        let pop = ArmRmePopulateRealm { base, size, flags, reserved: [0u32, 0u32, 0u32] };
        assert(pop.reserved@ =~= seq![0u32, 0u32, 0u32]);
        let mut requests: Vec<RmeRequest> = Vec::new();
        requests.push(RmeRequest::Populate(pop));
        RealmCall::new(RealmOp::Populate, requests)
    }

    /// Activate the realm, sealing it. All images are to be loaded and all
    /// RECs finalized before.
    pub fn activate(&self) -> (call: RealmCall)
        ensures
            call.op() == RealmOp::Activate,
            call.requests() == seq![RmeRequest::Activate],
            call.state() == initial_state(),
    {
        let mut requests: Vec<RmeRequest> = Vec::new();
        requests.push(RmeRequest::Activate);
        assert(requests@ =~= seq![RmeRequest::Activate]);
        RealmCall::new(RealmOp::Activate, requests)
    }

    /// Finalize a vCPU as a Realm Execution Context, after its boot
    /// registers are set and before [`RealmManager::activate`].
    pub fn finalize_vcpu(&self) -> (call: RealmCall)
        ensures
            call.op() == RealmOp::FinalizeVcpu,
            call.requests() == seq![RmeRequest::FinalizeVcpu(KVM_ARM_VCPU_REC as i32)],
            call.requests() == seq![RmeRequest::FinalizeVcpu(8)],
            call.state() == initial_state(),
    {
        let feature = KVM_ARM_VCPU_REC as i32;
        let mut requests: Vec<RmeRequest> = Vec::new();
        requests.push(RmeRequest::FinalizeVcpu(feature));
        assert(requests@ =~= seq![RmeRequest::FinalizeVcpu(8)]);
        RealmCall::new(RealmOp::FinalizeVcpu, requests)
    }
}

} // verus!
