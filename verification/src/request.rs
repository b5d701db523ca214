//! The ioctl requests of the realm lifecycle, as plain values.

use vstd::prelude::*;
use crate::abi::{
    all_zero_bytes, ArmRmeConfig, ArmRmeInitRipas, ArmRmePopulateRealm, KvmEnableCap,
    KVM_CAP_ARM_RME, KVM_CAP_ARM_RME_ACTIVATE_REALM, KVM_CAP_ARM_RME_CONFIG_REALM,
    KVM_CAP_ARM_RME_CREATE_REALM, KVM_CAP_ARM_RME_INIT_RIPAS_REALM, KVM_CAP_ARM_RME_POPULATE_REALM,
};
use crate::manager::RealmManager;

verus! {

/// One ioctl that a lifecycle operation needs the caller to issue.
///
/// All but the last are `KVM_ENABLE_CAP` with [`KVM_CAP_ARM_RME`] on the VM
/// fd; the last is `KVM_ARM_VCPU_FINALIZE` on a vCPU fd.
#[derive(Debug, Clone, Copy)]
pub enum RmeRequest {
    /// Sub-op [`KVM_CAP_ARM_RME_CONFIG_REALM`]; `args[1]` points to the configuration.
    Configure(ArmRmeConfig),
    /// Sub-op [`KVM_CAP_ARM_RME_CREATE_REALM`], no argument structure.
    CreateRealm,
    /// Sub-op [`KVM_CAP_ARM_RME_INIT_RIPAS_REALM`]; `args[1]` points to the range.
    InitRipas(ArmRmeInitRipas),
    /// Sub-op [`KVM_CAP_ARM_RME_POPULATE_REALM`]; `args[1]` points to the range.
    Populate(ArmRmePopulateRealm),
    /// Sub-op [`KVM_CAP_ARM_RME_ACTIVATE_REALM`], no argument structure.
    Activate,
    /// `KVM_ARM_VCPU_FINALIZE` with this feature number.
    FinalizeVcpu(i32),
}

/// `cap` is a `KVM_ENABLE_CAP` request for [`KVM_CAP_ARM_RME`] with the
/// arguments `args`, no flags and zero padding.
pub open spec fn is_rme_cap(cap: KvmEnableCap, args: Seq<u64>) -> bool {
    &&& cap.cap == KVM_CAP_ARM_RME
    &&& cap.flags == 0
    &&& cap.args@ == args
    &&& all_zero_bytes(cap.pad@)
}

/// A capability structure of this shape is exactly the request it names:
/// capability 243, no flags, the given arguments unchanged (all 64 bits of
/// each), and zero padding.
pub proof fn lemma_rme_cap_fields(cap: KvmEnableCap, args: Seq<u64>)
    requires
        is_rme_cap(cap, args),
        args.len() == 4,
    ensures
        cap.cap == 243,
        cap.flags == 0,
        cap.args[0] == args[0],
        cap.args[1] == args[1],
        cap.args[2] == args[2],
        cap.args[3] == args[3],
        forall|i: int| 0 <= i < 64 ==> cap.pad[i] == 0u8,
{
    assert forall|i: int| 0 <= i < 64 implies cap.pad[i] == 0u8 by {
        assert(cap.pad@[i] == 0u8);
    }
}

impl RmeRequest {
    /// The `KVM_CAP_ARM_RME` sub-operation of the request; `None` for the
    /// vCPU finalisation, which is not a `KVM_ENABLE_CAP`.
    pub open spec fn sub_op_spec(self) -> Option<u64> {
        match self {
            RmeRequest::Configure(_) => Some(KVM_CAP_ARM_RME_CONFIG_REALM),
            RmeRequest::CreateRealm => Some(KVM_CAP_ARM_RME_CREATE_REALM),
            RmeRequest::InitRipas(_) => Some(KVM_CAP_ARM_RME_INIT_RIPAS_REALM),
            RmeRequest::Populate(_) => Some(KVM_CAP_ARM_RME_POPULATE_REALM),
            RmeRequest::Activate => Some(KVM_CAP_ARM_RME_ACTIVATE_REALM),
            RmeRequest::FinalizeVcpu(_) => None,
        }
    }

    /// Whether `args[1]` of the request points to an argument structure.
    pub open spec fn has_argument_spec(self) -> bool {
        self is Configure || self is InitRipas || self is Populate
    }

    /// The `KVM_CAP_ARM_RME` sub-operation of the request; `None` for the
    /// vCPU finalisation.
    pub fn sub_op(&self) -> (op: Option<u64>)
        ensures
            op == self.sub_op_spec(),
    {
        match self {
            RmeRequest::Configure(_) => Some(KVM_CAP_ARM_RME_CONFIG_REALM),
            RmeRequest::CreateRealm => Some(KVM_CAP_ARM_RME_CREATE_REALM),
            RmeRequest::InitRipas(_) => Some(KVM_CAP_ARM_RME_INIT_RIPAS_REALM),
            RmeRequest::Populate(_) => Some(KVM_CAP_ARM_RME_POPULATE_REALM),
            RmeRequest::Activate => Some(KVM_CAP_ARM_RME_ACTIVATE_REALM),
            RmeRequest::FinalizeVcpu(_) => None,
        }
    }

    /// The `KVM_ENABLE_CAP` structure of the request, where `arg_addr` is the
    /// address at which the caller holds the request's argument structure
    /// (ignored for requests without one); `None` for the vCPU finalisation.
    pub fn enable_cap(&self, arg_addr: u64) -> (cap: Option<KvmEnableCap>)
        ensures
            match self.sub_op_spec() {
                None => cap is None,
                Some(sub_op) => cap matches Some(c) && is_rme_cap(
                    c,
                    if self.has_argument_spec() {
                        seq![sub_op, arg_addr, 0u64, 0u64]
                    } else {
                        seq![sub_op, 0u64, 0u64, 0u64]
                    },
                ),
            },
            (cap is None) <==> (*self is FinalizeVcpu),
            cap matches Some(c) ==> {
                &&& c.cap == 243
                &&& c.flags == 0
                &&& c.args[2] == 0
                &&& c.args[3] == 0
                &&& forall|i: int| 0 <= i < 64 ==> c.pad[i] == 0u8
            },
            *self is Configure ==> (cap matches Some(c) && c.args[0] == 0 && c.args[1] == arg_addr),
            *self is CreateRealm ==> (cap matches Some(c) && c.args[0] == 1 && c.args[1] == 0),
            *self is InitRipas ==> (cap matches Some(c) && c.args[0] == 2 && c.args[1] == arg_addr),
            *self is Populate ==> (cap matches Some(c) && c.args[0] == 3 && c.args[1] == arg_addr),
            *self is Activate ==> (cap matches Some(c) && c.args[0] == 4 && c.args[1] == 0),
    {
        match self {
            RmeRequest::Configure(_) => Some(RealmManager::build_cap(KVM_CAP_ARM_RME_CONFIG_REALM, arg_addr)),
            RmeRequest::CreateRealm => Some(RealmManager::bare_cap(KVM_CAP_ARM_RME_CREATE_REALM)),
            RmeRequest::InitRipas(_) => Some(RealmManager::build_cap(KVM_CAP_ARM_RME_INIT_RIPAS_REALM, arg_addr)),
            RmeRequest::Populate(_) => Some(RealmManager::build_cap(KVM_CAP_ARM_RME_POPULATE_REALM, arg_addr)),
            RmeRequest::Activate => Some(RealmManager::bare_cap(KVM_CAP_ARM_RME_ACTIVATE_REALM)),
            RmeRequest::FinalizeVcpu(_) => None,
        }
    }
}

} // verus!
