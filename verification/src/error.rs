//! Errors of the realm lifecycle operations.

use vstd::prelude::*;

verus! {

/// The error that KVM reports for a failed ioctl (an `errno` value).
#[verifier::external_type_specification]
#[verifier::external_body]
pub struct ExKvmError(kvm_ioctls::Error);

/// The lifecycle operation that a request belongs to; it decides how a
/// failure of that request is reported.
#[derive(Debug, Clone, Copy, PartialEq, Eq, Structural)]
pub enum RealmOp {
    /// Setting the RPV and the hash algorithm.
    Configure,
    /// Creating the Realm Descriptor.
    Create,
    /// Declaring RIPAS RAM ranges.
    InitRipas,
    /// Populating realm memory.
    Populate,
    /// Activating the realm.
    Activate,
    /// Finalizing a vCPU as a Realm Execution Context.
    FinalizeVcpu,
}

/// Errors produced by [`crate::manager::RealmManager`] operations.
#[derive(Debug, Clone, Copy)]
pub enum RealmError {
    /// Failed to configure realm (RPV or hash algorithm).
    Configure(kvm_ioctls::Error),
    /// Failed to create realm descriptor.
    Create(kvm_ioctls::Error),
    /// Failed to initialize RIPAS for memory region.
    InitRipas(kvm_ioctls::Error),
    /// Failed to populate realm memory.
    Populate(kvm_ioctls::Error),
    /// Failed to activate realm.
    Activate(kvm_ioctls::Error),
    /// Failed to finalize vCPU as Realm Execution Context.
    FinalizeVcpu(kvm_ioctls::Error),
}

impl RealmOp {
    /// The error that reports the failure `e` of a request of this operation.
    pub open spec fn wrap_spec(self, e: kvm_ioctls::Error) -> RealmError {
        match self {
            RealmOp::Configure => RealmError::Configure(e),
            RealmOp::Create => RealmError::Create(e),
            RealmOp::InitRipas => RealmError::InitRipas(e),
            RealmOp::Populate => RealmError::Populate(e),
            RealmOp::Activate => RealmError::Activate(e),
            RealmOp::FinalizeVcpu => RealmError::FinalizeVcpu(e),
        }
    }

    /// Reports the failure `e` of a request of this operation.
    pub fn wrap(&self, e: kvm_ioctls::Error) -> (err: RealmError)
        ensures
            err == self.wrap_spec(e),
            *self is Configure ==> err == RealmError::Configure(e),
            *self is Create ==> err == RealmError::Create(e),
            *self is InitRipas ==> err == RealmError::InitRipas(e),
            *self is Populate ==> err == RealmError::Populate(e),
            *self is Activate ==> err == RealmError::Activate(e),
            *self is FinalizeVcpu ==> err == RealmError::FinalizeVcpu(e),
    {
        match self {
            RealmOp::Configure => RealmError::Configure(e),
            RealmOp::Create => RealmError::Create(e),
            RealmOp::InitRipas => RealmError::InitRipas(e),
            RealmOp::Populate => RealmError::Populate(e),
            RealmOp::Activate => RealmError::Activate(e),
            RealmOp::FinalizeVcpu => RealmError::FinalizeVcpu(e),
        }
    }
}

/// The outcome of a `KVM_ENABLE_CAP` ioctl: a zero return value is success,
/// any other reports the error that `errno` held after the call.
pub fn ioctl_outcome(ret: i32, last_error: kvm_ioctls::Error) -> (outcome: Result<(), kvm_ioctls::Error>)
    ensures
        outcome == (if ret == 0 { Ok::<(), kvm_ioctls::Error>(()) } else { Err(last_error) }),
{
    if ret == 0 {
        Ok(())
    } else {
        Err(last_error)
    }
}

} // verus!
