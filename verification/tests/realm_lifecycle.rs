use kvm_ioctls::Error;
use realm::abi::{
    ArmRmeConfig, ArmRmeConfigData, ArmRmeInitRipas, ArmRmePopulateRealm, ARM_RME_CONFIG_HASH_ALGO,
    ARM_RME_CONFIG_RPV, KVM_ARM_RME_POPULATE_FLAGS_MEASURE, KVM_CAP_ARM_RME, KVM_ENABLE_CAP_IOCTL,
    KVM_VM_TYPE_ARM_REALM,
};
use realm::call::{CallAction, RealmCall};
use realm::error::{ioctl_outcome, RealmError, RealmOp};
use realm::manager::{MeasurementAlgo, RealmConfig, RealmManager};
use realm::request::RmeRequest;

fn manager(algo: MeasurementAlgo, rpv: Option<[u8; 64]>) -> RealmManager {
    RealmManager::new(RealmConfig { measurement_algo: algo, personalization_value: rpv })
}

fn issued(call: &RealmCall) -> RmeRequest {
    match call.action() {
        CallAction::Issue(req) => req,
        CallAction::Finish(_) => panic!("expected a request to issue"),
    }
}

fn finished(call: &RealmCall) -> Result<(), RealmError> {
    match call.action() {
        CallAction::Finish(r) => r,
        CallAction::Issue(_) => panic!("expected the operation to be over"),
    }
}

fn errno_of(err: RealmError) -> (RealmOp, i32) {
    match err {
        RealmError::Configure(e) => (RealmOp::Configure, e.errno()),
        RealmError::Create(e) => (RealmOp::Create, e.errno()),
        RealmError::InitRipas(e) => (RealmOp::InitRipas, e.errno()),
        RealmError::Populate(e) => (RealmOp::Populate, e.errno()),
        RealmError::Activate(e) => (RealmOp::Activate, e.errno()),
        RealmError::FinalizeVcpu(e) => (RealmOp::FinalizeVcpu, e.errno()),
    }
}

#[test]
fn vm_type_is_realm_flag() {
    let m = manager(MeasurementAlgo::Sha256, None);
    assert_eq!(m.vm_type(), 256);
    assert_eq!(m.vm_type(), KVM_VM_TYPE_ARM_REALM);
}

#[test]
fn enable_cap_ioctl_number() {
    assert_eq!(KVM_ENABLE_CAP_IOCTL, 0x4068_AEA3);
    assert_eq!(KVM_ARM_RME_POPULATE_FLAGS_MEASURE, 1);
}

#[test]
fn support_follows_check_extension() {
    assert!(!RealmManager::is_supported(0));
    assert!(RealmManager::is_supported(1));
    assert!(RealmManager::is_supported(3));
    assert!(!RealmManager::is_supported(-1));
    assert!(!RealmManager::is_supported(i32::MIN));
}

#[test]
fn measurement_algo_values() {
    assert_eq!(MeasurementAlgo::Sha256.value(), 0);
    assert_eq!(MeasurementAlgo::Sha512.value(), 1);
}

#[test]
fn defaults_are_zero() {
    let c = ArmRmeConfig::default();
    assert_eq!(c.cfg, ARM_RME_CONFIG_RPV);
    assert_eq!(c.reserved, 0);
    match c.data {
        ArmRmeConfigData::Rpv(rpv) => assert_eq!(rpv, [0u8; 64]),
        ArmRmeConfigData::HashAlgo(_) => panic!("default payload is the RPV"),
    }
    let r = ArmRmeInitRipas::default();
    assert_eq!((r.base, r.size, r.reserved), (0, 0, [0, 0]));
    let p = ArmRmePopulateRealm::default();
    assert_eq!((p.base, p.size, p.flags, p.reserved), (0, 0, 0, [0, 0, 0]));
}

#[test]
fn configure_sets_hash_algorithm_only() {
    let m = manager(MeasurementAlgo::Sha512, None);
    let mut call = m.configure();
    match issued(&call) {
        RmeRequest::Configure(c) => {
            assert_eq!(c.cfg, ARM_RME_CONFIG_HASH_ALGO);
            assert_eq!(c.reserved, 0);
            assert!(matches!(c.data, ArmRmeConfigData::HashAlgo(1)));
        }
        other => panic!("unexpected request {:?}", other),
    }
    call.record(Ok(()));
    assert!(finished(&call).is_ok());
}

#[test]
fn configure_sets_rpv_after_hash_algorithm() {
    let mut rpv = [0u8; 64];
    for (i, b) in rpv.iter_mut().enumerate() {
        *b = i as u8;
    }
    let m = manager(MeasurementAlgo::Sha256, Some(rpv));
    let mut call = m.configure();
    match issued(&call) {
        RmeRequest::Configure(c) => {
            assert_eq!(c.cfg, ARM_RME_CONFIG_HASH_ALGO);
            assert!(matches!(c.data, ArmRmeConfigData::HashAlgo(0)));
        }
        other => panic!("unexpected request {:?}", other),
    }
    call.record(Ok(()));
    match issued(&call) {
        RmeRequest::Configure(c) => {
            assert_eq!(c.cfg, ARM_RME_CONFIG_RPV);
            assert_eq!(c.reserved, 0);
            match c.data {
                ArmRmeConfigData::Rpv(got) => assert_eq!(got, rpv),
                ArmRmeConfigData::HashAlgo(_) => panic!("expected the RPV"),
            }
        }
        other => panic!("unexpected request {:?}", other),
    }
    call.record(Ok(()));
    assert!(finished(&call).is_ok());
}

#[test]
fn configure_stops_at_first_failure() {
    let m = manager(MeasurementAlgo::Sha256, Some([7u8; 64]));
    let mut call = m.configure();
    call.record(Err(Error::new(22)));
    let err = finished(&call).unwrap_err();
    assert_eq!(errno_of(err), (RealmOp::Configure, 22));
    // Later outcomes change nothing.
    call.record(Ok(()));
    assert_eq!(errno_of(finished(&call).unwrap_err()), (RealmOp::Configure, 22));
}

#[test]
fn configure_reports_rpv_failure() {
    let m = manager(MeasurementAlgo::Sha256, Some([7u8; 64]));
    let mut call = m.configure();
    call.record(Ok(()));
    call.record(Err(Error::new(1)));
    assert_eq!(errno_of(finished(&call).unwrap_err()), (RealmOp::Configure, 1));
}

#[test]
fn create_realm_request() {
    let m = manager(MeasurementAlgo::Sha256, None);
    let mut call = m.create_realm();
    let req = issued(&call);
    assert!(matches!(req, RmeRequest::CreateRealm));
    assert_eq!(req.sub_op(), Some(1));
    let cap = req.enable_cap(0xdead_beef).unwrap();
    assert_eq!(cap.cap, KVM_CAP_ARM_RME);
    assert_eq!(cap.flags, 0);
    assert_eq!(cap.args, [1, 0, 0, 0]);
    assert_eq!(cap.pad, [0u8; 64]);
    call.record(Err(Error::new(12)));
    assert_eq!(errno_of(finished(&call).unwrap_err()), (RealmOp::Create, 12));
}

#[test]
fn init_ripas_request() {
    let m = manager(MeasurementAlgo::Sha256, None);
    let mut call = m.init_ripas(0x8000_0000, 0x1000_0000);
    let req = issued(&call);
    match req {
        RmeRequest::InitRipas(r) => {
            assert_eq!(r.base, 0x8000_0000);
            assert_eq!(r.size, 0x1000_0000);
            assert_eq!(r.reserved, [0, 0]);
        }
        other => panic!("unexpected request {:?}", other),
    }
    let cap = req.enable_cap(0x1234).unwrap();
    assert_eq!(cap.args, [2, 0x1234, 0, 0]);
    call.record(Ok(()));
    assert!(finished(&call).is_ok());
}

#[test]
fn populate_measured_and_unmeasured() {
    let m = manager(MeasurementAlgo::Sha256, None);
    for (measure, flags) in [(true, KVM_ARM_RME_POPULATE_FLAGS_MEASURE), (false, 0)] {
        let mut call = m.populate(0x4000, 0x2000, measure);
        let req = issued(&call);
        match req {
            RmeRequest::Populate(p) => {
                assert_eq!(p.base, 0x4000);
                assert_eq!(p.size, 0x2000);
                assert_eq!(p.flags, flags);
                assert_eq!(p.reserved, [0, 0, 0]);
            }
            other => panic!("unexpected request {:?}", other),
        }
        assert_eq!(req.enable_cap(0x99).unwrap().args, [3, 0x99, 0, 0]);
        call.record(Err(Error::new(14)));
        assert_eq!(errno_of(finished(&call).unwrap_err()), (RealmOp::Populate, 14));
    }
}

#[test]
fn activate_request() {
    let m = manager(MeasurementAlgo::Sha256, None);
    let mut call = m.activate();
    let req = issued(&call);
    assert!(matches!(req, RmeRequest::Activate));
    assert_eq!(req.enable_cap(0x55).unwrap().args, [4, 0, 0, 0]);
    call.record(Err(Error::new(16)));
    assert_eq!(errno_of(finished(&call).unwrap_err()), (RealmOp::Activate, 16));
}

#[test]
fn finalize_vcpu_request() {
    let m = manager(MeasurementAlgo::Sha256, None);
    let mut call = m.finalize_vcpu();
    let req = issued(&call);
    assert!(matches!(req, RmeRequest::FinalizeVcpu(8)));
    assert_eq!(req.sub_op(), None);
    assert!(req.enable_cap(0x55).is_none());
    call.record(Err(Error::new(5)));
    assert_eq!(errno_of(finished(&call).unwrap_err()), (RealmOp::FinalizeVcpu, 5));
}

#[test]
fn build_cap_layout() {
    let cap = RealmManager::build_cap(0, 0x7fff_0000);
    assert_eq!(cap.cap, 243);
    assert_eq!(cap.flags, 0);
    assert_eq!(cap.args, [0, 0x7fff_0000, 0, 0]);
    assert_eq!(cap.pad, [0u8; 64]);
    let bare = RealmManager::bare_cap(4);
    assert_eq!(bare.args, [4, 0, 0, 0]);
    assert_eq!(bare.pad, [0u8; 64]);
}

#[test]
fn ioctl_outcome_from_return_value() {
    assert_eq!(ioctl_outcome(0, Error::new(9)), Ok(()));
    assert_eq!(ioctl_outcome(-1, Error::new(9)), Err(Error::new(9)));
    assert_eq!(ioctl_outcome(1, Error::new(4)), Err(Error::new(4)));
}

#[test]
fn wrap_names_the_operation() {
    assert_eq!(errno_of(RealmOp::InitRipas.wrap(Error::new(3))), (RealmOp::InitRipas, 3));
    assert_eq!(errno_of(RealmOp::Configure.wrap(Error::new(2))), (RealmOp::Configure, 2));
}

#[test]
fn run_with_all_successes_ends_ok() {
    let m = manager(MeasurementAlgo::Sha512, Some([1u8; 64]));
    let mut call = m.configure();
    let mut count = 0;
    loop {
        match call.action() {
            CallAction::Issue(_) => {
                count += 1;
                call.record(Ok(()));
            }
            CallAction::Finish(r) => {
                assert!(r.is_ok());
                break;
            }
        }
    }
    assert_eq!(count, 2);
}
