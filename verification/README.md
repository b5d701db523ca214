# realm

ARM CCA Realm Management Extension (RME) support for a microVM monitor,
verified with Verus.

- `src/abi.rs`: constants and argument structures of the KVM RME ABI.
- `src/request.rs`: the ioctl requests of the lifecycle as plain values, and
  the `KVM_ENABLE_CAP` structure each one becomes.
- `src/manager.rs`: `RealmManager`, which turns its configuration and the
  caller's arguments into the requests of each lifecycle operation.
- `src/call.rs`: an operation in progress: requests go out in order, the
  first failure ends it, success needs every request to succeed.
- `src/error.rs`: `RealmError` and how a kernel error is reported.
- `app/`: the `#[repr(C)]` structures, the ioctls on the KVM fds, and the
  loop that feeds their outcomes back to the library.
