//! The numbers of the host platform and the choice of strategy.

use shm_open_anonymous::abi::Abi;
use shm_open_anonymous::machine::memfd_label_bytes;
use shm_open_anonymous::model::{NO_DESCRIPTOR, OWNER_ONLY};
use shm_open_anonymous::platform::{select_strategy, Platform, Strategy};

#[test]
fn host_numbers_are_those_of_libc() {
    let abi = Abi::host();
    assert_eq!(abi.o_rdwr, libc::O_RDWR);
    assert_eq!(abi.o_creat, libc::O_CREAT);
    assert_eq!(abi.o_excl, libc::O_EXCL);
    assert_eq!(abi.o_nofollow, libc::O_NOFOLLOW);
    assert_eq!(abi.eexist, libc::EEXIST);
    assert_eq!(abi.enosys, libc::ENOSYS);
    assert_eq!(abi.clock_realtime, libc::CLOCK_REALTIME);
    assert_eq!(abi.mfd_cloexec, libc::MFD_CLOEXEC);
}

#[test]
fn exclusive_creation_sets_all_four_flags() {
    let abi = Abi::host();
    let flags = abi.create_flags();
    assert_eq!(flags, libc::O_RDWR | libc::O_CREAT | libc::O_EXCL | libc::O_NOFOLLOW);
    assert_eq!(flags & libc::O_EXCL, libc::O_EXCL);
    assert_eq!(flags & libc::O_NOFOLLOW, libc::O_NOFOLLOW);
    let made_up = Abi { o_rdwr: 1, o_creat: 2, o_excl: 4, o_nofollow: 8, ..abi };
    assert_eq!(made_up.create_flags(), 15);
}

#[test]
fn each_platform_has_its_strategy() {
    assert_eq!(select_strategy(Platform::Linux), Strategy::NativeTempFile { fallback: true });
    assert_eq!(select_strategy(Platform::Android), Strategy::NativeTempFile { fallback: false });
    assert_eq!(select_strategy(Platform::FreeBsd), Strategy::NativeAnonymous);
    assert_eq!(select_strategy(Platform::Posix), Strategy::GenericPosix);
}

#[test]
fn fixed_values_of_the_dialogue() {
    assert_eq!(NO_DESCRIPTOR, -1);
    assert_eq!(OWNER_ONLY, 0o600);
    assert_eq!(&memfd_label_bytes(), b"shm_open_anonymous\0");
}
