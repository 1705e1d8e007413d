use readiness_bridge::sftp::{OpenFlag, OpenFlags, OpenRequest, OpenType, DEFAULT_FILE_MODE};

#[test]
fn flag_bits_are_those_of_the_engine() {
    assert_eq!(OpenFlags::of(OpenFlag::Read).bits, ssh2::OpenFlags::READ.bits() as u64);
    assert_eq!(OpenFlags::of(OpenFlag::Write).bits, ssh2::OpenFlags::WRITE.bits() as u64);
    assert_eq!(OpenFlags::of(OpenFlag::Append).bits, ssh2::OpenFlags::APPEND.bits() as u64);
    assert_eq!(OpenFlags::of(OpenFlag::Create).bits, ssh2::OpenFlags::CREATE.bits() as u64);
    assert_eq!(OpenFlags::of(OpenFlag::Truncate).bits, ssh2::OpenFlags::TRUNCATE.bits() as u64);
    assert_eq!(OpenFlags::of(OpenFlag::Exclusive).bits, ssh2::OpenFlags::EXCLUSIVE.bits() as u64);
}

#[test]
fn flag_bits_by_value() {
    assert_eq!(OpenFlags::of(OpenFlag::Read).bits, 0x01);
    assert_eq!(OpenFlags::of(OpenFlag::Write).bits, 0x02);
    assert_eq!(OpenFlags::of(OpenFlag::Append).bits, 0x04);
    assert_eq!(OpenFlags::of(OpenFlag::Create).bits, 0x08);
    assert_eq!(OpenFlags::of(OpenFlag::Truncate).bits, 0x18);
    assert_eq!(OpenFlags::of(OpenFlag::Exclusive).bits, 0x28);
}

#[test]
fn union_and_contains() {
    let flags = OpenFlags::of(OpenFlag::Read).union(OpenFlags::of(OpenFlag::Append));
    assert_eq!(flags.bits, 0x05);
    assert!(flags.contains(OpenFlag::Read));
    assert!(flags.contains(OpenFlag::Append));
    assert!(!flags.contains(OpenFlag::Write));
    assert!(!flags.contains(OpenFlag::Truncate));
    let exclusive = OpenFlags::of(OpenFlag::Exclusive);
    assert!(exclusive.contains(OpenFlag::Create));
    assert!(!OpenFlags::of(OpenFlag::Create).contains(OpenFlag::Exclusive));
}

#[test]
fn open_reads_a_file() {
    let request = OpenRequest::open();
    assert_eq!(request.flags.bits, ssh2::OpenFlags::READ.bits() as u64);
    assert_eq!(request.mode, 0o644);
    assert_eq!(request.open_type, OpenType::File);
}

#[test]
fn create_writes_and_truncates() {
    let request = OpenRequest::create();
    assert_eq!(
        request.flags.bits,
        (ssh2::OpenFlags::WRITE | ssh2::OpenFlags::TRUNCATE).bits() as u64
    );
    assert_eq!(request.flags.bits, 0x1a);
    assert!(request.flags.contains(OpenFlag::Create));
    assert!(!request.flags.contains(OpenFlag::Read));
    assert_eq!(request.mode, DEFAULT_FILE_MODE);
    assert_eq!(request.mode, 420);
    assert_eq!(request.open_type, OpenType::File);
}

#[test]
fn opendir_reads_a_directory() {
    let request = OpenRequest::opendir();
    assert_eq!(request.flags.bits, 0x01);
    assert_eq!(request.mode, 0);
    assert_eq!(request.open_type, OpenType::Dir);
}

#[test]
fn open_mode_keeps_what_it_is_given() {
    let flags = OpenFlags::of(OpenFlag::Write).union(OpenFlags::of(OpenFlag::Exclusive));
    let request = OpenRequest::open_mode(flags, 0o600, OpenType::File);
    assert_eq!(request, OpenRequest { flags: OpenFlags { bits: 0x2a }, mode: 0o600, open_type: OpenType::File });
}
