use rawsys::abi::OpenFlag;
use rawsys::abi::SysCall;
use rawsys::abi::flag_bits;
use rawsys::abi::flags_value;
use rawsys::abi::syscall_number;
use rawsys::outcome::SysOutcome;
use rawsys::outcome::classify;
use rawsys::request::SysArg;
use rawsys::request::open_request;
use rawsys::request::read_request;
use rawsys::request::write_request;
use rawsys::request::writev_request;

#[test]
fn syscall_numbers_match_the_table() {
    assert_eq!(syscall_number(SysCall::Read), 0);
    assert_eq!(syscall_number(SysCall::Write), 1);
    assert_eq!(syscall_number(SysCall::Open), 2);
    assert_eq!(syscall_number(SysCall::WriteV), 20);
}

#[test]
fn flag_bits_match_the_kernel_constants() {
    assert_eq!(flag_bits(OpenFlag::ReadOnly), 0);
    assert_eq!(flag_bits(OpenFlag::WriteOnly), 0o1);
    assert_eq!(flag_bits(OpenFlag::ReadWrite), 0o2);
    assert_eq!(flag_bits(OpenFlag::Create), 0o100);
    assert_eq!(flag_bits(OpenFlag::Append), 0o2000);
}

#[test]
fn create_write_append_combine_by_or() {
    let fs = vec![OpenFlag::Create, OpenFlag::WriteOnly, OpenFlag::Append];
    assert_eq!(flags_value(&fs), 0o2101);
}

#[test]
fn no_flags_is_read_only() {
    let none: Vec<OpenFlag> = Vec::new();
    assert_eq!(flags_value(&none), 0);
    assert_eq!(flags_value(&vec![OpenFlag::ReadOnly]), 0);
}

#[test]
fn classify_keeps_a_positive_count() {
    let r = classify(12);
    assert_eq!(r, SysOutcome::Success(12));
    assert!(r.is_success());
    assert_eq!(r.error_code(), None);
}

#[test]
fn classify_zero_is_end_of_stream() {
    let r = classify(0);
    assert_eq!(r, SysOutcome::Success(0));
    assert!(r.is_success());
}

#[test]
fn classify_keeps_a_bad_descriptor_error() {
    // -9 is the kernel's "bad file descriptor" word
    let r = classify(-9);
    assert_eq!(r, SysOutcome::Failure(-9));
    assert!(!r.is_success());
    assert_eq!(r.error_code(), Some(9));
}

#[test]
fn classify_most_negative_word() {
    let r = classify(i64::MIN);
    assert!(!r.is_success());
    assert_eq!(r.error_code(), Some(1u64 << 63));
}

#[test]
fn write_request_tags_and_orders_its_arguments() {
    let r = write_request(1, 0x1000, 12);
    assert_eq!(r.call, SysCall::Write);
    assert_eq!(r.arg1, SysArg::Int(1));
    assert_eq!(r.arg2, SysArg::Addr(0x1000));
    assert_eq!(r.arg3, SysArg::Int(12));
    assert_eq!(r.register_words(), (1, 1, 0x1000, 12));
}

#[test]
fn read_request_tags_and_orders_its_arguments() {
    let r = read_request(3, 0x2000, 1024);
    assert_eq!(r.call, SysCall::Read);
    assert_eq!(r.register_words(), (0, 3, 0x2000, 1024));
}

#[test]
fn open_request_widens_flags_and_mode() {
    let r = open_request(0x3000, 0o2101, 0o777);
    assert_eq!(r.call, SysCall::Open);
    assert_eq!(r.arg1, SysArg::Addr(0x3000));
    assert_eq!(r.arg2, SysArg::Int(0o2101));
    assert_eq!(r.arg3, SysArg::Int(0o777));
    assert_eq!(r.register_words(), (2, 0x3000, 0o2101, 0o777));
}

#[test]
fn writev_request_tags_and_orders_its_arguments() {
    let r = writev_request(1, 0x4000, 4);
    assert_eq!(r.call, SysCall::WriteV);
    assert_eq!(r.register_words(), (20, 1, 0x4000, 4));
}
