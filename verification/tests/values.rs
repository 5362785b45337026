use platform_verifier::error::TlsError;
use platform_verifier::layout::size_of_struct;
use platform_verifier::name::{encode_server_name, ServerName};
use platform_verifier::time::{file_time, FileTime};

#[test]
fn unix_epoch_as_file_time() {
    // 116444736000000000 ticks.
    assert_eq!(file_time(0), Ok(FileTime { low: 0xD53E_8000, high: 0x019D_B1DE }));
}

#[test]
fn ticks_last_a_hundred_nanoseconds() {
    let epoch = file_time(0).unwrap();
    assert_eq!(file_time(99), Ok(epoch));
    assert_eq!(file_time(100), Ok(FileTime { low: epoch.low + 1, high: epoch.high }));
    assert_eq!(file_time(1_000_000_000), Ok(FileTime { low: epoch.low + 10_000_000, high: epoch.high }));
}

#[test]
fn file_time_carries_into_the_high_half() {
    let time = file_time(1_700_000_000_123_456_789).unwrap();
    let ticks = (u64::from(time.high) << 32) + u64::from(time.low);
    assert_eq!(ticks, 133_444_736_001_234_567);
}

#[test]
fn later_times_have_later_file_times() {
    let ticks = |now: i128| {
        let time = file_time(now).unwrap();
        (u64::from(time.high) << 32) + u64::from(time.low)
    };
    assert!(ticks(1_000_000_000) < ticks(2_000_000_000));
    assert!(ticks(42_949_672_959_999) <= ticks(42_949_672_960_000));
}

#[test]
fn file_time_keeps_the_low_bits() {
    // One tick past the last one that 64 bits can count.
    let last = (u64::MAX as i128) * 100 - 11_644_473_600_000_000_000;
    assert_eq!(file_time(last), Ok(FileTime { low: u32::MAX, high: u32::MAX }));
    assert_eq!(file_time(last + 100), Ok(FileTime { low: 0, high: 0 }));
}

#[test]
fn time_before_the_unix_epoch_is_an_error() {
    assert_eq!(file_time(-1), Err(TlsError::FailedToGetCurrentTime));
    assert_eq!(file_time(i128::MIN), Err(TlsError::FailedToGetCurrentTime));
}

#[test]
fn names_are_null_terminated() {
    assert_eq!(encode_server_name(b"ab.c"), vec![97, 98, 46, 99, 0]);
    assert_eq!(encode_server_name(b""), vec![0]);
    assert_eq!(encode_server_name(&[0xFF, 0]), vec![0xFF, 0, 0]);
    assert_ne!(encode_server_name(b"a"), encode_server_name(b"a\0"));
}

#[test]
fn encoded_name_reads_back() {
    let units = encode_server_name(b"example.com");
    let end = units.iter().position(|unit| *unit == 0).unwrap();
    assert_eq!(String::from_utf16(&units[..end]).unwrap(), "example.com");
}

#[test]
fn bytes_of_names() {
    let dns = ServerName::DnsName(String::from("example.com"));
    assert_eq!(dns.as_bytes(), Ok("example.com".as_bytes()));
    let ip = ServerName::IpAddress(String::from("2001:db8::1"));
    assert_eq!(ip.as_bytes(), Ok("2001:db8::1".as_bytes()));
    assert_eq!(ServerName::Unsupported.as_bytes(), Err(TlsError::UnsupportedNameType));
}

#[test]
fn sizes_of_structures() {
    assert_eq!(size_of_struct(&0u8), 1);
    assert_eq!(size_of_struct(&[0u32; 6]), 24);
    assert_eq!(size_of_struct(&()), 0);
}
