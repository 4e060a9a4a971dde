use procmon::numfmt::{centi_percent_string, mb_of_bytes, u64_to_decimal};
use procmon::target::parse_pid;

#[test]
fn decimal_zero() {
    assert_eq!(u64_to_decimal(0), "0");
}

#[test]
fn decimal_small() {
    assert_eq!(u64_to_decimal(7), "7");
    assert_eq!(u64_to_decimal(42), "42");
    assert_eq!(u64_to_decimal(1000), "1000");
}

#[test]
fn decimal_largest() {
    assert_eq!(u64_to_decimal(u64::MAX), "18446744073709551615");
}

#[test]
fn centi_percent_whole_and_fraction() {
    assert_eq!(centi_percent_string(0), "0.00");
    assert_eq!(centi_percent_string(5), "0.05");
    assert_eq!(centi_percent_string(50), "0.50");
    assert_eq!(centi_percent_string(1234), "12.34");
    assert_eq!(centi_percent_string(10000), "100.00");
}

#[test]
fn mb_truncates() {
    assert_eq!(mb_of_bytes(0), 0);
    assert_eq!(mb_of_bytes(1048575), 0);
    assert_eq!(mb_of_bytes(1048576), 1);
    assert_eq!(mb_of_bytes(3 * 1048576 + 17), 3);
}

#[test]
fn parse_pid_accepts_decimal_identifiers() {
    assert_eq!(parse_pid("0"), Some(0));
    assert_eq!(parse_pid("123"), Some(123));
    assert_eq!(parse_pid("007"), Some(7));
    assert_eq!(parse_pid("+7"), Some(7));
    assert_eq!(parse_pid("4294967295"), Some(u32::MAX));
}

#[test]
fn parse_pid_rejects_commands_and_overflow() {
    assert_eq!(parse_pid(""), None);
    assert_eq!(parse_pid("ls"), None);
    assert_eq!(parse_pid("12a"), None);
    assert_eq!(parse_pid("-1"), None);
    assert_eq!(parse_pid("+"), None);
    assert_eq!(parse_pid("++1"), None);
    assert_eq!(parse_pid("4294967296"), None);
    assert_eq!(parse_pid("99999999999999999999999999"), None);
}

#[test]
fn parse_pid_agrees_with_std() {
    let cases = [
        "", "0", "00", "123", "+123", "-5", "4294967295", "4294967296", "ls", "sleep 1", " 3",
        "3 ", "+", "++2", "18446744073709551616",
    ];
    for s in cases {
        assert_eq!(parse_pid(s), s.parse::<u32>().ok(), "case {:?}", s);
    }
}
