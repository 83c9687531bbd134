use printnanny_nats::decimal::{format_i32, parse_i32, parse_u32, IntErrorKind};
use printnanny_nats::subjects::{pi_subject, to_nats_command_subscribe_subject};

#[test]
fn util_test_to_nats_command_subscribe_subject() {
    assert_eq!(to_nats_command_subscribe_subject(&3), "pi.3.command.>");
}

#[test]
fn pi_subject_writes_negative_and_extreme_ids() {
    assert_eq!(pi_subject(-42, "status.boot"), "pi.-42.status.boot");
    assert_eq!(pi_subject(i32::MIN, "x"), "pi.-2147483648.x");
    assert_eq!(pi_subject(0, ""), "pi.0.");
}

#[test]
fn format_i32_matches_std() {
    for x in [0, 7, 10, 99, 100, -1, -10, 2147483647, -2147483648, 123456789] {
        assert_eq!(format_i32(x), x.to_string());
    }
}

#[test]
fn parse_i32_matches_std() {
    for s in [
        "0", "-0", "+5", "-2147483648", "2147483647", "2147483648", "-2147483649", "", "+", "-",
        "12a", "a", "007", "--1", "+-1", " 1",
    ] {
        let ours = parse_i32(s);
        let theirs = s.parse::<i32>();
        match (ours, theirs) {
            (Ok(a), Ok(b)) => assert_eq!(a, b),
            (Err(a), Err(b)) => assert_eq!(format!("{:?}", a.kind), format!("{:?}", b.kind())),
            (a, b) => panic!("{:?} disagrees with {:?} on {}", a, b, s),
        }
    }
}

#[test]
fn parse_u32_matches_std() {
    for s in ["0", "+5", "4294967295", "4294967296", "", "+", "-", "-1", "1x", "99999999999x"] {
        let ours = parse_u32(s);
        let theirs = s.parse::<u32>();
        match (ours, theirs) {
            (Ok(a), Ok(b)) => assert_eq!(a, b),
            (Err(a), Err(b)) => assert_eq!(format!("{:?}", a.kind), format!("{:?}", b.kind())),
            (a, b) => panic!("{:?} disagrees with {:?} on {}", a, b, s),
        }
    }
    assert_eq!(parse_u32("").unwrap_err().kind, IntErrorKind::Empty);
}
