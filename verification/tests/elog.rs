use timescale_extension_utils::elog::{c_message, log_step, Level, LogStep, UNPRINTABLE_MESSAGE};

const LEVELS: [Level; 13] = [
    Level::Debug5,
    Level::Debug4,
    Level::Debug3,
    Level::Debug2,
    Level::Debug1,
    Level::Log,
    Level::LogServerOnly,
    Level::Info,
    Level::Notice,
    Level::Warning,
    Level::Error,
    Level::Fatal,
    Level::Panic,
];

#[test]
fn levels_have_the_codes_of_the_server() {
    let codes: Vec<i32> = LEVELS.iter().map(|level| i32::from(*level)).collect();
    assert_eq!(codes, vec![10, 11, 12, 13, 14, 15, 16, 17, 18, 19, 20, 21, 22]);
}

#[test]
fn no_two_levels_share_a_code() {
    for (i, a) in LEVELS.iter().enumerate() {
        for (j, b) in LEVELS.iter().enumerate() {
            assert_eq!(i32::from(*a) == i32::from(*b), i == j);
        }
    }
}

#[test]
fn errors_and_worse_are_raised() {
    for level in LEVELS {
        assert_eq!(level.is_raised(), i32::from(level) >= 20);
    }
    assert!(!Level::Warning.is_raised());
    assert!(Level::Error.is_raised());
}

#[test]
fn a_message_ends_in_a_zero_byte() {
    assert_eq!(c_message("hello"), b"hello\0".to_vec());
    assert_eq!(c_message(""), vec![0]);
    assert_eq!(c_message("gr\u{fc}n"), vec![b'g', b'r', 0xc3, 0xbc, b'n', 0]);
}

#[test]
fn a_message_with_a_zero_byte_is_replaced() {
    let mut expected = UNPRINTABLE_MESSAGE.as_bytes().to_vec();
    expected.push(0);
    assert_eq!(c_message("bro\0ken"), expected);
    assert_eq!(c_message("\0"), expected);
    assert_eq!(c_message("tail\0"), expected);
    assert_eq!(
        UNPRINTABLE_MESSAGE,
        "failed to convert msg to a CString, check extension code for incompatible `CString` messages"
    );
}

#[test]
fn a_filtered_report_sends_nothing() {
    assert_eq!(log_step(false, "hello"), LogStep::Skip);
    assert_eq!(log_step(false, "bro\0ken"), LogStep::Skip);
}

#[test]
fn a_wanted_report_sends_the_message() {
    assert_eq!(log_step(true, "hello"), LogStep::Send(b"hello\0".to_vec()));
    let mut expected = UNPRINTABLE_MESSAGE.as_bytes().to_vec();
    expected.push(0);
    assert_eq!(log_step(true, "bro\0ken"), LogStep::Send(expected));
}
