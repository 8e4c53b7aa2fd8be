use maelstrom::error::{Error, ErrorCode};

const ALL: [ErrorCode; 11] = [
    ErrorCode::Timeout,
    ErrorCode::NodeNotFound,
    ErrorCode::NotSupported,
    ErrorCode::TemporarilyUnavailable,
    ErrorCode::MalformedRequest,
    ErrorCode::Crash,
    ErrorCode::Abort,
    ErrorCode::KeyDoesNotExist,
    ErrorCode::KeyAlreadyExists,
    ErrorCode::PreconditionFailed,
    ErrorCode::TxnConflict,
];

#[test]
fn wire_codes_match_the_protocol() {
    let codes: Vec<u16> = ALL.iter().map(|c| c.code()).collect();
    assert_eq!(codes, vec![0, 1, 10, 11, 12, 13, 14, 20, 21, 22, 30]);
}

#[test]
fn decoding_a_code_gives_the_error_back() {
    for c in ALL {
        assert_eq!(ErrorCode::from_code(c.code()), Some(c));
    }
}

#[test]
fn unknown_codes_decode_to_none() {
    for n in [2u16, 9, 15, 19, 23, 29, 31, 100, u16::MAX] {
        assert_eq!(ErrorCode::from_code(n), None);
    }
}

#[test]
fn timeout_and_crash_are_indefinite() {
    assert!(!ErrorCode::Timeout.is_definite());
    assert!(!ErrorCode::Crash.is_definite());
    assert!(ErrorCode::Abort.is_definite());
    assert!(ErrorCode::NodeNotFound.is_definite());
    assert!(ErrorCode::TxnConflict.is_definite());
    let definite = ALL.iter().filter(|c| c.is_definite()).count();
    assert_eq!(definite, 9);
}

#[test]
fn error_new_answers_message_one() {
    let e = Error::new(ErrorCode::KeyDoesNotExist, "no such key".to_string());
    assert_eq!(e.in_reply_to(), 1);
    assert_eq!(e.code(), ErrorCode::KeyDoesNotExist);
    assert_eq!(e.text(), "no such key");
}

#[test]
fn error_from_code_has_empty_text() {
    let e: Error = ErrorCode::Crash.into();
    assert_eq!(e.in_reply_to(), 1);
    assert_eq!(e.code(), ErrorCode::Crash);
    assert_eq!(e.text(), "");
}
