use quasar_rs::error::{self, is_success, makeErrorNone, ErrorType, RawPointerError};

fn table() -> Vec<(i32, ErrorType)> {
    vec![
        (0, ErrorType::Success),
        (-1342177230, ErrorType::Created),
        (-1023344641, ErrorType::ErrUninitialized),
        (-1325400056, ErrorType::ErrAliasNotFound),
        (-1325400055, ErrorType::ErrAliasAlreadyExists),
        (-1056964583, ErrorType::ErrOutOfBounds),
        (-1325400031, ErrorType::ErrSkipped),
        (-1325400030, ErrorType::ErrIncompatibleType),
        (-1325400029, ErrorType::ErrContainerEmpty),
        (-1325400028, ErrorType::ErrContainerFull),
        (-1342177243, ErrorType::ErrElementNotFound),
        (-1342177242, ErrorType::ErrElementAlreadyExists),
        (-1325400025, ErrorType::ErrOverflow),
        (-1325400024, ErrorType::ErrUnderflow),
        (-1342177239, ErrorType::ErrTagAlreadySet),
        (-1342177238, ErrorType::ErrTagNotSet),
        (-771751926, ErrorType::ErrTimeout),
        (-754974706, ErrorType::ErrConnectionRefused),
        (-771751921, ErrorType::ErrConnectionReset),
        (-771751918, ErrorType::ErrUnstableCluster),
        (-771751913, ErrorType::ErrTryAgain),
        (-1308622822, ErrorType::ErrConflict),
        (-771751909, ErrorType::ErrNotConnected),
        (-1308622803, ErrorType::ErrResourceLocked),
        (-218103807, ErrorType::ErrSystemRemote),
        (-486539263, ErrorType::ErrSystemLocal),
        (-218103806, ErrorType::ErrInternalRemote),
        (-486539262, ErrorType::ErrInternalLocal),
        (-218103805, ErrorType::ErrNoMemoryRemote),
        (-486539261, ErrorType::ErrNoMemoryLocal),
        (-1560281084, ErrorType::ErrInvalidProtocol),
        (-771751931, ErrorType::ErrHostNotFound),
        (-1056964597, ErrorType::ErrBufferTooSmall),
        (-218103791, ErrorType::ErrNotImplemented),
        (-1560281066, ErrorType::ErrInvalidVersion),
        (-1040187368, ErrorType::ErrInvalidArgument),
        (-1040187364, ErrorType::ErrInvalidHandle),
        (-1040187363, ErrorType::ErrReservedAlias),
        (-1342177250, ErrorType::ErrUnmatchedContent),
        (-1040187361, ErrorType::ErrInvalidIterator),
        (-1040187349, ErrorType::ErrEntryTooLarge),
        (-1308622804, ErrorType::ErrTransactionPartialFailure),
        (-1308622802, ErrorType::ErrOperationDisabled),
        (-1308622801, ErrorType::ErrOperationNotPermitted),
        (-1342177232, ErrorType::ErrIteratorEnd),
        (-1560281039, ErrorType::ErrInvalidReply),
        (-218103757, ErrorType::ErrNoSpaceLeft),
        (-234880972, ErrorType::ErrQuotaExceeded),
        (-1040187339, ErrorType::ErrAliasTooLong),
        (-234880970, ErrorType::ErrClockSkew),
        (-1308622793, ErrorType::ErrAccessDenied),
        (-234880968, ErrorType::ErrLoginFailed),
        (-1325400007, ErrorType::ErrColumnNotFound),
        (-1308622784, ErrorType::ErrQueryTooComplex),
        (-1040187327, ErrorType::ErrInvalidCryptoKey),
        (-1040187326, ErrorType::ErrInvalidQuery),
        (-1040187325, ErrorType::ErrInvalidRegex),
        (-1040187324, ErrorType::ErrUnknownUser),
        (-1308622779, ErrorType::ErrInterrupted),
        (-771751866, ErrorType::ErrNetworkInbufTooSmall),
        (-771751865, ErrorType::ErrNetworkError),
        (-218103736, ErrorType::ErrDataCorruption),
    ]
}

#[test]
fn every_known_status_maps_to_its_outcome() {
    let table = table();
    assert_eq!(table.len(), 62);
    for (code, outcome) in table {
        assert_eq!(ErrorType::from_qdb_error_origin_t(code), outcome);
    }
}

#[test]
fn named_constants_hold_the_statuses_of_the_table() {
    let named: Vec<(i32, i32)> = vec![
        (error::QDB_E_OK, 0),
        (error::QDB_E_OK_CREATED, -1342177230),
        (error::QDB_E_UNINITIALIZED, -1023344641),
        (error::QDB_E_ALIAS_NOT_FOUND, -1325400056),
        (error::QDB_E_ALIAS_ALREADY_EXISTS, -1325400055),
        (error::QDB_E_OUT_OF_BOUNDS, -1056964583),
        (error::QDB_E_SKIPPED, -1325400031),
        (error::QDB_E_INCOMPATIBLE_TYPE, -1325400030),
        (error::QDB_E_CONTAINER_EMPTY, -1325400029),
        (error::QDB_E_CONTAINER_FULL, -1325400028),
        (error::QDB_E_ELEMENT_NOT_FOUND, -1342177243),
        (error::QDB_E_ELEMENT_ALREADY_EXISTS, -1342177242),
        (error::QDB_E_OVERFLOW, -1325400025),
        (error::QDB_E_UNDERFLOW, -1325400024),
        (error::QDB_E_TAG_ALREADY_SET, -1342177239),
        (error::QDB_E_TAG_NOT_SET, -1342177238),
        (error::QDB_E_TIMEOUT, -771751926),
        (error::QDB_E_CONNECTION_REFUSED, -754974706),
        (error::QDB_E_CONNECTION_RESET, -771751921),
        (error::QDB_E_UNSTABLE_CLUSTER, -771751918),
        (error::QDB_E_TRY_AGAIN, -771751913),
        (error::QDB_E_CONFLICT, -1308622822),
        (error::QDB_E_NOT_CONNECTED, -771751909),
        (error::QDB_E_RESOURCE_LOCKED, -1308622803),
        (error::QDB_E_SYSTEM_REMOTE, -218103807),
        (error::QDB_E_SYSTEM_LOCAL, -486539263),
        (error::QDB_E_INTERNAL_REMOTE, -218103806),
        (error::QDB_E_INTERNAL_LOCAL, -486539262),
        (error::QDB_E_NO_MEMORY_REMOTE, -218103805),
        (error::QDB_E_NO_MEMORY_LOCAL, -486539261),
        (error::QDB_E_INVALID_PROTOCOL, -1560281084),
        (error::QDB_E_HOST_NOT_FOUND, -771751931),
        (error::QDB_E_BUFFER_TOO_SMALL, -1056964597),
        (error::QDB_E_NOT_IMPLEMENTED, -218103791),
        (error::QDB_E_INVALID_VERSION, -1560281066),
        (error::QDB_E_INVALID_ARGUMENT, -1040187368),
        (error::QDB_E_INVALID_HANDLE, -1040187364),
        (error::QDB_E_RESERVED_ALIAS, -1040187363),
        (error::QDB_E_UNMATCHED_CONTENT, -1342177250),
        (error::QDB_E_INVALID_ITERATOR, -1040187361),
        (error::QDB_E_ENTRY_TOO_LARGE, -1040187349),
        (error::QDB_E_TRANSACTION_PARTIAL_FAILURE, -1308622804),
        (error::QDB_E_OPERATION_DISABLED, -1308622802),
        (error::QDB_E_OPERATION_NOT_PERMITTED, -1308622801),
        (error::QDB_E_ITERATOR_END, -1342177232),
        (error::QDB_E_INVALID_REPLY, -1560281039),
        (error::QDB_E_NO_SPACE_LEFT, -218103757),
        (error::QDB_E_QUOTA_EXCEEDED, -234880972),
        (error::QDB_E_ALIAS_TOO_LONG, -1040187339),
        (error::QDB_E_CLOCK_SKEW, -234880970),
        (error::QDB_E_ACCESS_DENIED, -1308622793),
        (error::QDB_E_LOGIN_FAILED, -234880968),
        (error::QDB_E_COLUMN_NOT_FOUND, -1325400007),
        (error::QDB_E_QUERY_TOO_COMPLEX, -1308622784),
        (error::QDB_E_INVALID_CRYPTO_KEY, -1040187327),
        (error::QDB_E_INVALID_QUERY, -1040187326),
        (error::QDB_E_INVALID_REGEX, -1040187325),
        (error::QDB_E_UNKNOWN_USER, -1040187324),
        (error::QDB_E_INTERRUPTED, -1308622779),
        (error::QDB_E_NETWORK_INBUF_TOO_SMALL, -771751866),
        (error::QDB_E_NETWORK_ERROR, -771751865),
        (error::QDB_E_DATA_CORRUPTION, -218103736),
    ];
    for (constant, value) in named {
        assert_eq!(constant, value);
    }
}

#[test]
fn unknown_statuses_map_to_the_catch_all() {
    for code in [1, -1, 42, -42, 12345, i32::MAX, i32::MIN, -486539264, -486539260, 65535] {
        assert_eq!(ErrorType::from_qdb_error_origin_t(code), ErrorType::ErrUnknownError);
    }
}

#[test]
fn known_statuses_are_pairwise_distinct() {
    let table = table();
    for (i, (a, x)) in table.iter().enumerate() {
        for (j, (b, y)) in table.iter().enumerate() {
            if i != j {
                assert_ne!(a, b);
                assert_ne!(x, y);
            }
        }
    }
}

#[test]
fn status_of_an_outcome_maps_back_to_it() {
    for (code, outcome) in table() {
        assert_eq!(outcome.code(), Some(code));
        assert_eq!(ErrorType::from_qdb_error_origin_t(outcome.code().unwrap()), outcome);
    }
    assert_eq!(ErrorType::ErrUnknownError.code(), Some(-42));
    assert_eq!(error::QDB_E_UNKNOWN, -42);
    assert_eq!(ErrorType::from_qdb_error_origin_t(-42), ErrorType::ErrUnknownError);
}

#[test]
fn local_outcomes_have_no_status() {
    assert_eq!(ErrorType::ErrClusterKeyNotFound.code(), None);
    assert_eq!(ErrorType::ErrUserCredentialsNotFound.code(), None);
}

#[test]
fn success_is_ok_and_ok_created_only() {
    assert!(is_success(0));
    assert!(is_success(-1342177230));
    for (code, outcome) in table() {
        let expected = outcome == ErrorType::Success || outcome == ErrorType::Created;
        assert_eq!(is_success(code), expected);
    }
    for code in [1, -1, -42, 50, i32::MAX, i32::MIN] {
        assert!(!is_success(code));
    }
}

#[test]
fn make_error_none_drops_success_and_names_failure() {
    assert_eq!(makeErrorNone(0), None);
    assert_eq!(makeErrorNone(-1342177230), None);
    assert_eq!(makeErrorNone(-771751926), Some(ErrorType::ErrTimeout));
    assert_eq!(makeErrorNone(-1308622802), Some(ErrorType::ErrOperationDisabled));
    assert_eq!(makeErrorNone(-771751918), Some(ErrorType::ErrUnstableCluster));
    assert_eq!(makeErrorNone(7), Some(ErrorType::ErrUnknownError));
    for (code, outcome) in table() {
        if outcome != ErrorType::Success && outcome != ErrorType::Created {
            assert_eq!(makeErrorNone(code), Some(outcome));
        }
    }
}

#[test]
fn system_local_is_the_status_of_a_conversion_failure() {
    assert_eq!(error::QDB_E_SYSTEM_LOCAL, -486539263);
    let failure = RawPointerError("nothing to read".to_string());
    assert_eq!(failure.error_code(), -486539263);
    assert_eq!(failure.error_message(), "nothing to read");
    assert_eq!(
        ErrorType::from_qdb_error_origin_t(failure.error_code()),
        ErrorType::ErrSystemLocal
    );
}

#[test]
fn outcomes_print_their_names() {
    assert_eq!(format!("{:?}", ErrorType::ErrAliasNotFound), "ErrAliasNotFound");
    assert_eq!(format!("{:?}", ErrorType::Success), "Success");
}
