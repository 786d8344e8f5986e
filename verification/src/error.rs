use vstd::prelude::*;

verus! {

/// The integer type in which the client API reports the status of a call.
pub type qdb_error_origin_t = i32;

// A status packs three fields into 32 bits: the origin in the top four bits
// (0xf remote system, 0xe local system, 0xd connection, 0xc input,
// 0xb operation, 0xa protocol), the severity in the next four (3 unrecoverable,
// 2 error, 1 warning, 0 informational) and a number in the low sixteen.
// Read as a signed integer, every status but `QDB_E_OK` is negative.

/// Success.
pub const QDB_E_OK: i32 = 0;

/// Success. A new entry has been created. Origin operation, severity info, number 0x0032.
pub const QDB_E_OK_CREATED: i32 = -1342177230;

/// Uninitialized error. Origin input, severity unrecoverable, number 0xffff.
pub const QDB_E_UNINITIALIZED: i32 = -1023344641;

/// Entry alias/key was not found. Origin operation, severity warning, number 0x0008.
pub const QDB_E_ALIAS_NOT_FOUND: i32 = -1325400056;

/// Entry alias/key already exists. Origin operation, severity warning, number 0x0009.
pub const QDB_E_ALIAS_ALREADY_EXISTS: i32 = -1325400055;

/// Index out of bounds. Origin input, severity warning, number 0x0019.
pub const QDB_E_OUT_OF_BOUNDS: i32 = -1056964583;

/// Skipped operation. Used in batches and transactions. Origin operation, severity warning, number
/// 0x0021.
pub const QDB_E_SKIPPED: i32 = -1325400031;

/// Entry or column is incompatible with the operation. Origin operation, severity warning, number
/// 0x0022.
pub const QDB_E_INCOMPATIBLE_TYPE: i32 = -1325400030;

/// Container is empty. Origin operation, severity warning, number 0x0023.
pub const QDB_E_CONTAINER_EMPTY: i32 = -1325400029;

/// Container is full. Origin operation, severity warning, number 0x0024.
pub const QDB_E_CONTAINER_FULL: i32 = -1325400028;

/// Element was not found. Origin operation, severity info, number 0x0025.
pub const QDB_E_ELEMENT_NOT_FOUND: i32 = -1342177243;

/// Element already exists. Origin operation, severity info, number 0x0026.
pub const QDB_E_ELEMENT_ALREADY_EXISTS: i32 = -1342177242;

/// Arithmetic operation overflows. Origin operation, severity warning, number 0x0027.
pub const QDB_E_OVERFLOW: i32 = -1325400025;

/// Arithmetic operation underflows. Origin operation, severity warning, number 0x0028.
pub const QDB_E_UNDERFLOW: i32 = -1325400024;

/// Tag is already set. Origin operation, severity info, number 0x0029.
pub const QDB_E_TAG_ALREADY_SET: i32 = -1342177239;

/// Tag is not set. Origin operation, severity info, number 0x002a.
pub const QDB_E_TAG_NOT_SET: i32 = -1342177238;

/// Operation timed out. Origin connection, severity error, number 0x000a.
pub const QDB_E_TIMEOUT: i32 = -771751926;

/// Connection was refused. Origin connection, severity unrecoverable, number 0x000e.
pub const QDB_E_CONNECTION_REFUSED: i32 = -754974706;

/// Connection was reset. Origin connection, severity error, number 0x000f.
pub const QDB_E_CONNECTION_RESET: i32 = -771751921;

/// Cluster is unstable. Origin connection, severity error, number 0x0012.
pub const QDB_E_UNSTABLE_CLUSTER: i32 = -771751918;

/// Please retry. Origin connection, severity error, number 0x0017.
pub const QDB_E_TRY_AGAIN: i32 = -771751913;

/// There is another ongoing conflicting operation. Origin operation, severity error, number 0x001a.
pub const QDB_E_CONFLICT: i32 = -1308622822;

/// Handle is not connected. Origin connection, severity error, number 0x001b.
pub const QDB_E_NOT_CONNECTED: i32 = -771751909;

/// Resource is locked. Origin operation, severity error, number 0x002d.
pub const QDB_E_RESOURCE_LOCKED: i32 = -1308622803;

/// System error on remote node (server-side). Origin system remote, severity unrecoverable, number
/// 0x0001.
pub const QDB_E_SYSTEM_REMOTE: i32 = -218103807;

/// System error on local system (client-side). Origin system local, severity unrecoverable, number
/// 0x0001.
pub const QDB_E_SYSTEM_LOCAL: i32 = -486539263;

/// Internal error on remote node (server-side). Origin system remote, severity unrecoverable,
/// number 0x0002.
pub const QDB_E_INTERNAL_REMOTE: i32 = -218103806;

/// Internal error on local system (client-side). Origin system local, severity unrecoverable,
/// number 0x0002.
pub const QDB_E_INTERNAL_LOCAL: i32 = -486539262;

/// No memory on remote node (server-side). Origin system remote, severity unrecoverable, number
/// 0x0003.
pub const QDB_E_NO_MEMORY_REMOTE: i32 = -218103805;

/// No memory on local system (client-side). Origin system local, severity unrecoverable, number
/// 0x0003.
pub const QDB_E_NO_MEMORY_LOCAL: i32 = -486539261;

/// Protocol is invalid. Origin protocol, severity unrecoverable, number 0x0004.
pub const QDB_E_INVALID_PROTOCOL: i32 = -1560281084;

/// Host was not found. Origin connection, severity error, number 0x0005.
pub const QDB_E_HOST_NOT_FOUND: i32 = -771751931;

/// Buffer is too small. Origin input, severity warning, number 0x000b.
pub const QDB_E_BUFFER_TOO_SMALL: i32 = -1056964597;

/// Operation is not implemented. Origin system remote, severity unrecoverable, number 0x0011.
pub const QDB_E_NOT_IMPLEMENTED: i32 = -218103791;

/// Version is invalid. Origin protocol, severity unrecoverable, number 0x0016.
pub const QDB_E_INVALID_VERSION: i32 = -1560281066;

/// Argument is invalid. Origin input, severity error, number 0x0018.
pub const QDB_E_INVALID_ARGUMENT: i32 = -1040187368;

/// Handle is invalid. Origin input, severity error, number 0x001c.
pub const QDB_E_INVALID_HANDLE: i32 = -1040187364;

/// Alias/key is reserved. Origin input, severity error, number 0x001d.
pub const QDB_E_RESERVED_ALIAS: i32 = -1040187363;

/// Content did not match. Origin operation, severity info, number 0x001e.
pub const QDB_E_UNMATCHED_CONTENT: i32 = -1342177250;

/// Iterator is invalid. Origin input, severity error, number 0x001f.
pub const QDB_E_INVALID_ITERATOR: i32 = -1040187361;

/// Entry is too large. Origin input, severity error, number 0x002b.
pub const QDB_E_ENTRY_TOO_LARGE: i32 = -1040187349;

/// Transaction failed partially. Origin operation, severity error, number 0x002c.
pub const QDB_E_TRANSACTION_PARTIAL_FAILURE: i32 = -1308622804;

/// Operation has not been enabled in cluster configuration. Origin operation, severity error,
/// number 0x002e.
pub const QDB_E_OPERATION_DISABLED: i32 = -1308622802;

/// Operation is not permitted. Origin operation, severity error, number 0x002f.
pub const QDB_E_OPERATION_NOT_PERMITTED: i32 = -1308622801;

/// Iterator reached the end. Origin operation, severity info, number 0x0030.
pub const QDB_E_ITERATOR_END: i32 = -1342177232;

/// Cluster sent an invalid reply. Origin protocol, severity unrecoverable, number 0x0031.
pub const QDB_E_INVALID_REPLY: i32 = -1560281039;

/// No more space on disk. Origin system remote, severity unrecoverable, number 0x0033.
pub const QDB_E_NO_SPACE_LEFT: i32 = -218103757;

/// Disk space quota has been reached. Origin system remote, severity error, number 0x0034.
pub const QDB_E_QUOTA_EXCEEDED: i32 = -234880972;

/// Alias is too long. Origin input, severity error, number 0x0035.
pub const QDB_E_ALIAS_TOO_LONG: i32 = -1040187339;

/// Cluster nodes have important clock differences. Origin system remote, severity error, number
/// 0x0036.
pub const QDB_E_CLOCK_SKEW: i32 = -234880970;

/// Access is denied. Origin operation, severity error, number 0x0037.
pub const QDB_E_ACCESS_DENIED: i32 = -1308622793;

/// Login failed. Origin system remote, severity error, number 0x0038.
pub const QDB_E_LOGIN_FAILED: i32 = -234880968;

/// Column was not found. Origin operation, severity warning, number 0x0039.
pub const QDB_E_COLUMN_NOT_FOUND: i32 = -1325400007;

/// Query is too complex. Origin operation, severity error, number 0x0040.
pub const QDB_E_QUERY_TOO_COMPLEX: i32 = -1308622784;

/// Security key is invalid. Origin input, severity error, number 0x0041.
pub const QDB_E_INVALID_CRYPTO_KEY: i32 = -1040187327;

/// Malformed query. Origin input, severity error, number 0x0042.
pub const QDB_E_INVALID_QUERY: i32 = -1040187326;

/// Malformed regular expression. Origin input, severity error, number 0x0043.
pub const QDB_E_INVALID_REGEX: i32 = -1040187325;

/// Unknown user. Origin input, severity error, number 0x0044.
pub const QDB_E_UNKNOWN_USER: i32 = -1040187324;

/// Task has been interrupted. Origin operation, severity error, number 0x0045.
pub const QDB_E_INTERRUPTED: i32 = -1308622779;

/// Client network buffer is too small. Origin connection, severity error, number 0x0046.
pub const QDB_E_NETWORK_INBUF_TOO_SMALL: i32 = -771751866;

/// Generic network error. Origin connection, severity error, number 0x0047.
pub const QDB_E_NETWORK_ERROR: i32 = -771751865;

/// Corrupted data. Origin system remote, severity unrecoverable, number 0x0048.
pub const QDB_E_DATA_CORRUPTION: i32 = -218103736;

/// The status that stands for a code this layer has no name for. It is not a
/// status of the client API.
pub const QDB_E_UNKNOWN: i32 = -42;

/// The outcome of a call: the two kinds of success, one kind for each failure
/// the client API reports, a catch-all for codes without a name, and two kinds
/// for failures that arise locally, before any call is made.
#[derive(Debug, Clone, Copy, PartialEq, Eq, Structural)]
pub enum ErrorType {
    /// A status that has no name here.
    ErrUnknownError,
    /// Success.
    Success,
    /// Success. A new entry has been created.
    Created,
    /// Uninitialized error.
    ErrUninitialized,
    /// Entry alias/key was not found.
    ErrAliasNotFound,
    /// Entry alias/key already exists.
    ErrAliasAlreadyExists,
    /// Index out of bounds.
    ErrOutOfBounds,
    /// Skipped operation. Used in batches and transactions.
    ErrSkipped,
    /// Entry or column is incompatible with the operation.
    ErrIncompatibleType,
    /// Container is empty.
    ErrContainerEmpty,
    /// Container is full.
    ErrContainerFull,
    /// Element was not found.
    ErrElementNotFound,
    /// Element already exists.
    ErrElementAlreadyExists,
    /// Arithmetic operation overflows.
    ErrOverflow,
    /// Arithmetic operation underflows.
    ErrUnderflow,
    /// Tag is already set.
    ErrTagAlreadySet,
    /// Tag is not set.
    ErrTagNotSet,
    /// Operation timed out.
    ErrTimeout,
    /// Connection was refused.
    ErrConnectionRefused,
    /// Connection was reset.
    ErrConnectionReset,
    /// Cluster is unstable.
    ErrUnstableCluster,
    /// Please retry.
    ErrTryAgain,
    /// There is another ongoing conflicting operation.
    ErrConflict,
    /// Handle is not connected.
    ErrNotConnected,
    /// Resource is locked.
    ErrResourceLocked,
    /// System error on remote node (server-side).
    ErrSystemRemote,
    /// System error on local system (client-side).
    ErrSystemLocal,
    /// Internal error on remote node (server-side).
    ErrInternalRemote,
    /// Internal error on local system (client-side).
    ErrInternalLocal,
    /// No memory on remote node (server-side).
    ErrNoMemoryRemote,
    /// No memory on local system (client-side).
    ErrNoMemoryLocal,
    /// Protocol is invalid.
    ErrInvalidProtocol,
    /// Host was not found.
    ErrHostNotFound,
    /// Buffer is too small.
    ErrBufferTooSmall,
    /// Operation is not implemented.
    ErrNotImplemented,
    /// Version is invalid.
    ErrInvalidVersion,
    /// Argument is invalid.
    ErrInvalidArgument,
    /// Handle is invalid.
    ErrInvalidHandle,
    /// Alias/key is reserved.
    ErrReservedAlias,
    /// Content did not match.
    ErrUnmatchedContent,
    /// Iterator is invalid.
    ErrInvalidIterator,
    /// Entry is too large.
    ErrEntryTooLarge,
    /// Transaction failed partially.
    ErrTransactionPartialFailure,
    /// Operation has not been enabled in cluster configuration.
    ErrOperationDisabled,
    /// Operation is not permitted.
    ErrOperationNotPermitted,
    /// Iterator reached the end.
    ErrIteratorEnd,
    /// Cluster sent an invalid reply.
    ErrInvalidReply,
    /// No more space on disk.
    ErrNoSpaceLeft,
    /// Disk space quota has been reached.
    ErrQuotaExceeded,
    /// Alias is too long.
    ErrAliasTooLong,
    /// Cluster nodes have important clock differences.
    ErrClockSkew,
    /// Access is denied.
    ErrAccessDenied,
    /// Login failed.
    ErrLoginFailed,
    /// Column was not found.
    ErrColumnNotFound,
    /// Query is too complex.
    ErrQueryTooComplex,
    /// Security key is invalid.
    ErrInvalidCryptoKey,
    /// Malformed query.
    ErrInvalidQuery,
    /// Malformed regular expression.
    ErrInvalidRegex,
    /// Unknown user.
    ErrUnknownUser,
    /// Task has been interrupted.
    ErrInterrupted,
    /// Client network buffer is too small.
    ErrNetworkInbufTooSmall,
    /// Generic network error.
    ErrNetworkError,
    /// Corrupted data.
    ErrDataCorruption,
    /// The cluster public key could not be loaded.
    ErrClusterKeyNotFound,
    /// The user credentials could not be loaded.
    ErrUserCredentialsNotFound,
}

/// Whether `code` reports success: plain success, or success with a new entry.
pub open spec fn is_success_code(code: i32) -> bool {
    code == QDB_E_OK || code == QDB_E_OK_CREATED
}

/// The status that stands for an outcome: that of the client API, or
/// `QDB_E_UNKNOWN` for the catch-all. None for the two kinds that arise
/// locally.
pub open spec fn code_of(outcome: ErrorType) -> Option<i32> {
    match outcome {
        ErrorType::ErrUnknownError => Some(QDB_E_UNKNOWN),
        ErrorType::Success => Some(QDB_E_OK),
        ErrorType::Created => Some(QDB_E_OK_CREATED),
        ErrorType::ErrUninitialized => Some(QDB_E_UNINITIALIZED),
        ErrorType::ErrAliasNotFound => Some(QDB_E_ALIAS_NOT_FOUND),
        ErrorType::ErrAliasAlreadyExists => Some(QDB_E_ALIAS_ALREADY_EXISTS),
        ErrorType::ErrOutOfBounds => Some(QDB_E_OUT_OF_BOUNDS),
        ErrorType::ErrSkipped => Some(QDB_E_SKIPPED),
        ErrorType::ErrIncompatibleType => Some(QDB_E_INCOMPATIBLE_TYPE),
        ErrorType::ErrContainerEmpty => Some(QDB_E_CONTAINER_EMPTY),
        ErrorType::ErrContainerFull => Some(QDB_E_CONTAINER_FULL),
        ErrorType::ErrElementNotFound => Some(QDB_E_ELEMENT_NOT_FOUND),
        ErrorType::ErrElementAlreadyExists => Some(QDB_E_ELEMENT_ALREADY_EXISTS),
        ErrorType::ErrOverflow => Some(QDB_E_OVERFLOW),
        ErrorType::ErrUnderflow => Some(QDB_E_UNDERFLOW),
        ErrorType::ErrTagAlreadySet => Some(QDB_E_TAG_ALREADY_SET),
        ErrorType::ErrTagNotSet => Some(QDB_E_TAG_NOT_SET),
        ErrorType::ErrTimeout => Some(QDB_E_TIMEOUT),
        ErrorType::ErrConnectionRefused => Some(QDB_E_CONNECTION_REFUSED),
        ErrorType::ErrConnectionReset => Some(QDB_E_CONNECTION_RESET),
        ErrorType::ErrUnstableCluster => Some(QDB_E_UNSTABLE_CLUSTER),
        ErrorType::ErrTryAgain => Some(QDB_E_TRY_AGAIN),
        ErrorType::ErrConflict => Some(QDB_E_CONFLICT),
        ErrorType::ErrNotConnected => Some(QDB_E_NOT_CONNECTED),
        ErrorType::ErrResourceLocked => Some(QDB_E_RESOURCE_LOCKED),
        ErrorType::ErrSystemRemote => Some(QDB_E_SYSTEM_REMOTE),
        ErrorType::ErrSystemLocal => Some(QDB_E_SYSTEM_LOCAL),
        ErrorType::ErrInternalRemote => Some(QDB_E_INTERNAL_REMOTE),
        ErrorType::ErrInternalLocal => Some(QDB_E_INTERNAL_LOCAL),
        ErrorType::ErrNoMemoryRemote => Some(QDB_E_NO_MEMORY_REMOTE),
        ErrorType::ErrNoMemoryLocal => Some(QDB_E_NO_MEMORY_LOCAL),
        ErrorType::ErrInvalidProtocol => Some(QDB_E_INVALID_PROTOCOL),
        ErrorType::ErrHostNotFound => Some(QDB_E_HOST_NOT_FOUND),
        ErrorType::ErrBufferTooSmall => Some(QDB_E_BUFFER_TOO_SMALL),
        ErrorType::ErrNotImplemented => Some(QDB_E_NOT_IMPLEMENTED),
        ErrorType::ErrInvalidVersion => Some(QDB_E_INVALID_VERSION),
        ErrorType::ErrInvalidArgument => Some(QDB_E_INVALID_ARGUMENT),
        ErrorType::ErrInvalidHandle => Some(QDB_E_INVALID_HANDLE),
        ErrorType::ErrReservedAlias => Some(QDB_E_RESERVED_ALIAS),
        ErrorType::ErrUnmatchedContent => Some(QDB_E_UNMATCHED_CONTENT),
        ErrorType::ErrInvalidIterator => Some(QDB_E_INVALID_ITERATOR),
        ErrorType::ErrEntryTooLarge => Some(QDB_E_ENTRY_TOO_LARGE),
        ErrorType::ErrTransactionPartialFailure => Some(QDB_E_TRANSACTION_PARTIAL_FAILURE),
        ErrorType::ErrOperationDisabled => Some(QDB_E_OPERATION_DISABLED),
        ErrorType::ErrOperationNotPermitted => Some(QDB_E_OPERATION_NOT_PERMITTED),
        ErrorType::ErrIteratorEnd => Some(QDB_E_ITERATOR_END),
        ErrorType::ErrInvalidReply => Some(QDB_E_INVALID_REPLY),
        ErrorType::ErrNoSpaceLeft => Some(QDB_E_NO_SPACE_LEFT),
        ErrorType::ErrQuotaExceeded => Some(QDB_E_QUOTA_EXCEEDED),
        ErrorType::ErrAliasTooLong => Some(QDB_E_ALIAS_TOO_LONG),
        ErrorType::ErrClockSkew => Some(QDB_E_CLOCK_SKEW),
        ErrorType::ErrAccessDenied => Some(QDB_E_ACCESS_DENIED),
        ErrorType::ErrLoginFailed => Some(QDB_E_LOGIN_FAILED),
        ErrorType::ErrColumnNotFound => Some(QDB_E_COLUMN_NOT_FOUND),
        ErrorType::ErrQueryTooComplex => Some(QDB_E_QUERY_TOO_COMPLEX),
        ErrorType::ErrInvalidCryptoKey => Some(QDB_E_INVALID_CRYPTO_KEY),
        ErrorType::ErrInvalidQuery => Some(QDB_E_INVALID_QUERY),
        ErrorType::ErrInvalidRegex => Some(QDB_E_INVALID_REGEX),
        ErrorType::ErrUnknownUser => Some(QDB_E_UNKNOWN_USER),
        ErrorType::ErrInterrupted => Some(QDB_E_INTERRUPTED),
        ErrorType::ErrNetworkInbufTooSmall => Some(QDB_E_NETWORK_INBUF_TOO_SMALL),
        ErrorType::ErrNetworkError => Some(QDB_E_NETWORK_ERROR),
        ErrorType::ErrDataCorruption => Some(QDB_E_DATA_CORRUPTION),
        ErrorType::ErrClusterKeyNotFound => None,
        ErrorType::ErrUserCredentialsNotFound => None,
    }
}

/// Whether `code` is one of the statuses that has a name of its own.
pub open spec fn is_known_code(code: i32) -> bool {
    exists|outcome: ErrorType|
        outcome != ErrorType::ErrUnknownError && #[trigger] code_of(outcome) == Some(code)
}

/// The outcome that a status stands for: its own name where it has one, the
/// catch-all otherwise.
pub open spec fn outcome_of(code: i32) -> ErrorType {
    if code == QDB_E_OK {
        ErrorType::Success
    } else if code == QDB_E_OK_CREATED {
        ErrorType::Created
    } else if code == QDB_E_UNINITIALIZED {
        ErrorType::ErrUninitialized
    } else if code == QDB_E_ALIAS_NOT_FOUND {
        ErrorType::ErrAliasNotFound
    } else if code == QDB_E_ALIAS_ALREADY_EXISTS {
        ErrorType::ErrAliasAlreadyExists
    } else if code == QDB_E_OUT_OF_BOUNDS {
        ErrorType::ErrOutOfBounds
    } else if code == QDB_E_SKIPPED {
        ErrorType::ErrSkipped
    } else if code == QDB_E_INCOMPATIBLE_TYPE {
        ErrorType::ErrIncompatibleType
    } else if code == QDB_E_CONTAINER_EMPTY {
        ErrorType::ErrContainerEmpty
    } else if code == QDB_E_CONTAINER_FULL {
        ErrorType::ErrContainerFull
    } else if code == QDB_E_ELEMENT_NOT_FOUND {
        ErrorType::ErrElementNotFound
    } else if code == QDB_E_ELEMENT_ALREADY_EXISTS {
        ErrorType::ErrElementAlreadyExists
    } else if code == QDB_E_OVERFLOW {
        ErrorType::ErrOverflow
    } else if code == QDB_E_UNDERFLOW {
        ErrorType::ErrUnderflow
    } else if code == QDB_E_TAG_ALREADY_SET {
        ErrorType::ErrTagAlreadySet
    } else if code == QDB_E_TAG_NOT_SET {
        ErrorType::ErrTagNotSet
    } else if code == QDB_E_TIMEOUT {
        ErrorType::ErrTimeout
    } else if code == QDB_E_CONNECTION_REFUSED {
        ErrorType::ErrConnectionRefused
    } else if code == QDB_E_CONNECTION_RESET {
        ErrorType::ErrConnectionReset
    } else if code == QDB_E_UNSTABLE_CLUSTER {
        ErrorType::ErrUnstableCluster
    } else if code == QDB_E_TRY_AGAIN {
        ErrorType::ErrTryAgain
    } else if code == QDB_E_CONFLICT {
        ErrorType::ErrConflict
    } else if code == QDB_E_NOT_CONNECTED {
        ErrorType::ErrNotConnected
    } else if code == QDB_E_RESOURCE_LOCKED {
        ErrorType::ErrResourceLocked
    } else if code == QDB_E_SYSTEM_REMOTE {
        ErrorType::ErrSystemRemote
    } else if code == QDB_E_SYSTEM_LOCAL {
        ErrorType::ErrSystemLocal
    } else if code == QDB_E_INTERNAL_REMOTE {
        ErrorType::ErrInternalRemote
    } else if code == QDB_E_INTERNAL_LOCAL {
        ErrorType::ErrInternalLocal
    } else if code == QDB_E_NO_MEMORY_REMOTE {
        ErrorType::ErrNoMemoryRemote
    } else if code == QDB_E_NO_MEMORY_LOCAL {
        ErrorType::ErrNoMemoryLocal
    } else if code == QDB_E_INVALID_PROTOCOL {
        ErrorType::ErrInvalidProtocol
    } else if code == QDB_E_HOST_NOT_FOUND {
        ErrorType::ErrHostNotFound
    } else if code == QDB_E_BUFFER_TOO_SMALL {
        ErrorType::ErrBufferTooSmall
    } else if code == QDB_E_NOT_IMPLEMENTED {
        ErrorType::ErrNotImplemented
    } else if code == QDB_E_INVALID_VERSION {
        ErrorType::ErrInvalidVersion
    } else if code == QDB_E_INVALID_ARGUMENT {
        ErrorType::ErrInvalidArgument
    } else if code == QDB_E_INVALID_HANDLE {
        ErrorType::ErrInvalidHandle
    } else if code == QDB_E_RESERVED_ALIAS {
        ErrorType::ErrReservedAlias
    } else if code == QDB_E_UNMATCHED_CONTENT {
        ErrorType::ErrUnmatchedContent
    } else if code == QDB_E_INVALID_ITERATOR {
        ErrorType::ErrInvalidIterator
    } else if code == QDB_E_ENTRY_TOO_LARGE {
        ErrorType::ErrEntryTooLarge
    } else if code == QDB_E_TRANSACTION_PARTIAL_FAILURE {
        ErrorType::ErrTransactionPartialFailure
    } else if code == QDB_E_OPERATION_DISABLED {
        ErrorType::ErrOperationDisabled
    } else if code == QDB_E_OPERATION_NOT_PERMITTED {
        ErrorType::ErrOperationNotPermitted
    } else if code == QDB_E_ITERATOR_END {
        ErrorType::ErrIteratorEnd
    } else if code == QDB_E_INVALID_REPLY {
        ErrorType::ErrInvalidReply
    } else if code == QDB_E_NO_SPACE_LEFT {
        ErrorType::ErrNoSpaceLeft
    } else if code == QDB_E_QUOTA_EXCEEDED {
        ErrorType::ErrQuotaExceeded
    } else if code == QDB_E_ALIAS_TOO_LONG {
        ErrorType::ErrAliasTooLong
    } else if code == QDB_E_CLOCK_SKEW {
        ErrorType::ErrClockSkew
    } else if code == QDB_E_ACCESS_DENIED {
        ErrorType::ErrAccessDenied
    } else if code == QDB_E_LOGIN_FAILED {
        ErrorType::ErrLoginFailed
    } else if code == QDB_E_COLUMN_NOT_FOUND {
        ErrorType::ErrColumnNotFound
    } else if code == QDB_E_QUERY_TOO_COMPLEX {
        ErrorType::ErrQueryTooComplex
    } else if code == QDB_E_INVALID_CRYPTO_KEY {
        ErrorType::ErrInvalidCryptoKey
    } else if code == QDB_E_INVALID_QUERY {
        ErrorType::ErrInvalidQuery
    } else if code == QDB_E_INVALID_REGEX {
        ErrorType::ErrInvalidRegex
    } else if code == QDB_E_UNKNOWN_USER {
        ErrorType::ErrUnknownUser
    } else if code == QDB_E_INTERRUPTED {
        ErrorType::ErrInterrupted
    } else if code == QDB_E_NETWORK_INBUF_TOO_SMALL {
        ErrorType::ErrNetworkInbufTooSmall
    } else if code == QDB_E_NETWORK_ERROR {
        ErrorType::ErrNetworkError
    } else if code == QDB_E_DATA_CORRUPTION {
        ErrorType::ErrDataCorruption
    } else {
        ErrorType::ErrUnknownError
    }
}

/// Whether `code` reports success.
pub fn is_success(code: qdb_error_origin_t) -> (r: bool)
    ensures
        r == is_success_code(code),
{
    code == QDB_E_OK || code == QDB_E_OK_CREATED
}

/// Turns a status into an optional failure: nothing for the two kinds of
/// success, the named outcome for everything else.
pub fn makeErrorNone(err: qdb_error_origin_t) -> (r: Option<ErrorType>)
    ensures
        r == (if is_success_code(err) {
            None
        } else {
            Some(outcome_of(err))
        }),
{
    if err != QDB_E_OK && err != QDB_E_OK_CREATED {
        Some(ErrorType::from_qdb_error_origin_t(err))
    } else {
        None
    }
}

impl ErrorType {
    /// The outcome that a status of the client API stands for. Total: a status
    /// without a name gives `ErrUnknownError`.
    pub fn from_qdb_error_origin_t(err: qdb_error_origin_t) -> (r: ErrorType)
        ensures
            r == outcome_of(err),
            is_known_code(err) ==> code_of(r) == Some(err),
            !is_known_code(err) ==> r == ErrorType::ErrUnknownError,
    {
        proof {
            lemma_known_codes(err);
        }
        if err == QDB_E_OK {
            ErrorType::Success
        } else if err == QDB_E_OK_CREATED {
            ErrorType::Created
        } else if err == QDB_E_UNINITIALIZED {
            ErrorType::ErrUninitialized
        } else if err == QDB_E_ALIAS_NOT_FOUND {
            ErrorType::ErrAliasNotFound
        } else if err == QDB_E_ALIAS_ALREADY_EXISTS {
            ErrorType::ErrAliasAlreadyExists
        } else if err == QDB_E_OUT_OF_BOUNDS {
            ErrorType::ErrOutOfBounds
        } else if err == QDB_E_SKIPPED {
            ErrorType::ErrSkipped
        } else if err == QDB_E_INCOMPATIBLE_TYPE {
            ErrorType::ErrIncompatibleType
        } else if err == QDB_E_CONTAINER_EMPTY {
            ErrorType::ErrContainerEmpty
        } else if err == QDB_E_CONTAINER_FULL {
            ErrorType::ErrContainerFull
        } else if err == QDB_E_ELEMENT_NOT_FOUND {
            ErrorType::ErrElementNotFound
        } else if err == QDB_E_ELEMENT_ALREADY_EXISTS {
            ErrorType::ErrElementAlreadyExists
        } else if err == QDB_E_OVERFLOW {
            ErrorType::ErrOverflow
        } else if err == QDB_E_UNDERFLOW {
            ErrorType::ErrUnderflow
        } else if err == QDB_E_TAG_ALREADY_SET {
            ErrorType::ErrTagAlreadySet
        } else if err == QDB_E_TAG_NOT_SET {
            ErrorType::ErrTagNotSet
        } else if err == QDB_E_TIMEOUT {
            ErrorType::ErrTimeout
        } else if err == QDB_E_CONNECTION_REFUSED {
            ErrorType::ErrConnectionRefused
        } else if err == QDB_E_CONNECTION_RESET {
            ErrorType::ErrConnectionReset
        } else if err == QDB_E_UNSTABLE_CLUSTER {
            ErrorType::ErrUnstableCluster
        } else if err == QDB_E_TRY_AGAIN {
            ErrorType::ErrTryAgain
        } else if err == QDB_E_CONFLICT {
            ErrorType::ErrConflict
        } else if err == QDB_E_NOT_CONNECTED {
            ErrorType::ErrNotConnected
        } else if err == QDB_E_RESOURCE_LOCKED {
            ErrorType::ErrResourceLocked
        } else if err == QDB_E_SYSTEM_REMOTE {
            ErrorType::ErrSystemRemote
        } else if err == QDB_E_SYSTEM_LOCAL {
            ErrorType::ErrSystemLocal
        } else if err == QDB_E_INTERNAL_REMOTE {
            ErrorType::ErrInternalRemote
        } else if err == QDB_E_INTERNAL_LOCAL {
            ErrorType::ErrInternalLocal
        } else if err == QDB_E_NO_MEMORY_REMOTE {
            ErrorType::ErrNoMemoryRemote
        } else if err == QDB_E_NO_MEMORY_LOCAL {
            ErrorType::ErrNoMemoryLocal
        } else if err == QDB_E_INVALID_PROTOCOL {
            ErrorType::ErrInvalidProtocol
        } else if err == QDB_E_HOST_NOT_FOUND {
            ErrorType::ErrHostNotFound
        } else if err == QDB_E_BUFFER_TOO_SMALL {
            ErrorType::ErrBufferTooSmall
        } else if err == QDB_E_NOT_IMPLEMENTED {
            ErrorType::ErrNotImplemented
        } else if err == QDB_E_INVALID_VERSION {
            ErrorType::ErrInvalidVersion
        } else if err == QDB_E_INVALID_ARGUMENT {
            ErrorType::ErrInvalidArgument
        } else if err == QDB_E_INVALID_HANDLE {
            ErrorType::ErrInvalidHandle
        } else if err == QDB_E_RESERVED_ALIAS {
            ErrorType::ErrReservedAlias
        } else if err == QDB_E_UNMATCHED_CONTENT {
            ErrorType::ErrUnmatchedContent
        } else if err == QDB_E_INVALID_ITERATOR {
            ErrorType::ErrInvalidIterator
        } else if err == QDB_E_ENTRY_TOO_LARGE {
            ErrorType::ErrEntryTooLarge
        } else if err == QDB_E_TRANSACTION_PARTIAL_FAILURE {
            ErrorType::ErrTransactionPartialFailure
        } else if err == QDB_E_OPERATION_DISABLED {
            ErrorType::ErrOperationDisabled
        } else if err == QDB_E_OPERATION_NOT_PERMITTED {
            ErrorType::ErrOperationNotPermitted
        } else if err == QDB_E_ITERATOR_END {
            ErrorType::ErrIteratorEnd
        } else if err == QDB_E_INVALID_REPLY {
            ErrorType::ErrInvalidReply
        } else if err == QDB_E_NO_SPACE_LEFT {
            ErrorType::ErrNoSpaceLeft
        } else if err == QDB_E_QUOTA_EXCEEDED {
            ErrorType::ErrQuotaExceeded
        } else if err == QDB_E_ALIAS_TOO_LONG {
            ErrorType::ErrAliasTooLong
        } else if err == QDB_E_CLOCK_SKEW {
            ErrorType::ErrClockSkew
        } else if err == QDB_E_ACCESS_DENIED {
            ErrorType::ErrAccessDenied
        } else if err == QDB_E_LOGIN_FAILED {
            ErrorType::ErrLoginFailed
        } else if err == QDB_E_COLUMN_NOT_FOUND {
            ErrorType::ErrColumnNotFound
        } else if err == QDB_E_QUERY_TOO_COMPLEX {
            ErrorType::ErrQueryTooComplex
        } else if err == QDB_E_INVALID_CRYPTO_KEY {
            ErrorType::ErrInvalidCryptoKey
        } else if err == QDB_E_INVALID_QUERY {
            ErrorType::ErrInvalidQuery
        } else if err == QDB_E_INVALID_REGEX {
            ErrorType::ErrInvalidRegex
        } else if err == QDB_E_UNKNOWN_USER {
            ErrorType::ErrUnknownUser
        } else if err == QDB_E_INTERRUPTED {
            ErrorType::ErrInterrupted
        } else if err == QDB_E_NETWORK_INBUF_TOO_SMALL {
            ErrorType::ErrNetworkInbufTooSmall
        } else if err == QDB_E_NETWORK_ERROR {
            ErrorType::ErrNetworkError
        } else if err == QDB_E_DATA_CORRUPTION {
            ErrorType::ErrDataCorruption
        } else {
            ErrorType::ErrUnknownError
        }
    }

    /// The status that stands for this outcome, if it has one.
    pub fn code(&self) -> (r: Option<qdb_error_origin_t>)
        ensures
            r == code_of(*self),
    {
        match self {
            ErrorType::ErrUnknownError => Some(QDB_E_UNKNOWN),
            ErrorType::Success => Some(QDB_E_OK),
            ErrorType::Created => Some(QDB_E_OK_CREATED),
            ErrorType::ErrUninitialized => Some(QDB_E_UNINITIALIZED),
            ErrorType::ErrAliasNotFound => Some(QDB_E_ALIAS_NOT_FOUND),
            ErrorType::ErrAliasAlreadyExists => Some(QDB_E_ALIAS_ALREADY_EXISTS),
            ErrorType::ErrOutOfBounds => Some(QDB_E_OUT_OF_BOUNDS),
            ErrorType::ErrSkipped => Some(QDB_E_SKIPPED),
            ErrorType::ErrIncompatibleType => Some(QDB_E_INCOMPATIBLE_TYPE),
            ErrorType::ErrContainerEmpty => Some(QDB_E_CONTAINER_EMPTY),
            ErrorType::ErrContainerFull => Some(QDB_E_CONTAINER_FULL),
            ErrorType::ErrElementNotFound => Some(QDB_E_ELEMENT_NOT_FOUND),
            ErrorType::ErrElementAlreadyExists => Some(QDB_E_ELEMENT_ALREADY_EXISTS),
            ErrorType::ErrOverflow => Some(QDB_E_OVERFLOW),
            ErrorType::ErrUnderflow => Some(QDB_E_UNDERFLOW),
            ErrorType::ErrTagAlreadySet => Some(QDB_E_TAG_ALREADY_SET),
            ErrorType::ErrTagNotSet => Some(QDB_E_TAG_NOT_SET),
            ErrorType::ErrTimeout => Some(QDB_E_TIMEOUT),
            ErrorType::ErrConnectionRefused => Some(QDB_E_CONNECTION_REFUSED),
            ErrorType::ErrConnectionReset => Some(QDB_E_CONNECTION_RESET),
            ErrorType::ErrUnstableCluster => Some(QDB_E_UNSTABLE_CLUSTER),
            ErrorType::ErrTryAgain => Some(QDB_E_TRY_AGAIN),
            ErrorType::ErrConflict => Some(QDB_E_CONFLICT),
            ErrorType::ErrNotConnected => Some(QDB_E_NOT_CONNECTED),
            ErrorType::ErrResourceLocked => Some(QDB_E_RESOURCE_LOCKED),
            ErrorType::ErrSystemRemote => Some(QDB_E_SYSTEM_REMOTE),
            ErrorType::ErrSystemLocal => Some(QDB_E_SYSTEM_LOCAL),
            ErrorType::ErrInternalRemote => Some(QDB_E_INTERNAL_REMOTE),
            ErrorType::ErrInternalLocal => Some(QDB_E_INTERNAL_LOCAL),
            ErrorType::ErrNoMemoryRemote => Some(QDB_E_NO_MEMORY_REMOTE),
            ErrorType::ErrNoMemoryLocal => Some(QDB_E_NO_MEMORY_LOCAL),
            ErrorType::ErrInvalidProtocol => Some(QDB_E_INVALID_PROTOCOL),
            ErrorType::ErrHostNotFound => Some(QDB_E_HOST_NOT_FOUND),
            ErrorType::ErrBufferTooSmall => Some(QDB_E_BUFFER_TOO_SMALL),
            ErrorType::ErrNotImplemented => Some(QDB_E_NOT_IMPLEMENTED),
            ErrorType::ErrInvalidVersion => Some(QDB_E_INVALID_VERSION),
            ErrorType::ErrInvalidArgument => Some(QDB_E_INVALID_ARGUMENT),
            ErrorType::ErrInvalidHandle => Some(QDB_E_INVALID_HANDLE),
            ErrorType::ErrReservedAlias => Some(QDB_E_RESERVED_ALIAS),
            ErrorType::ErrUnmatchedContent => Some(QDB_E_UNMATCHED_CONTENT),
            ErrorType::ErrInvalidIterator => Some(QDB_E_INVALID_ITERATOR),
            ErrorType::ErrEntryTooLarge => Some(QDB_E_ENTRY_TOO_LARGE),
            ErrorType::ErrTransactionPartialFailure => Some(QDB_E_TRANSACTION_PARTIAL_FAILURE),
            ErrorType::ErrOperationDisabled => Some(QDB_E_OPERATION_DISABLED),
            ErrorType::ErrOperationNotPermitted => Some(QDB_E_OPERATION_NOT_PERMITTED),
            ErrorType::ErrIteratorEnd => Some(QDB_E_ITERATOR_END),
            ErrorType::ErrInvalidReply => Some(QDB_E_INVALID_REPLY),
            ErrorType::ErrNoSpaceLeft => Some(QDB_E_NO_SPACE_LEFT),
            ErrorType::ErrQuotaExceeded => Some(QDB_E_QUOTA_EXCEEDED),
            ErrorType::ErrAliasTooLong => Some(QDB_E_ALIAS_TOO_LONG),
            ErrorType::ErrClockSkew => Some(QDB_E_CLOCK_SKEW),
            ErrorType::ErrAccessDenied => Some(QDB_E_ACCESS_DENIED),
            ErrorType::ErrLoginFailed => Some(QDB_E_LOGIN_FAILED),
            ErrorType::ErrColumnNotFound => Some(QDB_E_COLUMN_NOT_FOUND),
            ErrorType::ErrQueryTooComplex => Some(QDB_E_QUERY_TOO_COMPLEX),
            ErrorType::ErrInvalidCryptoKey => Some(QDB_E_INVALID_CRYPTO_KEY),
            ErrorType::ErrInvalidQuery => Some(QDB_E_INVALID_QUERY),
            ErrorType::ErrInvalidRegex => Some(QDB_E_INVALID_REGEX),
            ErrorType::ErrUnknownUser => Some(QDB_E_UNKNOWN_USER),
            ErrorType::ErrInterrupted => Some(QDB_E_INTERRUPTED),
            ErrorType::ErrNetworkInbufTooSmall => Some(QDB_E_NETWORK_INBUF_TOO_SMALL),
            ErrorType::ErrNetworkError => Some(QDB_E_NETWORK_ERROR),
            ErrorType::ErrDataCorruption => Some(QDB_E_DATA_CORRUPTION),
            ErrorType::ErrClusterKeyNotFound => None,
            ErrorType::ErrUserCredentialsNotFound => None,
        }
    }
}

/// A status has a name exactly when its outcome is not the catch-all, and the
/// outcome of a named status is the one that bears that status.
pub proof fn lemma_known_codes(code: i32)
    ensures
        is_known_code(code) <==> outcome_of(code) != ErrorType::ErrUnknownError,
        is_known_code(code) ==> code_of(outcome_of(code)) == Some(code),
{
    if outcome_of(code) != ErrorType::ErrUnknownError {
        assert(code_of(outcome_of(code)) == Some(code));
    }
    if is_known_code(code) {
        let outcome = choose|outcome: ErrorType|
            outcome != ErrorType::ErrUnknownError && #[trigger] code_of(outcome) == Some(code);
        assert(outcome_of(code) == outcome);
    }
}

/// Every outcome that the client API can report is the outcome of its own
/// status: mapping the status of an outcome gives the outcome back.
pub proof fn lemma_outcome_round_trip(outcome: ErrorType)
    ensures
        code_of(outcome) matches Some(code) ==> outcome_of(code) == outcome,
        code_of(outcome).is_none() <==> (outcome == ErrorType::ErrClusterKeyNotFound || outcome
            == ErrorType::ErrUserCredentialsNotFound),
{
}

/// Two statuses with names of their own never share an outcome.
pub proof fn lemma_outcomes_distinct(first: i32, second: i32)
    requires
        is_known_code(first),
        is_known_code(second),
        outcome_of(first) == outcome_of(second),
    ensures
        first == second,
{
    lemma_known_codes(first);
    lemma_known_codes(second);
}

/// A status reports success exactly when its outcome is one of the two kinds
/// of success; and the two local kinds are the outcome of no status.
pub proof fn lemma_success_outcomes(code: i32)
    ensures
        is_success_code(code) <==> (outcome_of(code) == ErrorType::Success || outcome_of(code)
            == ErrorType::Created),
        outcome_of(code) != ErrorType::ErrClusterKeyNotFound,
        outcome_of(code) != ErrorType::ErrUserCredentialsNotFound,
{
}

/// A failure to turn what the client API handed back into an owned value. It
/// carries a message and counts as a system error on the local side.
#[derive(Debug, PartialEq, Eq)]
pub struct RawPointerError(pub String);

impl RawPointerError {
    /// The status under which such a failure is reported: `QDB_E_SYSTEM_LOCAL`.
    pub fn error_code(&self) -> (r: qdb_error_origin_t)
        ensures
            r == QDB_E_SYSTEM_LOCAL,
            outcome_of(r) == ErrorType::ErrSystemLocal,
    {
        QDB_E_SYSTEM_LOCAL
    }

    /// The message that says what could not be converted.
    pub fn error_message(&self) -> (r: &str)
        ensures
            r@ == self.0@,
    {
        self.0.as_str()
    }
}

} // verus!
