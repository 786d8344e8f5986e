use vstd::prelude::*;

use crate::error::{
    is_success, is_success_code, makeErrorNone, outcome_of, ErrorType, RawPointerError,
};
use crate::handle_const::{Compression, Encryption, Protocol, PROTOCOL_DEFAULT};
use crate::handler_credentials::{
    cluster_key_from_json, cluster_key_in, credentials_in, user_credentials_from_json, ClusterKey,
    CredentialsView, JSONCredentialsConfig,
};
use crate::utils_ptr::{raw_pointer_to_string, text_failure, text_of};

verus! {

/// Where a connection handle stands in its life.
#[derive(Debug, Clone, Copy, PartialEq, Eq, Structural)]
pub enum HandleState {
    /// No resource has been allocated yet.
    Unopened,
    /// The resource is allocated; no connection is established.
    Opened,
    /// Connected to at least one node of the cluster.
    Connected,
    /// Released. Nothing can be done with the handle any more.
    Closed,
}

/// What a call does to the state of the handle it is made on.
#[derive(Debug, Clone, Copy, PartialEq, Eq, Structural)]
pub enum CallKind {
    /// Allocates the resource.
    Open,
    /// Establishes the connection.
    Connect,
    /// Releases the resource.
    Close,
    /// Concerns the handle alone, such as an option or the release of a
    /// buffer: needs a handle that is open and leaves its state as it is.
    Local,
    /// Asks something of the cluster: needs a handle that is connected and
    /// leaves its state as it is.
    Remote,
}

/// One call into the client API, with what is handed to it. This layer
/// decides which call is made and reads what comes back; the caller makes it.
#[derive(Debug, Clone, PartialEq, Eq)]
pub enum Call {
    Open { protocol: Protocol },
    Connect { uri: String },
    Close,
    Release { buffer: usize },
    SetTimeout { timeout_ms: i32 },
    SetEncryption { encryption: Encryption },
    SetUserCredentials { username: String, secret_key: String },
    SetClusterPublicKey { key: String },
    SetMaxCardinality { max_cardinality: u64 },
    SetCompression { compression: Compression },
    SetClientMaxInBufSize { size: usize },
    GetClientMaxInBufSize,
    GetClusterMaxInBufSize,
    GetClientMaxParallelism,
    SetClientMaxParallelism { thread_count: usize },
    GetTags { alias: String },
    GetTagged { tag: String },
    PrefixGet { prefix: String, limit: i64 },
    PrefixCount { prefix: String },
    PurgeAll { timeout_ms: i32 },
    PurgeCache { timeout_ms: i32 },
    TrimAll { timeout_ms: i32 },
    WaitForStabilization { timeout_ms: i32 },
    ClusterEndpoints,
}

impl Call {
    /// What this call does to the state of the handle.
    pub open spec fn spec_kind(&self) -> CallKind {
        match self {
            Call::Open { .. } => CallKind::Open,
            Call::Connect { .. } => CallKind::Connect,
            Call::Close => CallKind::Close,
            Call::GetTags { .. }
            | Call::GetTagged { .. }
            | Call::PrefixGet { .. }
            | Call::PrefixCount { .. }
            | Call::PurgeAll { .. }
            | Call::PurgeCache { .. }
            | Call::TrimAll { .. }
            | Call::WaitForStabilization { .. }
            | Call::ClusterEndpoints => CallKind::Remote,
            _ => CallKind::Local,
        }
    }

    /// What this call does to the state of the handle.
    #[verifier::when_used_as_spec(spec_kind)]
    pub fn kind(&self) -> (r: CallKind)
        ensures
            r == self.spec_kind(),
    {
        match self {
            Call::Open { .. } => CallKind::Open,
            Call::Connect { .. } => CallKind::Connect,
            Call::Close => CallKind::Close,
            Call::GetTags { .. }
            | Call::GetTagged { .. }
            | Call::PrefixGet { .. }
            | Call::PrefixCount { .. }
            | Call::PurgeAll { .. }
            | Call::PurgeCache { .. }
            | Call::TrimAll { .. }
            | Call::WaitForStabilization { .. }
            | Call::ClusterEndpoints => CallKind::Remote,
            _ => CallKind::Local,
        }
    }
}

/// Whether the handle is open in `state`: configured, connected and closed
/// it can be.
pub open spec fn usable(state: HandleState) -> bool {
    state == HandleState::Opened || state == HandleState::Connected
}

/// The failure with which a call of this kind is turned away in `state`
/// before anything is asked of the client API; `None` where the call is made.
/// Only `open` is made on an unopened handle, nothing is made on a closed
/// one, a handle that is open is not opened again, and the cluster is asked
/// only over a handle that is connected.
pub open spec fn refusal(state: HandleState, kind: CallKind) -> Option<ErrorType> {
    match state {
        HandleState::Unopened => if kind == CallKind::Open {
            None
        } else {
            Some(ErrorType::ErrNotConnected)
        },
        HandleState::Opened => if kind == CallKind::Open {
            Some(ErrorType::ErrInvalidHandle)
        } else if kind == CallKind::Remote {
            Some(ErrorType::ErrNotConnected)
        } else {
            None
        },
        HandleState::Connected => if kind == CallKind::Open {
            Some(ErrorType::ErrInvalidHandle)
        } else {
            None
        },
        HandleState::Closed => Some(ErrorType::ErrNotConnected),
    }
}

/// The state of a handle once a call of this kind, made in `state`, has come
/// back with `status`. A call that is turned away changes nothing. `open`
/// and `connect` move on only on success; `close` ends the handle whatever it
/// reports.
pub open spec fn after(state: HandleState, kind: CallKind, status: i32) -> HandleState {
    if refusal(state, kind).is_some() {
        state
    } else {
        match kind {
            CallKind::Open => if is_success_code(status) {
                HandleState::Opened
            } else {
                state
            },
            CallKind::Connect => if is_success_code(status) {
                HandleState::Connected
            } else {
                state
            },
            CallKind::Close => HandleState::Closed,
            CallKind::Local | CallKind::Remote => state,
        }
    }
}

/// What a call of this kind, made in `state`, comes to when it has come back
/// with `status`: the refusal where it was turned away, else nothing on
/// success and the named failure otherwise.
pub open spec fn outcome(state: HandleState, kind: CallKind, status: i32) -> Option<ErrorType> {
    match refusal(state, kind) {
        Some(e) => Some(e),
        None => if is_success_code(status) {
            None
        } else {
            Some(outcome_of(status))
        },
    }
}

/// What asking for `call` in `state` gives: the call itself where it is made,
/// the refusal where it is turned away.
pub open spec fn request(state: HandleState, call: Call) -> Result<Call, ErrorType> {
    match refusal(state, call.kind()) {
        Some(e) => Err(e),
        None => Ok(call),
    }
}

/// The client side of one connection to a cluster. It follows the handle of
/// the client API through its life, says which calls may be made on it, and
/// reads what they report. It is owned by one caller at a time.
#[derive(Debug)]
pub struct HandleType {
    state: HandleState,
}

impl HandleType {
    /// Where the handle stands.
    pub closed spec fn spec_state(&self) -> HandleState {
        self.state
    }

    /// A handle for which nothing has been allocated yet.
    pub fn new() -> (r: HandleType)
        ensures
            r.state() == HandleState::Unopened,
    {
        HandleType { state: HandleState::Unopened }
    }

    /// Where the handle stands.
    #[verifier::when_used_as_spec(spec_state)]
    pub fn state(&self) -> (r: HandleState)
        ensures
            r == self.spec_state(),
    {
        self.state
    }

    /// The failure with which a call of this kind is turned away now, if it
    /// is.
    pub fn refuse(&self, kind: CallKind) -> (r: Option<ErrorType>)
        ensures
            r == refusal(self.state(), kind),
    {
        match self.state {
            HandleState::Unopened => match kind {
                CallKind::Open => None,
                _ => Some(ErrorType::ErrNotConnected),
            },
            HandleState::Opened => match kind {
                CallKind::Open => Some(ErrorType::ErrInvalidHandle),
                CallKind::Remote => Some(ErrorType::ErrNotConnected),
                _ => None,
            },
            HandleState::Connected => match kind {
                CallKind::Open => Some(ErrorType::ErrInvalidHandle),
                _ => None,
            },
            HandleState::Closed => Some(ErrorType::ErrNotConnected),
        }
    }

    /// Lets `call` through where the state permits it.
    pub(crate) fn issue(&self, call: Call) -> (r: Result<Call, ErrorType>)
        ensures
            r == request(self.state(), call),
    {
        match self.refuse(call.kind()) {
            Some(e) => Err(e),
            None => Ok(call),
        }
    }

    /// Reads the status with which `call` came back, and moves the handle on:
    /// to opened after an `open` that succeeded, to connected after a
    /// `connect` that succeeded, to closed after any `close`. A call that the
    /// state does not permit is answered with its refusal, whatever the
    /// status, and changes nothing.
    pub fn settle(&mut self, call: &Call, status: i32) -> (r: Option<ErrorType>)
        ensures
            r == outcome(old(self).state(), call.kind(), status),
            final(self).state() == after(old(self).state(), call.kind(), status),
    {
        self.settle_kind(call.kind(), status)
    }

    fn settle_kind(&mut self, kind: CallKind, status: i32) -> (r: Option<ErrorType>)
        ensures
            r == outcome(old(self).state(), kind, status),
            final(self).state() == after(old(self).state(), kind, status),
    {
        match self.refuse(kind) {
            Some(e) => Some(e),
            None => {
                let success = is_success(status);
                match kind {
                    CallKind::Open => {
                        if success {
                            self.state = HandleState::Opened;
                        }
                    },
                    CallKind::Connect => {
                        if success {
                            self.state = HandleState::Connected;
                        }
                    },
                    CallKind::Close => {
                        self.state = HandleState::Closed;
                    },
                    CallKind::Local => {},
                    CallKind::Remote => {},
                }
                makeErrorNone(status)
            },
        }
    }

    /// Binds the handle to a cluster and connects to at least one of its
    /// nodes. `cluster_uri` names one or more nodes, as in
    /// `qdb://host:port,host:port`.
    pub fn connect(&self, cluster_uri: &str) -> (r: Result<Call, ErrorType>)
        ensures
            match refusal(self.state(), CallKind::Connect) {
                Some(e) => r == Err::<Call, ErrorType>(e),
                None => r matches Ok(Call::Connect { uri }) && uri@ == cluster_uri@,
            },
    {
        self.issue(Call::Connect { uri: cluster_uri.to_owned() })
    }

    /// Allocates the resource of the handle. No connection is established.
    pub fn open(&self, protocol: Protocol) -> (r: Result<Call, ErrorType>)
        ensures
            r == request(self.state(), Call::Open { protocol }),
    {
        self.issue(Call::Open { protocol })
    }

    /// Ends all connections and releases all buffers that the client API
    /// still holds for this handle.
    pub fn close(&self) -> (r: Result<Call, ErrorType>)
        ensures
            r == request(self.state(), Call::Close),
    {
        self.issue(Call::Close)
    }

    /// Releases a buffer that the client API allocated.
    pub fn release(&self, buffer: usize) -> (r: Result<Call, ErrorType>)
        ensures
            r == request(self.state(), Call::Release { buffer }),
    {
        self.issue(Call::Release { buffer })
    }

    /// The text that describes the version of the client API, read from the
    /// raw string that it hands out.
    pub fn api_version(raw: &Option<Vec<u8>>) -> (r: Result<String, RawPointerError>)
        ensures
            match r {
                Ok(text) => Some(text@) == text_of(*raw),
                Err(e) => text_of(*raw).is_none() && e.0@ == text_failure(*raw),
            },
    {
        raw_pointer_to_string(raw)
    }

    /// The text that describes the exact build of the client API, read from
    /// the raw string that it hands out.
    pub fn api_build(raw: &Option<Vec<u8>>) -> (r: Result<String, RawPointerError>)
        ensures
            match r {
                Ok(text) => Some(text@) == text_of(*raw),
                Err(e) => text_of(*raw).is_none() && e.0@ == text_failure(*raw),
            },
    {
        raw_pointer_to_string(raw)
    }

    /// Sets the timeout of all network operations, in milliseconds.
    pub fn set_timeout(&self, timeout_ms: i32) -> (r: Result<Call, ErrorType>)
        ensures
            r == request(self.state(), Call::SetTimeout { timeout_ms }),
    {
        self.issue(Call::SetTimeout { timeout_ms })
    }

    /// Sets how the traffic of the handle is encrypted.
    pub fn set_encryption(&self, encryption: Encryption) -> (r: Result<Call, ErrorType>)
        ensures
            r == request(self.state(), Call::SetEncryption { encryption }),
    {
        self.issue(Call::SetEncryption { encryption })
    }

    /// Gives the handle the name and the secret key of a user.
    pub fn add_user_credentials(&self, credentials: JSONCredentialsConfig) -> (r: Result<
        Call,
        ErrorType,
    >)
        ensures
            match refusal(self.state(), CallKind::Local) {
                Some(e) => r == Err::<Call, ErrorType>(e),
                None => r matches Ok(Call::SetUserCredentials { username, secret_key }) && username@
                    == credentials@.username && secret_key@ == credentials@.secret_key,
            },
    {
        self.issue(
            Call::SetUserCredentials {
                username: credentials.username().to_owned(),
                secret_key: credentials.secret().to_owned(),
            },
        )
    }

    /// Gives the handle the public key of the cluster.
    pub fn set_cluster_public_key(&self, cluster_public_key: ClusterKey) -> (r: Result<
        Call,
        ErrorType,
    >)
        ensures
            match refusal(self.state(), CallKind::Local) {
                Some(e) => r == Err::<Call, ErrorType>(e),
                None => r matches Ok(Call::SetClusterPublicKey { key }) && key@
                    == cluster_public_key@,
            },
    {
        self.issue(
            Call::SetClusterPublicKey { key: cluster_public_key.cluster_key().to_owned() },
        )
    }

    /// Sets the greatest cardinality that a query may have.
    pub fn set_max_cardinality(&self, max_cardinality: u64) -> (r: Result<Call, ErrorType>)
        ensures
            r == request(self.state(), Call::SetMaxCardinality { max_cardinality }),
    {
        self.issue(Call::SetMaxCardinality { max_cardinality })
    }

    /// Sets the compression level of all messages that the handle sends from
    /// now on.
    pub fn set_compression(&self, compression: Compression) -> (r: Result<Call, ErrorType>)
        ensures
            r == request(self.state(), Call::SetCompression { compression }),
    {
        self.issue(Call::SetCompression { compression })
    }

    /// Sets the greatest size of an incoming buffer of the client.
    pub fn set_client_max_int_buffer_size(&self, size: usize) -> (r: Result<Call, ErrorType>)
        ensures
            r == request(self.state(), Call::SetClientMaxInBufSize { size }),
    {
        self.issue(Call::SetClientMaxInBufSize { size })
    }

    /// Asks for the greatest size of an incoming buffer of the client.
    pub fn get_client_max_int_buffer_size(&self) -> (r: Result<Call, ErrorType>)
        ensures
            r == request(self.state(), Call::GetClientMaxInBufSize),
    {
        self.issue(Call::GetClientMaxInBufSize)
    }

    /// Asks for the greatest size of an incoming buffer of the cluster.
    pub fn get_cluster_max_int_buffer_size(&self) -> (r: Result<Call, ErrorType>)
        ensures
            r == request(self.state(), Call::GetClusterMaxInBufSize),
    {
        self.issue(Call::GetClusterMaxInBufSize)
    }

    /// Asks for the number of threads that the client may use at most.
    pub fn get_client_max_parallelism(&self) -> (r: Result<Call, ErrorType>)
        ensures
            r == request(self.state(), Call::GetClientMaxParallelism),
    {
        self.issue(Call::GetClientMaxParallelism)
    }

    /// Sets the number of threads that the client may use at most.
    pub fn set_client_max_parallelism(&self, thread_count: usize) -> (r: Result<Call, ErrorType>)
        ensures
            r == request(self.state(), Call::SetClientMaxParallelism { thread_count }),
    {
        self.issue(Call::SetClientMaxParallelism { thread_count })
    }

    /// Asks for all the tags of an entry. What comes back is an array of the
    /// client library: it goes through `adapt_strings`.
    pub fn get_tags(&self, entry_alias: &str) -> (r: Result<Call, ErrorType>)
        ensures
            match refusal(self.state(), CallKind::Remote) {
                Some(e) => r == Err::<Call, ErrorType>(e),
                None => r matches Ok(Call::GetTags { alias }) && alias@ == entry_alias@,
            },
    {
        self.issue(Call::GetTags { alias: entry_alias.to_owned() })
    }

    /// Asks for all the entries that bear a tag. What comes back is an array
    /// of the client library: it goes through `adapt_strings`.
    pub fn get_tagged(&self, tag: &str) -> (r: Result<Call, ErrorType>)
        ensures
            match refusal(self.state(), CallKind::Remote) {
                Some(e) => r == Err::<Call, ErrorType>(e),
                None => r matches Ok(Call::GetTagged { tag: asked }) && asked@ == tag@,
            },
    {
        self.issue(Call::GetTagged { tag: tag.to_owned() })
    }

    /// Asks for the aliases of the entries that begin with a prefix, `limit`
    /// of them at most. What comes back is an array of the client library: it
    /// goes through `adapt_strings`.
    pub fn prefix_get(&self, prefix: &str, limit: i64) -> (r: Result<Call, ErrorType>)
        ensures
            match refusal(self.state(), CallKind::Remote) {
                Some(e) => r == Err::<Call, ErrorType>(e),
                None => r matches Ok(Call::PrefixGet { prefix: asked, limit: most }) && asked@
                    == prefix@ && most == limit,
            },
    {
        self.issue(Call::PrefixGet { prefix: prefix.to_owned(), limit })
    }

    /// Asks for the number of entries that begin with a prefix. What comes
    /// back goes through `adapt_value`.
    pub fn prefix_count(&self, prefix: &str) -> (r: Result<Call, ErrorType>)
        ensures
            match refusal(self.state(), CallKind::Remote) {
                Some(e) => r == Err::<Call, ErrorType>(e),
                None => r matches Ok(Call::PrefixCount { prefix: asked }) && asked@ == prefix@,
            },
    {
        self.issue(Call::PrefixCount { prefix: prefix.to_owned() })
    }
}

/// What a call that writes one value to an output location comes to: the
/// value on success, the named failure otherwise.
pub fn adapt_value<T>(status: i32, value: T) -> (r: Result<T, ErrorType>)
    ensures
        r == (if is_success_code(status) {
            Ok::<T, ErrorType>(value)
        } else {
            Err::<T, ErrorType>(outcome_of(status))
        }),
{
    match makeErrorNone(status) {
        None => Ok(value),
        Some(e) => Err(e),
    }
}

/// On a handle that is not open, nothing but `open` is let through.
pub proof fn lemma_unopened_permits_only_open(kind: CallKind, status: i32)
    requires
        kind != CallKind::Open,
    ensures
        refusal(HandleState::Unopened, kind) == Some(ErrorType::ErrNotConnected),
        outcome(HandleState::Unopened, kind, status) == Some(ErrorType::ErrNotConnected),
        after(HandleState::Unopened, kind, status) == HandleState::Unopened,
{
}

/// A closed handle stays closed: every call on it fails, whatever its kind
/// and whatever status is reported for it.
pub proof fn lemma_closed_is_terminal(kind: CallKind, status: i32)
    ensures
        outcome(HandleState::Closed, kind, status) == Some(ErrorType::ErrNotConnected),
        after(HandleState::Closed, kind, status) == HandleState::Closed,
{
}

/// The cluster is asked only over a handle that is connected: in every other
/// state a call of that kind fails without being made and changes nothing.
pub proof fn lemma_remote_needs_connection(state: HandleState, status: i32)
    requires
        state != HandleState::Connected,
    ensures
        outcome(state, CallKind::Remote, status) == Some(ErrorType::ErrNotConnected),
        after(state, CallKind::Remote, status) == state,
        refusal(HandleState::Connected, CallKind::Remote).is_none(),
{
}

/// What concerns the handle alone is let through exactly on a handle that is
/// open, connected or not, and leaves its state as it is.
pub proof fn lemma_local_needs_open_handle(state: HandleState, status: i32)
    ensures
        refusal(state, CallKind::Local).is_none() <==> usable(state),
        after(state, CallKind::Local, status) == state,
{
}

/// After `close` on a handle that is open, every further call fails and the
/// handle stays closed.
pub proof fn lemma_nothing_after_close(
    state: HandleState,
    close_status: i32,
    kind: CallKind,
    status: i32,
)
    requires
        usable(state),
    ensures
        after(state, CallKind::Close, close_status) == HandleState::Closed,
        outcome(after(state, CallKind::Close, close_status), kind, status).is_some(),
        after(after(state, CallKind::Close, close_status), kind, status) == HandleState::Closed,
{
}

/// The handle is connected only by a `connect` that succeeds on a handle that
/// is open, and a `connect` that fails leaves it where it was.
pub proof fn lemma_connect_moves_on_success(state: HandleState, kind: CallKind, status: i32)
    ensures
        after(state, kind, status) == HandleState::Connected && state != HandleState::Connected
            ==> kind == CallKind::Connect && state == HandleState::Opened && is_success_code(
            status,
        ),
        kind == CallKind::Connect && !is_success_code(status) ==> after(state, kind, status)
            == state,
{
}

/// What a setup is to achieve.
#[derive(Debug, Clone, Copy, PartialEq, Eq, Structural)]
pub enum SetupKind {
    /// A handle that is open and not connected.
    Open,
    /// A handle that is connected.
    Plain,
    /// A handle that is connected, after it was given the public key of the
    /// cluster and the credentials of a user.
    Secured,
}

/// The step that a setup takes next.
#[derive(Debug, Clone, Copy, PartialEq, Eq, Structural)]
pub enum SetupStage {
    Open,
    LoadClusterKey,
    LoadCredentials,
    SetClusterKey,
    SetCredentials,
    SetTimeout,
    Connect,
    /// Nothing is left to do: the setup has succeeded or failed.
    Done,
}

/// What the caller of a setup does next.
#[derive(Debug, Clone, PartialEq, Eq)]
pub enum SetupAction {
    /// Make this call on the handle and report its status.
    Invoke(Call),
    /// Read the file at this path and report its content.
    ReadFile { path: String },
    /// Nothing: take the result.
    Finished,
}

/// What came of the action that a setup asked for.
#[derive(Debug, Clone, PartialEq, Eq)]
pub enum SetupEvent {
    /// The status with which the call came back.
    Status(i32),
    /// The content of the file, or nothing where it could not be read.
    File(Option<String>),
}

/// What a `Setup` stands for.
pub struct SetupView {
    pub kind: SetupKind,
    pub stage: SetupStage,
    pub state: HandleState,
    pub cluster_uri: Seq<char>,
    pub timeout: i32,
    pub cluster_key_path: Seq<char>,
    pub user_credential_path: Seq<char>,
    pub cluster_key: Option<Seq<char>>,
    pub credentials: Option<CredentialsView>,
    pub failure: Option<ErrorType>,
}

/// The stage that follows `stage` once it has succeeded.
pub open spec fn next_stage(kind: SetupKind, stage: SetupStage) -> SetupStage {
    match stage {
        SetupStage::Open => match kind {
            SetupKind::Open => SetupStage::Done,
            SetupKind::Plain => SetupStage::SetTimeout,
            SetupKind::Secured => SetupStage::LoadClusterKey,
        },
        SetupStage::LoadClusterKey => SetupStage::LoadCredentials,
        SetupStage::LoadCredentials => SetupStage::SetClusterKey,
        SetupStage::SetClusterKey => SetupStage::SetCredentials,
        SetupStage::SetCredentials => SetupStage::SetTimeout,
        SetupStage::SetTimeout => SetupStage::Connect,
        SetupStage::Connect => SetupStage::Done,
        SetupStage::Done => SetupStage::Done,
    }
}

/// Whether `stage` waits for the content of a file rather than for a status.
pub open spec fn awaits_file(stage: SetupStage) -> bool {
    stage == SetupStage::LoadClusterKey || stage == SetupStage::LoadCredentials
}

/// What the call of `stage` does to the state of the handle.
pub open spec fn stage_kind(stage: SetupStage) -> CallKind {
    match stage {
        SetupStage::Open => CallKind::Open,
        SetupStage::Connect => CallKind::Connect,
        _ => CallKind::Local,
    }
}

/// The cluster key that a file gives: none where the file could not be read
/// or does not hold one.
pub open spec fn key_in_file(content: Option<String>) -> Option<Seq<char>> {
    match content {
        Some(text) => cluster_key_in(text@),
        None => None,
    }
}

/// The credentials that a file gives: none where the file could not be read
/// or does not hold them.
pub open spec fn credentials_in_file(content: Option<String>) -> Option<CredentialsView> {
    match content {
        Some(text) => credentials_in(text@),
        None => None,
    }
}

/// The setup at its end, failed with `failure`.
pub open spec fn failed(v: SetupView, failure: ErrorType) -> SetupView {
    SetupView { stage: SetupStage::Done, failure: Some(failure), ..v }
}

/// One step of a setup: where it stands once `event` has answered what it
/// asked for. The first failure ends it. A status moves the handle as the
/// call of the stage does. An event of the wrong sort, and any event after
/// the end, changes nothing.
pub open spec fn step(v: SetupView, event: SetupEvent) -> SetupView {
    match event {
        SetupEvent::Status(status) => if v.stage == SetupStage::Done || awaits_file(v.stage) {
            v
        } else {
            let state = after(v.state, stage_kind(v.stage), status);
            match outcome(v.state, stage_kind(v.stage), status) {
                None => SetupView { state, stage: next_stage(v.kind, v.stage), ..v },
                Some(e) => failed(SetupView { state, ..v }, e),
            }
        },
        SetupEvent::File(content) => match v.stage {
            SetupStage::LoadClusterKey => match key_in_file(content) {
                Some(key) => SetupView {
                    cluster_key: Some(key),
                    stage: SetupStage::LoadCredentials,
                    ..v
                },
                None => failed(v, ErrorType::ErrClusterKeyNotFound),
            },
            SetupStage::LoadCredentials => match credentials_in_file(content) {
                Some(credentials) => SetupView {
                    credentials: Some(credentials),
                    stage: SetupStage::SetClusterKey,
                    ..v
                },
                None => failed(v, ErrorType::ErrUserCredentialsNotFound),
            },
            _ => v,
        },
    }
}

/// Where a setup stands after a run of events.
pub open spec fn run(v: SetupView, events: Seq<SetupEvent>) -> SetupView
    decreases events.len(),
{
    if events.len() == 0 {
        v
    } else {
        run(step(v, events[0]), events.drop_first())
    }
}

/// Whether `action` is what the setup `v` asks for: the call or the file of
/// its stage, with what the setup was given or has loaded.
pub open spec fn asks_for(v: SetupView, action: SetupAction) -> bool {
    match v.stage {
        SetupStage::Open => action matches SetupAction::Invoke(Call::Open { protocol })
            && protocol == PROTOCOL_DEFAULT,
        SetupStage::LoadClusterKey => action matches SetupAction::ReadFile { path } && path@
            == v.cluster_key_path,
        SetupStage::LoadCredentials => action matches SetupAction::ReadFile { path } && path@
            == v.user_credential_path,
        SetupStage::SetClusterKey => action matches SetupAction::Invoke(
            Call::SetClusterPublicKey { key },
        ) && Some(key@) == v.cluster_key,
        SetupStage::SetCredentials => action matches SetupAction::Invoke(
            Call::SetUserCredentials { username, secret_key },
        ) && Some(CredentialsView { username: username@, secret_key: secret_key@ })
            == v.credentials,
        SetupStage::SetTimeout => action matches SetupAction::Invoke(
            Call::SetTimeout { timeout_ms },
        ) && timeout_ms == v.timeout,
        SetupStage::Connect => action matches SetupAction::Invoke(Call::Connect { uri }) && uri@
            == v.cluster_uri,
        SetupStage::Done => action is Finished,
    }
}

/// What a setup has come to: nothing while it is under way; at its end the
/// state of the handle it made, or the failure that ended it.
pub open spec fn result_of(v: SetupView) -> Option<Result<HandleState, ErrorType>> {
    if v.stage == SetupStage::Done {
        match v.failure {
            Some(e) => Some(Err(e)),
            None => Some(Ok(v.state)),
        }
    } else {
        None
    }
}

/// What holds of every setup: the handle is unopened until `open` has
/// succeeded and open from then on, it is connected exactly when the setup
/// has ended well (for a setup of kind `Open`: opened), a failure is recorded
/// only at the end, the stages of a kind are those of its plan, and what has
/// been loaded at an earlier stage is there at the later ones.
pub open spec fn well_formed(v: SetupView) -> bool {
    &&& v.stage == SetupStage::Open ==> v.state == HandleState::Unopened
    &&& v.stage != SetupStage::Open && v.stage != SetupStage::Done ==> v.state
        == HandleState::Opened
    &&& v.stage == SetupStage::Done && v.failure.is_none() ==> v.state == (if v.kind
        == SetupKind::Open {
        HandleState::Opened
    } else {
        HandleState::Connected
    })
    &&& v.stage != SetupStage::Done ==> v.failure.is_none()
    &&& (v.stage == SetupStage::LoadClusterKey || v.stage == SetupStage::LoadCredentials || v.stage
        == SetupStage::SetClusterKey || v.stage == SetupStage::SetCredentials) ==> v.kind
        == SetupKind::Secured
    &&& (v.stage == SetupStage::SetTimeout || v.stage == SetupStage::Connect) ==> v.kind
        != SetupKind::Open
    &&& (v.stage == SetupStage::LoadCredentials || v.stage == SetupStage::SetClusterKey || v.stage
        == SetupStage::SetCredentials) ==> v.cluster_key.is_some()
    &&& (v.stage == SetupStage::SetClusterKey || v.stage == SetupStage::SetCredentials)
        ==> v.credentials.is_some()
}

/// A step leads from a setup that is well formed to one that is.
pub proof fn lemma_step_keeps_well_formed(v: SetupView, event: SetupEvent)
    requires
        well_formed(v),
    ensures
        well_formed(step(v, event)),
{
}

/// A setup at its start.
pub open spec fn start(
    kind: SetupKind,
    cluster_uri: Seq<char>,
    cluster_key_path: Seq<char>,
    user_credential_path: Seq<char>,
    timeout: i32,
) -> SetupView {
    SetupView {
        kind,
        stage: SetupStage::Open,
        state: HandleState::Unopened,
        cluster_uri,
        timeout,
        cluster_key_path,
        user_credential_path,
        cluster_key: None,
        credentials: None,
        failure: None,
    }
}

/// Running two runs of events one after the other is running them as one.
pub proof fn lemma_run_concat(v: SetupView, first: Seq<SetupEvent>, second: Seq<SetupEvent>)
    ensures
        run(v, first + second) == run(run(v, first), second),
    decreases first.len(),
{
    if first.len() == 0 {
        assert(first + second =~= second);
    } else {
        assert((first + second)[0] == first[0]);
        assert((first + second).drop_first() =~= first.drop_first() + second);
        lemma_run_concat(step(v, first[0]), first.drop_first(), second);
    }
}

/// A run of one event is one step.
pub proof fn lemma_run_one(v: SetupView, event: SetupEvent)
    ensures
        run(v, seq![event]) == step(v, event),
{
    let events = seq![event];
    assert(events.drop_first() =~= Seq::<SetupEvent>::empty());
    assert(run(step(v, events[0]), events.drop_first()) == step(v, event));
}

/// A setup that has ended stays as it is, whatever is reported to it: after
/// the first failure nothing more is asked for.
pub proof fn lemma_done_is_final(v: SetupView, events: Seq<SetupEvent>)
    requires
        v.stage == SetupStage::Done,
    ensures
        run(v, events) == v,
        forall|action: SetupAction| asks_for(run(v, events), action) ==> action is Finished,
    decreases events.len(),
{
    if events.len() > 0 {
        assert(step(v, events[0]) == v);
        lemma_done_is_final(v, events.drop_first());
    }
}

/// A run leads from a setup that is well formed to one that is.
pub proof fn lemma_run_keeps_well_formed(v: SetupView, events: Seq<SetupEvent>)
    requires
        well_formed(v),
    ensures
        well_formed(run(v, events)),
    decreases events.len(),
{
    if events.len() > 0 {
        lemma_step_keeps_well_formed(v, events[0]);
        lemma_run_keeps_well_formed(step(v, events[0]), events.drop_first());
    }
}

/// The failure of the first of `statuses` that does not report success, if
/// there is one.
pub open spec fn first_failure(statuses: Seq<i32>) -> Option<ErrorType>
    decreases statuses.len(),
{
    if statuses.len() == 0 {
        None
    } else if !is_success_code(statuses[0]) {
        Some(outcome_of(statuses[0]))
    } else {
        first_failure(statuses.drop_first())
    }
}

/// The setup of a connected handle is `open`, then the timeout, then
/// `connect`: it gives a connected handle when all three report success, and
/// otherwise the failure of the first that does not.
pub proof fn lemma_setup_handle_outcome(
    cluster_uri: Seq<char>,
    timeout: i32,
    opened: i32,
    timed: i32,
    connected: i32,
)
    ensures
        result_of(
            run(
                start(SetupKind::Plain, cluster_uri, Seq::empty(), Seq::empty(), timeout),
                seq![
                    SetupEvent::Status(opened),
                    SetupEvent::Status(timed),
                    SetupEvent::Status(connected),
                ],
            ),
        ) == Some(
            match first_failure(seq![opened, timed, connected]) {
                Some(e) => Err::<HandleState, ErrorType>(e),
                None => Ok::<HandleState, ErrorType>(HandleState::Connected),
            },
        ),
{
    let v0 = start(SetupKind::Plain, cluster_uri, Seq::empty(), Seq::empty(), timeout);
    let e0 = SetupEvent::Status(opened);
    let e1 = SetupEvent::Status(timed);
    let e2 = SetupEvent::Status(connected);
    let v1 = step(v0, e0);
    let v2 = step(v1, e1);
    let v3 = step(v2, e2);
    assert(seq![e0, e1, e2] =~= seq![e0] + (seq![e1] + seq![e2]));
    lemma_run_concat(v0, seq![e0], seq![e1] + seq![e2]);
    lemma_run_one(v0, e0);
    lemma_run_concat(v1, seq![e1], seq![e2]);
    lemma_run_one(v1, e1);
    lemma_run_one(v2, e2);
    assert(run(v0, seq![e0, e1, e2]) == v3);
    let statuses = seq![opened, timed, connected];
    assert(statuses.drop_first() =~= seq![timed, connected]);
    assert(statuses.drop_first().drop_first() =~= seq![connected]);
    assert(statuses.drop_first().drop_first().drop_first() =~= Seq::<i32>::empty());
    reveal_with_fuel(first_failure, 4);
}

/// The setup of a handle that is open and not connected is one `open`: it
/// gives an opened handle when that reports success, its failure otherwise.
pub proof fn lemma_new_handle_outcome(opened: i32)
    ensures
        result_of(
            run(
                start(SetupKind::Open, Seq::empty(), Seq::empty(), Seq::empty(), 0),
                seq![SetupEvent::Status(opened)],
            ),
        ) == Some(
            if is_success_code(opened) {
                Ok::<HandleState, ErrorType>(HandleState::Opened)
            } else {
                Err::<HandleState, ErrorType>(outcome_of(opened))
            },
        ),
{
    lemma_run_one(
        start(SetupKind::Open, Seq::empty(), Seq::empty(), Seq::empty(), 0),
        SetupEvent::Status(opened),
    );
}

/// The failure that ends a secured setup, if one does: that of `open`, then a
/// cluster key that could not be loaded, then credentials that could not,
/// then that of the first of the four calls that follow.
pub open spec fn secured_failure(
    opened: i32,
    key_file: Option<String>,
    credentials_file: Option<String>,
    keyed: i32,
    credentialed: i32,
    timed: i32,
    connected: i32,
) -> Option<ErrorType> {
    if !is_success_code(opened) {
        Some(outcome_of(opened))
    } else if key_in_file(key_file).is_none() {
        Some(ErrorType::ErrClusterKeyNotFound)
    } else if credentials_in_file(credentials_file).is_none() {
        Some(ErrorType::ErrUserCredentialsNotFound)
    } else {
        first_failure(seq![keyed, credentialed, timed, connected])
    }
}

/// The setup of a secured handle is `open`, the cluster key from its file,
/// the credentials from theirs, both given to the handle, the timeout, and
/// `connect`: it gives a connected handle when every step succeeds, and
/// otherwise the failure of the first that does not.
pub proof fn lemma_setup_secured_handle_outcome(
    cluster_uri: Seq<char>,
    cluster_key_path: Seq<char>,
    user_credential_path: Seq<char>,
    timeout: i32,
    opened: i32,
    key_file: Option<String>,
    credentials_file: Option<String>,
    keyed: i32,
    credentialed: i32,
    timed: i32,
    connected: i32,
)
    ensures
        result_of(
            run(
                start(
                    SetupKind::Secured,
                    cluster_uri,
                    cluster_key_path,
                    user_credential_path,
                    timeout,
                ),
                seq![
                    SetupEvent::Status(opened),
                    SetupEvent::File(key_file),
                    SetupEvent::File(credentials_file),
                    SetupEvent::Status(keyed),
                    SetupEvent::Status(credentialed),
                    SetupEvent::Status(timed),
                    SetupEvent::Status(connected),
                ],
            ),
        ) == Some(
            match secured_failure(
                opened,
                key_file,
                credentials_file,
                keyed,
                credentialed,
                timed,
                connected,
            ) {
                Some(e) => Err::<HandleState, ErrorType>(e),
                None => Ok::<HandleState, ErrorType>(HandleState::Connected),
            },
        ),
{
    let v0 = start(
        SetupKind::Secured,
        cluster_uri,
        cluster_key_path,
        user_credential_path,
        timeout,
    );
    let e0 = SetupEvent::Status(opened);
    let e1 = SetupEvent::File(key_file);
    let e2 = SetupEvent::File(credentials_file);
    let e3 = SetupEvent::Status(keyed);
    let e4 = SetupEvent::Status(credentialed);
    let e5 = SetupEvent::Status(timed);
    let e6 = SetupEvent::Status(connected);
    let v1 = step(v0, e0);
    let v2 = step(v1, e1);
    let v3 = step(v2, e2);
    let v4 = step(v3, e3);
    let v5 = step(v4, e4);
    let v6 = step(v5, e5);
    let v7 = step(v6, e6);
    let t6 = seq![e6];
    let t5 = seq![e5] + t6;
    let t4 = seq![e4] + t5;
    let t3 = seq![e3] + t4;
    let t2 = seq![e2] + t3;
    let t1 = seq![e1] + t2;
    let t0 = seq![e0] + t1;
    assert(seq![e0, e1, e2, e3, e4, e5, e6] =~= t0);
    lemma_run_concat(v0, seq![e0], t1);
    lemma_run_one(v0, e0);
    lemma_run_concat(v1, seq![e1], t2);
    lemma_run_one(v1, e1);
    lemma_run_concat(v2, seq![e2], t3);
    lemma_run_one(v2, e2);
    lemma_run_concat(v3, seq![e3], t4);
    lemma_run_one(v3, e3);
    lemma_run_concat(v4, seq![e4], t5);
    lemma_run_one(v4, e4);
    lemma_run_concat(v5, seq![e5], t6);
    lemma_run_one(v5, e5);
    lemma_run_one(v6, e6);
    assert(run(v0, t0) == v7);
    let statuses = seq![keyed, credentialed, timed, connected];
    assert(statuses.drop_first() =~= seq![credentialed, timed, connected]);
    assert(statuses.drop_first().drop_first() =~= seq![timed, connected]);
    assert(statuses.drop_first().drop_first().drop_first() =~= seq![connected]);
    assert(statuses.drop_first().drop_first().drop_first().drop_first() =~= Seq::<i32>::empty());
    reveal_with_fuel(first_failure, 5);
}

/// A secured setup whose credentials cannot be loaded never connects: at no
/// moment of any run does it ask for `connect` or hold a connected handle,
/// and once the credentials file has been answered it has failed, with
/// `ErrUserCredentialsNotFound` unless `open` or the cluster key failed first.
pub proof fn lemma_no_credentials_no_connection(
    cluster_uri: Seq<char>,
    cluster_key_path: Seq<char>,
    user_credential_path: Seq<char>,
    timeout: i32,
    opened: i32,
    key_file: Option<String>,
    credentials_file: Option<String>,
    later: Seq<SetupEvent>,
    n: int,
)
    requires
        credentials_in_file(credentials_file).is_none(),
        0 <= n <= 3 + later.len(),
    ensures
        ({
            let events = seq![
                SetupEvent::Status(opened),
                SetupEvent::File(key_file),
                SetupEvent::File(credentials_file),
            ] + later;
            let v = run(
                start(
                    SetupKind::Secured,
                    cluster_uri,
                    cluster_key_path,
                    user_credential_path,
                    timeout,
                ),
                events.take(n),
            );
            &&& v.stage != SetupStage::Connect
            &&& v.state != HandleState::Connected
            &&& n >= 3 ==> result_of(v) == Some(
                Err::<HandleState, ErrorType>(
                    if !is_success_code(opened) {
                        outcome_of(opened)
                    } else if key_in_file(key_file).is_none() {
                        ErrorType::ErrClusterKeyNotFound
                    } else {
                        ErrorType::ErrUserCredentialsNotFound
                    },
                ),
            )
        }),
{
    let v0 = start(
        SetupKind::Secured,
        cluster_uri,
        cluster_key_path,
        user_credential_path,
        timeout,
    );
    let e0 = SetupEvent::Status(opened);
    let e1 = SetupEvent::File(key_file);
    let e2 = SetupEvent::File(credentials_file);
    let head = seq![e0, e1, e2];
    let events = head + later;
    let v1 = step(v0, e0);
    let v2 = step(v1, e1);
    let v3 = step(v2, e2);
    lemma_run_one(v0, e0);
    lemma_run_one(v1, e1);
    lemma_run_one(v2, e2);
    if n == 0 {
        assert(events.take(n) =~= Seq::<SetupEvent>::empty());
    } else if n == 1 {
        assert(events.take(n) =~= seq![e0]);
    } else if n == 2 {
        assert(events.take(n) =~= seq![e0] + seq![e1]);
        lemma_run_concat(v0, seq![e0], seq![e1]);
    } else {
        assert(events.take(n) =~= seq![e0] + (seq![e1] + (seq![e2] + later.take(n - 3))));
        lemma_run_concat(v0, seq![e0], seq![e1] + (seq![e2] + later.take(n - 3)));
        lemma_run_concat(v1, seq![e1], seq![e2] + later.take(n - 3));
        lemma_run_concat(v2, seq![e2], later.take(n - 3));
        assert(v3.stage == SetupStage::Done);
        lemma_done_is_final(v3, later.take(n - 3));
    }
}

/// A handle in the making: the steps that lead from nothing to a handle that
/// is open, or connected, or secured and connected. It says what to do next,
/// takes what came of it, and stops at the first failure.
#[derive(Debug)]
pub struct Setup {
    handle: HandleType,
    kind: SetupKind,
    stage: SetupStage,
    cluster_uri: String,
    timeout: i32,
    cluster_key_path: String,
    user_credential_path: String,
    cluster_key: Option<ClusterKey>,
    credentials: Option<JSONCredentialsConfig>,
    failure: Option<ErrorType>,
}

impl View for Setup {
    type V = SetupView;

    closed spec fn view(&self) -> SetupView {
        SetupView {
            kind: self.kind,
            stage: self.stage,
            state: self.handle.state(),
            cluster_uri: self.cluster_uri@,
            timeout: self.timeout,
            cluster_key_path: self.cluster_key_path@,
            user_credential_path: self.user_credential_path@,
            cluster_key: match self.cluster_key {
                Some(key) => Some(key@),
                None => None,
            },
            credentials: match self.credentials {
                Some(credentials) => Some(credentials@),
                None => None,
            },
            failure: self.failure,
        }
    }
}

impl Setup {
    #[verifier::type_invariant]
    spec fn inv(self) -> bool {
        well_formed(self@)
    }

    fn begin(
        kind: SetupKind,
        cluster_uri: &str,
        cluster_key_path: &str,
        user_credential_path: &str,
        timeout: i32,
    ) -> (r: Setup)
        ensures
            r@ == start(kind, cluster_uri@, cluster_key_path@, user_credential_path@, timeout),
    {
        Setup {
            handle: HandleType::new(),
            kind,
            stage: SetupStage::Open,
            cluster_uri: cluster_uri.to_owned(),
            timeout,
            cluster_key_path: cluster_key_path.to_owned(),
            user_credential_path: user_credential_path.to_owned(),
            cluster_key: None,
            credentials: None,
            failure: None,
        }
    }

    /// What to do next: the call or the file of the stage at which the setup
    /// stands, or nothing at its end.
    pub fn next(&self) -> (r: SetupAction)
        ensures
            asks_for(self@, r),
            well_formed(self@),
    {
        proof {
            use_type_invariant(self);
        }
        match self.stage {
            SetupStage::Open => SetupAction::Invoke(Call::Open { protocol: PROTOCOL_DEFAULT }),
            SetupStage::LoadClusterKey => SetupAction::ReadFile {
                path: self.cluster_key_path.clone(),
            },
            SetupStage::LoadCredentials => SetupAction::ReadFile {
                path: self.user_credential_path.clone(),
            },
            SetupStage::SetClusterKey => match &self.cluster_key {
                Some(key) => SetupAction::Invoke(
                    Call::SetClusterPublicKey { key: key.cluster_key().to_owned() },
                ),
                None => SetupAction::Finished,
            },
            SetupStage::SetCredentials => match &self.credentials {
                Some(credentials) => SetupAction::Invoke(
                    Call::SetUserCredentials {
                        username: credentials.username().to_owned(),
                        secret_key: credentials.secret().to_owned(),
                    },
                ),
                None => SetupAction::Finished,
            },
            SetupStage::SetTimeout => SetupAction::Invoke(
                Call::SetTimeout { timeout_ms: self.timeout },
            ),
            SetupStage::Connect => SetupAction::Invoke(
                Call::Connect { uri: self.cluster_uri.clone() },
            ),
            SetupStage::Done => SetupAction::Finished,
        }
    }

    /// Takes what came of the action that `next` asked for, and moves on.
    pub fn advance(self, event: SetupEvent) -> (r: Setup)
        ensures
            r@ == step(self@, event),
    {
        proof {
            use_type_invariant(&self);
            lemma_step_keeps_well_formed(self@, event);
        }
        let Setup {
            handle,
            kind,
            stage,
            cluster_uri,
            timeout,
            cluster_key_path,
            user_credential_path,
            cluster_key,
            credentials,
            failure,
        } = self;
        let mut handle = handle;
        let mut stage = stage;
        let mut cluster_key = cluster_key;
        let mut credentials = credentials;
        let mut failure = failure;
        match event {
            SetupEvent::Status(status) => {
                let call = match stage {
                    SetupStage::Open => Some(CallKind::Open),
                    SetupStage::Connect => Some(CallKind::Connect),
                    SetupStage::SetClusterKey
                    | SetupStage::SetCredentials
                    | SetupStage::SetTimeout => Some(CallKind::Local),
                    _ => None,
                };
                match call {
                    None => {},
                    Some(call) => {
                        match handle.settle_kind(call, status) {
                            None => {
                                stage = Self::following(kind, stage);
                            },
                            Some(e) => {
                                stage = SetupStage::Done;
                                failure = Some(e);
                            },
                        }
                    },
                }
            },
            SetupEvent::File(content) => {
                match stage {
                    SetupStage::LoadClusterKey => {
                        let loaded = match &content {
                            Some(text) => cluster_key_from_json(text.as_str()),
                            None => None,
                        };
                        match loaded {
                            Some(key) => {
                                cluster_key = Some(key);
                                stage = SetupStage::LoadCredentials;
                            },
                            None => {
                                stage = SetupStage::Done;
                                failure = Some(ErrorType::ErrClusterKeyNotFound);
                            },
                        }
                    },
                    SetupStage::LoadCredentials => {
                        let loaded = match &content {
                            Some(text) => user_credentials_from_json(text.as_str()),
                            None => None,
                        };
                        match loaded {
                            Some(found) => {
                                credentials = Some(found);
                                stage = SetupStage::SetClusterKey;
                            },
                            None => {
                                stage = SetupStage::Done;
                                failure = Some(ErrorType::ErrUserCredentialsNotFound);
                            },
                        }
                    },
                    _ => {},
                }
            },
        }
        Setup {
            handle,
            kind,
            stage,
            cluster_uri,
            timeout,
            cluster_key_path,
            user_credential_path,
            cluster_key,
            credentials,
            failure,
        }
    }

    fn following(kind: SetupKind, stage: SetupStage) -> (r: SetupStage)
        ensures
            r == next_stage(kind, stage),
    {
        match stage {
            SetupStage::Open => match kind {
                SetupKind::Open => SetupStage::Done,
                SetupKind::Plain => SetupStage::SetTimeout,
                SetupKind::Secured => SetupStage::LoadClusterKey,
            },
            SetupStage::LoadClusterKey => SetupStage::LoadCredentials,
            SetupStage::LoadCredentials => SetupStage::SetClusterKey,
            SetupStage::SetClusterKey => SetupStage::SetCredentials,
            SetupStage::SetCredentials => SetupStage::SetTimeout,
            SetupStage::SetTimeout => SetupStage::Connect,
            SetupStage::Connect => SetupStage::Done,
            SetupStage::Done => SetupStage::Done,
        }
    }

    /// The failure that ended the setup, if one did.
    pub fn failure(&self) -> (r: Option<ErrorType>)
        ensures
            r == self@.failure,
    {
        self.failure
    }

    /// What the setup is to achieve.
    pub fn kind(&self) -> (r: SetupKind)
        ensures
            r == self@.kind,
    {
        self.kind
    }

    /// Whether nothing is left to do.
    pub fn is_done(&self) -> (r: bool)
        ensures
            r == (self@.stage == SetupStage::Done),
    {
        match self.stage {
            SetupStage::Done => true,
            _ => false,
        }
    }

    /// The result of a setup at its end: the handle, or the failure that
    /// ended it. Nothing while the setup is under way.
    pub fn finish(self) -> (r: Option<Result<HandleType, ErrorType>>)
        ensures
            well_formed(self@),
            match result_of(self@) {
                None => r.is_none(),
                Some(Err(e)) => r == Some(Err::<HandleType, ErrorType>(e)),
                Some(Ok(state)) => r matches Some(Ok(handle)) && handle.state() == state,
            },
    {
        proof {
            use_type_invariant(&self);
        }
        let Setup { handle, stage, failure, .. } = self;
        match stage {
            SetupStage::Done => match failure {
                Some(e) => Some(Err(e)),
                None => Some(Ok(handle)),
            },
            _ => None,
        }
    }
}

/// Begins the setup of a handle that is open and not connected: one call,
/// `open` with the default protocol.
pub fn new_handle() -> (r: Setup)
    ensures
        r@ == start(SetupKind::Open, Seq::empty(), Seq::empty(), Seq::empty(), 0),
{
    proof {
        reveal_strlit("");
    }
    assert(""@ =~= Seq::<char>::empty());
    Setup::begin(SetupKind::Open, "", "", "", 0)
}

/// Begins the setup of a connected handle: `open` with the default protocol,
/// then the timeout, then `connect` to `cluster_uri`.
pub fn setup_handle(cluster_uri: &str, timeout: i32) -> (r: Setup)
    ensures
        r@ == start(SetupKind::Plain, cluster_uri@, Seq::empty(), Seq::empty(), timeout),
{
    proof {
        reveal_strlit("");
    }
    assert(""@ =~= Seq::<char>::empty());
    Setup::begin(SetupKind::Plain, cluster_uri, "", "", timeout)
}

/// Begins the setup of a secured, connected handle: `open` with the default
/// protocol, the cluster key from its file, the user credentials from theirs,
/// both given to the handle, then the timeout, then `connect`.
pub fn setup_secured_handle(
    cluster_uri: &str,
    cluster_key_path: &str,
    user_credential_path: &str,
    timeout: i32,
) -> (r: Setup)
    ensures
        r@ == start(
            SetupKind::Secured,
            cluster_uri@,
            cluster_key_path@,
            user_credential_path@,
            timeout,
        ),
{
    Setup::begin(SetupKind::Secured, cluster_uri, cluster_key_path, user_credential_path, timeout)
}

/// The handle of a setup that has ended well. It is not for a setup that is
/// under way or has failed.
pub fn must_setup_handle(setup: Setup) -> (r: Result<HandleType, ErrorType>)
    requires
        setup@.kind == SetupKind::Plain,
        setup@.stage == SetupStage::Done,
        setup@.failure.is_none(),
    ensures
        r matches Ok(handle) && handle.state() == HandleState::Connected,
{
    proof {
        use_type_invariant(&setup);
    }
    let Setup { handle, .. } = setup;
    Ok(handle)
}

/// The handle of a secured setup that has ended well. It is not for a setup
/// that is under way or has failed.
pub fn must_setup_secured_handle(setup: Setup) -> (r: Result<HandleType, ErrorType>)
    requires
        setup@.kind == SetupKind::Secured,
        setup@.stage == SetupStage::Done,
        setup@.failure.is_none(),
    ensures
        r matches Ok(handle) && handle.state() == HandleState::Connected,
{
    proof {
        use_type_invariant(&setup);
    }
    let Setup { handle, .. } = setup;
    Ok(handle)
}

} // verus!
