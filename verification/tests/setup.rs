use quasar_rs::error::ErrorType;
use quasar_rs::handle::{
    must_setup_handle, must_setup_secured_handle, new_handle, setup_handle, setup_secured_handle,
    Call, HandleState, Setup, SetupAction, SetupEvent, SetupKind,
};

const TIMEOUT: i32 = -771751926;
const CONNECTION_REFUSED: i32 = -754974706;
const NO_MEMORY_LOCAL: i32 = -486539261;
const INVALID_CRYPTO_KEY: i32 = -1040187327;
const LOGIN_FAILED: i32 = -234880968;

const KEY_FILE: &str = r#"{"cluster_key": "PZMBhqk43w+HNr9lLGe+RYq+qWZPrksFWMF1k1UG/vwc="}"#;
const CREDENTIALS_FILE: &str =
    r#"{"username": "alice", "secret_key": "SoHHpH26NtZvfq5pqm/8BXKbVIkf+yYiVZ5fQbq1nbcI="}"#;

// Stands for a server and a file system: answers each action from a script
// and records what was asked.
fn drive(mut setup: Setup, statuses: &[i32], files: &[Option<&str>]) -> (Setup, Vec<SetupAction>) {
    let mut asked = Vec::new();
    let mut status = statuses.iter();
    let mut file = files.iter();
    loop {
        let action = setup.next();
        asked.push(action.clone());
        let event = match action {
            SetupAction::Finished => return (setup, asked),
            SetupAction::Invoke(_) => SetupEvent::Status(*status.next().unwrap()),
            SetupAction::ReadFile { .. } => {
                SetupEvent::File(file.next().unwrap().map(|content| content.to_string()))
            }
        };
        setup = setup.advance(event);
    }
}

fn is_connect(action: &SetupAction) -> bool {
    matches!(action, SetupAction::Invoke(Call::Connect { .. }))
}

#[test]
fn setup_handle_against_a_server_that_answers_gives_a_connected_handle() {
    let setup = setup_handle("qdb://127.0.0.1:2836", 1000);
    let (setup, asked) = drive(setup, &[0, 0, 0], &[]);
    assert_eq!(
        asked,
        vec![
            SetupAction::Invoke(Call::Open { protocol: 0 }),
            SetupAction::Invoke(Call::SetTimeout { timeout_ms: 1000 }),
            SetupAction::Invoke(Call::Connect { uri: "qdb://127.0.0.1:2836".to_string() }),
            SetupAction::Finished,
        ]
    );
    assert!(setup.is_done());
    let handle = setup.finish().unwrap().unwrap();
    assert_eq!(handle.state(), HandleState::Connected);
}

#[test]
fn setup_handle_stops_at_the_first_failure() {
    let (setup, asked) = drive(setup_handle("qdb://h:1", 5), &[NO_MEMORY_LOCAL], &[]);
    assert_eq!(asked.len(), 2);
    assert_eq!(asked[1], SetupAction::Finished);
    assert_eq!(setup.finish().unwrap().unwrap_err(), ErrorType::ErrNoMemoryLocal);

    let (setup, asked) = drive(setup_handle("qdb://h:1", 5), &[0, TIMEOUT], &[]);
    assert_eq!(asked.len(), 3);
    assert!(!asked.iter().any(is_connect));
    assert_eq!(setup.finish().unwrap().unwrap_err(), ErrorType::ErrTimeout);

    let (setup, asked) = drive(setup_handle("qdb://h:1", 5), &[0, 0, CONNECTION_REFUSED], &[]);
    assert_eq!(asked.len(), 4);
    assert_eq!(setup.finish().unwrap().unwrap_err(), ErrorType::ErrConnectionRefused);
}

#[test]
fn a_setup_under_way_has_no_result() {
    let setup = setup_handle("qdb://h:1", 5);
    assert!(!setup.is_done());
    assert!(setup.finish().is_none());
    let setup = setup_handle("qdb://h:1", 5).advance(SetupEvent::Status(0));
    assert!(!setup.is_done());
    assert!(setup.finish().is_none());
}

#[test]
fn new_handle_is_one_open() {
    let (setup, asked) = drive(new_handle(), &[0], &[]);
    assert_eq!(
        asked,
        vec![SetupAction::Invoke(Call::Open { protocol: 0 }), SetupAction::Finished]
    );
    assert_eq!(setup.finish().unwrap().unwrap().state(), HandleState::Opened);

    let (setup, _) = drive(new_handle(), &[NO_MEMORY_LOCAL], &[]);
    assert_eq!(setup.finish().unwrap().unwrap_err(), ErrorType::ErrNoMemoryLocal);
}

#[test]
fn setup_secured_handle_takes_its_seven_steps_in_order() {
    let setup = setup_secured_handle("qdb://127.0.0.1:2838", "cluster.json", "user.json", 2000);
    let (setup, asked) =
        drive(setup, &[0, 0, 0, 0, 0], &[Some(KEY_FILE), Some(CREDENTIALS_FILE)]);
    assert_eq!(
        asked,
        vec![
            SetupAction::Invoke(Call::Open { protocol: 0 }),
            SetupAction::ReadFile { path: "cluster.json".to_string() },
            SetupAction::ReadFile { path: "user.json".to_string() },
            SetupAction::Invoke(Call::SetClusterPublicKey {
                key: "PZMBhqk43w+HNr9lLGe+RYq+qWZPrksFWMF1k1UG/vwc=".to_string()
            }),
            SetupAction::Invoke(Call::SetUserCredentials {
                username: "alice".to_string(),
                secret_key: "SoHHpH26NtZvfq5pqm/8BXKbVIkf+yYiVZ5fQbq1nbcI=".to_string()
            }),
            SetupAction::Invoke(Call::SetTimeout { timeout_ms: 2000 }),
            SetupAction::Invoke(Call::Connect { uri: "qdb://127.0.0.1:2838".to_string() }),
            SetupAction::Finished,
        ]
    );
    assert_eq!(setup.finish().unwrap().unwrap().state(), HandleState::Connected);
}

#[test]
fn missing_credentials_file_fails_without_a_connection() {
    let setup = setup_secured_handle("qdb://127.0.0.1:2838", "cluster.json", "missing.json", 2000);
    let (setup, asked) = drive(setup, &[0], &[Some(KEY_FILE), None]);
    assert_eq!(asked.len(), 4);
    assert_eq!(asked[3], SetupAction::Finished);
    assert!(!asked.iter().any(is_connect));
    assert_eq!(setup.finish().unwrap().unwrap_err(), ErrorType::ErrUserCredentialsNotFound);
}

#[test]
fn credentials_file_that_does_not_parse_fails_without_a_connection() {
    for content in ["", "{", "[]", r#"{"username": "alice"}"#, r#"{"username": 1, "secret_key": 2}"#] {
        let setup = setup_secured_handle("qdb://h:1", "cluster.json", "user.json", 2000);
        let (setup, asked) = drive(setup, &[0], &[Some(KEY_FILE), Some(content)]);
        assert!(!asked.iter().any(is_connect));
        assert_eq!(setup.finish().unwrap().unwrap_err(), ErrorType::ErrUserCredentialsNotFound);
    }
}

#[test]
fn missing_cluster_key_file_fails_before_the_credentials_are_read() {
    let setup = setup_secured_handle("qdb://h:1", "missing.json", "user.json", 2000);
    let (setup, asked) = drive(setup, &[0], &[None]);
    assert_eq!(
        asked,
        vec![
            SetupAction::Invoke(Call::Open { protocol: 0 }),
            SetupAction::ReadFile { path: "missing.json".to_string() },
            SetupAction::Finished,
        ]
    );
    assert_eq!(setup.finish().unwrap().unwrap_err(), ErrorType::ErrClusterKeyNotFound);

    let setup = setup_secured_handle("qdb://h:1", "cluster.json", "user.json", 2000);
    let (setup, _) = drive(setup, &[0], &[Some(CREDENTIALS_FILE)]);
    assert_eq!(setup.finish().unwrap().unwrap_err(), ErrorType::ErrClusterKeyNotFound);
}

#[test]
fn a_failed_open_reads_no_file() {
    let setup = setup_secured_handle("qdb://h:1", "cluster.json", "user.json", 2000);
    let (setup, asked) = drive(setup, &[NO_MEMORY_LOCAL], &[]);
    assert_eq!(asked.len(), 2);
    assert_eq!(setup.finish().unwrap().unwrap_err(), ErrorType::ErrNoMemoryLocal);
}

#[test]
fn setup_secured_handle_stops_at_the_first_failing_call() {
    let files = [Some(KEY_FILE), Some(CREDENTIALS_FILE)];
    let cases: Vec<(Vec<i32>, ErrorType, usize)> = vec![
        (vec![0, INVALID_CRYPTO_KEY], ErrorType::ErrInvalidCryptoKey, 5),
        (vec![0, 0, LOGIN_FAILED], ErrorType::ErrLoginFailed, 6),
        (vec![0, 0, 0, TIMEOUT], ErrorType::ErrTimeout, 7),
        (vec![0, 0, 0, 0, CONNECTION_REFUSED], ErrorType::ErrConnectionRefused, 8),
    ];
    for (statuses, failure, asked_for) in cases {
        let setup = setup_secured_handle("qdb://h:1", "cluster.json", "user.json", 2000);
        let (setup, asked) = drive(setup, &statuses, &files);
        assert_eq!(asked.len(), asked_for);
        assert_eq!(setup.finish().unwrap().unwrap_err(), failure);
    }
}

#[test]
fn a_finished_setup_ignores_what_is_reported() {
    let (setup, _) = drive(setup_handle("qdb://h:1", 5), &[0, TIMEOUT], &[]);
    let setup = setup.advance(SetupEvent::Status(0));
    let setup = setup.advance(SetupEvent::File(Some(KEY_FILE.to_string())));
    let setup = setup.advance(SetupEvent::Status(0));
    assert_eq!(setup.next(), SetupAction::Finished);
    assert_eq!(setup.finish().unwrap().unwrap_err(), ErrorType::ErrTimeout);
}

#[test]
fn an_event_of_the_wrong_sort_changes_nothing() {
    let setup = setup_secured_handle("qdb://h:1", "cluster.json", "user.json", 2000);
    let setup = setup.advance(SetupEvent::File(Some(KEY_FILE.to_string())));
    assert_eq!(setup.next(), SetupAction::Invoke(Call::Open { protocol: 0 }));
    let setup = setup.advance(SetupEvent::Status(0));
    let setup = setup.advance(SetupEvent::Status(0));
    assert_eq!(setup.next(), SetupAction::ReadFile { path: "cluster.json".to_string() });
}

#[test]
fn a_setup_tells_its_kind_and_its_failure() {
    assert_eq!(new_handle().kind(), SetupKind::Open);
    assert_eq!(setup_handle("qdb://h:1", 5).kind(), SetupKind::Plain);
    assert_eq!(setup_secured_handle("qdb://h:1", "k", "c", 5).kind(), SetupKind::Secured);
    let (setup, _) = drive(setup_handle("qdb://h:1", 5), &[0, TIMEOUT], &[]);
    assert_eq!(setup.failure(), Some(ErrorType::ErrTimeout));
    let (setup, _) = drive(setup_handle("qdb://h:1", 5), &[0, 0, 0], &[]);
    assert_eq!(setup.failure(), None);
    assert_eq!(setup_handle("qdb://h:1", 5).failure(), None);
}

#[test]
fn must_setup_handle_hands_out_the_connected_handle() {
    let (setup, _) = drive(setup_handle("qdb://127.0.0.1:2836", 1000), &[0, 0, 0], &[]);
    let handle = must_setup_handle(setup).unwrap();
    assert_eq!(handle.state(), HandleState::Connected);
}

#[test]
fn must_setup_secured_handle_hands_out_the_connected_handle() {
    let setup = setup_secured_handle("qdb://127.0.0.1:2838", "cluster.json", "user.json", 2000);
    let (setup, _) = drive(setup, &[0, 0, 0, 0, 0], &[Some(KEY_FILE), Some(CREDENTIALS_FILE)]);
    let handle = must_setup_secured_handle(setup).unwrap();
    assert_eq!(handle.state(), HandleState::Connected);
}
