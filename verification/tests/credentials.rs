use quasar_rs::handler_credentials::{
    cluster_key_from_document, cluster_key_from_json, cluster_key_from_member,
    credentials_from_document, credentials_from_members, user_credentials_from_json, ClusterKey,
    JSONCredentialsConfig,
};

#[test]
fn credentials_keep_what_they_were_made_of() {
    let credentials = JSONCredentialsConfig::new("alice".to_string(), "s3cr3t".to_string());
    assert_eq!(credentials.username(), "alice");
    assert_eq!(credentials.secret(), "s3cr3t");
    let copy = credentials.clone();
    assert_eq!(copy, credentials);
}

#[test]
fn cluster_key_keeps_what_it_was_made_of() {
    let key = ClusterKey::new("PZMBhqk43w+HNr9lLGe+RYq+qWZPrksFWMF1k1UG/vwc=".to_string());
    assert_eq!(key.cluster_key(), "PZMBhqk43w+HNr9lLGe+RYq+qWZPrksFWMF1k1UG/vwc=");
    assert_eq!(key.clone(), key);
}

#[test]
fn credentials_are_read_from_a_json_object() {
    let content = r#"{"username": "alice", "secret_key": "SoHHpH26NtZvfq5pqm/8BXKbVIkf+yYiVZ5fQbq1nbcI="}"#;
    let credentials = user_credentials_from_json(content).unwrap();
    assert_eq!(credentials.username(), "alice");
    assert_eq!(credentials.secret(), "SoHHpH26NtZvfq5pqm/8BXKbVIkf+yYiVZ5fQbq1nbcI=");
}

#[test]
fn credentials_may_stand_among_other_members_in_any_order() {
    let content = "{\n  \"comment\": 7,\n  \"secret_key\": \"k\\u00e9y\",\n  \"nested\": {\"username\": \"inner\"},\n  \"username\": \"bob\"\n}\n";
    let credentials = user_credentials_from_json(content).unwrap();
    assert_eq!(credentials.username(), "bob");
    assert_eq!(credentials.secret(), "kéy");
}

#[test]
fn credentials_need_both_members_as_strings() {
    assert_eq!(user_credentials_from_json(r#"{"username": "alice"}"#), None);
    assert_eq!(user_credentials_from_json(r#"{"secret_key": "k"}"#), None);
    assert_eq!(user_credentials_from_json(r#"{"username": 5, "secret_key": "k"}"#), None);
    assert_eq!(user_credentials_from_json(r#"{"username": "a", "secret_key": null}"#), None);
    assert_eq!(user_credentials_from_json(r#"{"username": "a", "secret_key": ["k"]}"#), None);
    assert_eq!(user_credentials_from_json(r#"{"Username": "a", "secret_key": "k"}"#), None);
    assert_eq!(user_credentials_from_json("{}"), None);
}

#[test]
fn credentials_need_a_json_object() {
    assert_eq!(user_credentials_from_json(""), None);
    assert_eq!(user_credentials_from_json("not json"), None);
    assert_eq!(user_credentials_from_json(r#"{"username": "a", "secret_key": "k""#), None);
    assert_eq!(user_credentials_from_json(r#"{"username": "a", "secret_key": "k"} trailing"#), None);
    assert_eq!(user_credentials_from_json(r#"["a", "k"]"#), None);
    assert_eq!(user_credentials_from_json(r#""username""#), None);
    assert_eq!(user_credentials_from_json("null"), None);
    assert_eq!(user_credentials_from_json("username"), None);
}

#[test]
fn cluster_key_is_read_from_a_json_object() {
    let content = r#"{"cluster_key": "PZMBhqk43w+HNr9lLGe+RYq+qWZPrksFWMF1k1UG/vwc="}"#;
    let key = cluster_key_from_json(content).unwrap();
    assert_eq!(key.cluster_key(), "PZMBhqk43w+HNr9lLGe+RYq+qWZPrksFWMF1k1UG/vwc=");
    let key = cluster_key_from_json(r#" { "other": true, "cluster_key": "" } "#).unwrap();
    assert_eq!(key.cluster_key(), "");
}

#[test]
fn cluster_key_needs_its_member_as_a_string() {
    assert_eq!(cluster_key_from_json("{}"), None);
    assert_eq!(cluster_key_from_json(r#"{"cluster_key": 12}"#), None);
    assert_eq!(cluster_key_from_json(r#"{"username": "a", "secret_key": "k"}"#), None);
    assert_eq!(cluster_key_from_json(r#"{"cluster_key": "k"#), None);
    assert_eq!(cluster_key_from_json("cluster_key"), None);
    assert_eq!(cluster_key_from_json(r#"["cluster_key"]"#), None);
}

#[test]
fn documents_are_read_member_by_member() {
    let document: serde_json::Value =
        serde_json::from_str(r#"{"username": "u", "secret_key": "s", "cluster_key": "c"}"#).unwrap();
    let credentials = credentials_from_document(&document).unwrap();
    assert_eq!(credentials, JSONCredentialsConfig::new("u".to_string(), "s".to_string()));
    let key = cluster_key_from_document(&document).unwrap();
    assert_eq!(key, ClusterKey::new("c".to_string()));

    let array: serde_json::Value = serde_json::from_str(r#"["u", "s"]"#).unwrap();
    assert_eq!(credentials_from_document(&array), None);
    assert_eq!(cluster_key_from_document(&array), None);

    let text: serde_json::Value = serde_json::from_str(r#""cluster_key""#).unwrap();
    assert_eq!(cluster_key_from_document(&text), None);

    let partial: serde_json::Value =
        serde_json::from_str(r#"{"username": "u", "secret_key": false}"#).unwrap();
    assert_eq!(credentials_from_document(&partial), None);
}

#[test]
fn credentials_are_made_of_both_members_or_not_at_all() {
    assert_eq!(
        credentials_from_members(Some("u".to_string()), Some("s".to_string())),
        Some(JSONCredentialsConfig::new("u".to_string(), "s".to_string()))
    );
    assert_eq!(credentials_from_members(Some("u".to_string()), None), None);
    assert_eq!(credentials_from_members(None, Some("s".to_string())), None);
    assert_eq!(credentials_from_members(None, None), None);
    assert_eq!(
        cluster_key_from_member(Some("k".to_string())),
        Some(ClusterKey::new("k".to_string()))
    );
    assert_eq!(cluster_key_from_member(None), None);
}
