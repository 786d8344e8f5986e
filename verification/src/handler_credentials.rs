use vstd::prelude::*;

verus! {

/// `serde_json::Value`, a parsed JSON document. Verus sees nothing inside it.
#[verifier::external_type_specification]
#[verifier::external_body]
pub struct ExJsonValue(serde_json::Value);

/// `serde_json::Error`, the reason why a text is no JSON document.
#[verifier::external_type_specification]
#[verifier::external_body]
pub struct ExJsonError(serde_json::Error);

/// The members of the JSON object `value` that hold a string, each key with
/// its text. Empty where `value` is no object.
pub uninterp spec fn text_members(value: serde_json::Value) -> Map<Seq<char>, Seq<char>>;

/// The text that `value` holds where it is a JSON string, nothing otherwise.
pub uninterp spec fn string_value(value: serde_json::Value) -> Option<Seq<char>>;

/// The string members of the JSON document that `text` denotes, where it
/// denotes one and nothing follows it; nothing where `text` is not JSON.
pub uninterp spec fn json_text_members(text: Seq<char>) -> Option<Map<Seq<char>, Seq<char>>>;

/// `serde_json::from_str` at `serde_json::Value`: parses the whole of `text`
/// as one JSON document. Fails where `text` is not JSON or holds more than
/// one document.
#[verifier::external_body]
fn parse_document(text: &str) -> (r: Result<serde_json::Value, serde_json::Error>)
    ensures
        match r {
            Ok(document) => json_text_members(text@) == Some(text_members(document)),
            Err(_) => json_text_members(text@).is_none(),
        },
{
    serde_json::from_str::<serde_json::Value>(text)
}

/// `serde_json::Value::get` with a string index: the member of the object
/// `value` under `key`. Nothing where `value` is no object or has no such
/// member. A member that is returned holds a string exactly when the key is
/// among the string members of `value`, and then it holds that text.
#[verifier::external_body]
fn member<'a>(value: &'a serde_json::Value, key: &str) -> (r: Option<&'a serde_json::Value>)
    ensures
        match r {
            Some(found) => string_value(*found) == (if text_members(*value).contains_key(key@) {
                Some(text_members(*value)[key@])
            } else {
                None
            }),
            None => !text_members(*value).contains_key(key@),
        },
{
    value.get(key)
}

/// `serde_json::Value::as_str`: the text of `value` where it is a JSON
/// string, nothing otherwise.
#[verifier::external_body]
fn text<'a>(value: &'a serde_json::Value) -> (r: Option<&'a str>)
    ensures
        r.is_some() == string_value(*value).is_some(),
        r matches Some(found) ==> Some(found@) == string_value(*value),
{
    value.as_str()
}

/// What a `JSONCredentialsConfig` stands for.
pub struct CredentialsView {
    pub username: Seq<char>,
    pub secret_key: Seq<char>,
}

/// The name of a user and the secret key that proves who they are. Once made
/// it does not change.
#[derive(Debug, Clone, PartialEq, Eq)]
pub struct JSONCredentialsConfig {
    username: String,
    secret_key: String,
}

impl View for JSONCredentialsConfig {
    type V = CredentialsView;

    closed spec fn view(&self) -> CredentialsView {
        CredentialsView { username: self.username@, secret_key: self.secret_key@ }
    }
}

impl JSONCredentialsConfig {
    pub fn new(username: String, secret: String) -> (r: Self)
        ensures
            r@ == (CredentialsView { username: username@, secret_key: secret@ }),
    {
        Self { username, secret_key: secret }
    }

    pub fn username(&self) -> (r: &str)
        ensures
            r@ == self@.username,
    {
        self.username.as_str()
    }

    pub fn secret(&self) -> (r: &str)
        ensures
            r@ == self@.secret_key,
    {
        self.secret_key.as_str()
    }
}

/// The public key by which a cluster proves what it is.
#[derive(Debug, Clone, PartialEq, Eq)]
pub struct ClusterKey {
    cluster_key: String,
}

impl View for ClusterKey {
    type V = Seq<char>;

    closed spec fn view(&self) -> Seq<char> {
        self.cluster_key@
    }
}

impl ClusterKey {
    pub fn new(cluster_key: String) -> (r: Self)
        ensures
            r@ == cluster_key@,
    {
        Self { cluster_key }
    }

    pub fn cluster_key(&self) -> (r: &str)
        ensures
            r@ == self@,
    {
        self.cluster_key.as_str()
    }
}

/// The credentials that an object with these string members gives: its
/// `username` and its `secret_key`. Nothing where either is missing.
pub open spec fn credentials_of(members: Map<Seq<char>, Seq<char>>) -> Option<CredentialsView> {
    if members.contains_key("username"@) && members.contains_key("secret_key"@) {
        Some(
            CredentialsView {
                username: members["username"@],
                secret_key: members["secret_key"@],
            },
        )
    } else {
        None
    }
}

/// The cluster key that an object with these string members gives: its
/// `cluster_key`. Nothing where it is missing.
pub open spec fn cluster_key_of(members: Map<Seq<char>, Seq<char>>) -> Option<Seq<char>> {
    if members.contains_key("cluster_key"@) {
        Some(members["cluster_key"@])
    } else {
        None
    }
}

/// The text of the member `key` of `document`, where it has one that holds a
/// string.
fn text_member(document: &serde_json::Value, key: &str) -> (r: Option<String>)
    ensures
        r.is_some() == text_members(*document).contains_key(key@),
        r matches Some(found) ==> found@ == text_members(*document)[key@],
{
    match member(document, key) {
        None => None,
        Some(found) => match text(found) {
            None => None,
            Some(content) => Some(content.to_owned()),
        },
    }
}

/// The credentials made of the two members of a credentials document, where
/// both are there.
pub fn credentials_from_members(username: Option<String>, secret_key: Option<String>) -> (r:
    Option<JSONCredentialsConfig>)
    ensures
        match (username, secret_key) {
            (Some(name), Some(secret)) => r matches Some(credentials) && credentials@ == (
            CredentialsView { username: name@, secret_key: secret@ }),
            _ => r.is_none(),
        },
{
    match username {
        None => None,
        Some(name) => match secret_key {
            None => None,
            Some(secret) => Some(JSONCredentialsConfig::new(name, secret)),
        },
    }
}

/// The cluster key made of the member of a cluster key document, where it is
/// there.
pub fn cluster_key_from_member(cluster_key: Option<String>) -> (r: Option<ClusterKey>)
    ensures
        match cluster_key {
            Some(key) => r matches Some(made) && made@ == key@,
            None => r.is_none(),
        },
{
    match cluster_key {
        Some(key) => Some(ClusterKey::new(key)),
        None => None,
    }
}

/// Reads user credentials out of a parsed document: an object whose members
/// `username` and `secret_key` are strings. Other members are passed over.
pub fn credentials_from_document(document: &serde_json::Value) -> (r: Option<
    JSONCredentialsConfig,
>)
    ensures
        r.is_some() == credentials_of(text_members(*document)).is_some(),
        r matches Some(credentials) ==> Some(credentials@) == credentials_of(
            text_members(*document),
        ),
{
    let username = text_member(document, "username");
    let secret_key = text_member(document, "secret_key");
    credentials_from_members(username, secret_key)
}

/// Reads a cluster key out of a parsed document: an object whose member
/// `cluster_key` is a string. Other members are passed over.
pub fn cluster_key_from_document(document: &serde_json::Value) -> (r: Option<ClusterKey>)
    ensures
        r.is_some() == cluster_key_of(text_members(*document)).is_some(),
        r matches Some(key) ==> Some(key@) == cluster_key_of(text_members(*document)),
{
    cluster_key_from_member(text_member(document, "cluster_key"))
}

/// The credentials that the content of a credentials file gives; nothing
/// where the content is not JSON or lacks a member.
pub open spec fn credentials_in(content: Seq<char>) -> Option<CredentialsView> {
    match json_text_members(content) {
        Some(members) => credentials_of(members),
        None => None,
    }
}

/// The cluster key that the content of a cluster key file gives; nothing
/// where the content is not JSON or lacks the member.
pub open spec fn cluster_key_in(content: Seq<char>) -> Option<Seq<char>> {
    match json_text_members(content) {
        Some(members) => cluster_key_of(members),
        None => None,
    }
}

/// Reads user credentials from the content of a credentials file: a JSON
/// object with the string members `username` and `secret_key`. Content that
/// is not of this form gives nothing.
pub fn user_credentials_from_json(content: &str) -> (r: Option<JSONCredentialsConfig>)
    ensures
        r.is_some() == credentials_in(content@).is_some(),
        r matches Some(credentials) ==> Some(credentials@) == credentials_in(content@),
{
    match parse_document(content) {
        Ok(document) => credentials_from_document(&document),
        Err(_) => None,
    }
}

/// Reads a cluster key from the content of a cluster key file: a JSON object
/// with the string member `cluster_key`. Content that is not of this form
/// gives nothing.
pub fn cluster_key_from_json(content: &str) -> (r: Option<ClusterKey>)
    ensures
        r.is_some() == cluster_key_in(content@).is_some(),
        r matches Some(key) ==> Some(key@) == cluster_key_in(content@),
{
    match parse_document(content) {
        Ok(document) => cluster_key_from_document(&document),
        Err(_) => None,
    }
}

} // verus!
