use std::cell::RefCell;
use std::collections::BTreeMap;

use bytes::Bytes;
use etcd::auth::{
    self, parse_auth_change_response, parse_auth_response, status_response, AuthChange,
    AuthStatus, NewUser, Permission, Permissions, Role, RoleUpdate, User, UserDetail, UserUpdate,
};
use etcd::client::parse_empty_response;
use etcd::dispatch::first_ok;
use etcd::{
    Accept, ApiError, Client, ClientBuilder, Dispatch, EtcdError, Method, Reply, Request, Response,
};
use http::header::{HeaderMap, HeaderValue};

// A stand-in for one cluster member that keeps users and roles in memory and
// answers the requests of the auth API.

struct Member {
    enabled: bool,
    users: BTreeMap<String, (String, Vec<String>)>,
    roles: BTreeMap<String, (Vec<String>, Vec<String>)>,
}

fn quoted(text: &str) -> String {
    serde_json::to_string(text).unwrap()
}

fn strings(value: Option<&serde_json::Value>) -> Vec<String> {
    match value.and_then(|list| list.as_array()) {
        Some(items) => items.iter().filter_map(|item| item.as_str()).map(|s| s.to_owned()).collect(),
        None => Vec::new(),
    }
}

fn list(items: &[String]) -> String {
    let quoted: Vec<String> = items.iter().map(|item| quoted(item)).collect();
    format!("[{}]", quoted.join(","))
}

impl Member {
    fn new() -> Member {
        let mut roles = BTreeMap::new();
        roles.insert("guest".to_owned(), (vec!["/*".to_owned()], vec!["/*".to_owned()]));
        Member { enabled: false, users: BTreeMap::new(), roles }
    }

    fn user(&self, name: &str) -> String {
        format!("{{\"user\":{},\"roles\":{}}}", quoted(name), list(&self.users[name].1))
    }

    fn role(&self, name: &str) -> String {
        let (read, write) = &self.roles[name];
        format!(
            "{{\"role\":{},\"permissions\":{{\"kv\":{{\"read\":{},\"write\":{}}}}}}}",
            quoted(name),
            list(read),
            list(write)
        )
    }

    fn put_user(&mut self, name: &str, body: &serde_json::Value) -> (u16, String) {
        assert_eq!(body.get("user").and_then(|user| user.as_str()), Some(name));
        match self.users.get_mut(name) {
            None => {
                let password = body.get("password").and_then(|p| p.as_str()).unwrap().to_owned();
                self.users.insert(name.to_owned(), (password, strings(body.get("roles"))));
                (201, self.user(name))
            }
            Some((password, roles)) => {
                if let Some(new) = body.get("password").and_then(|p| p.as_str()) {
                    *password = new.to_owned();
                }
                roles.extend(strings(body.get("grant")));
                let revoked = strings(body.get("revoke"));
                roles.retain(|role| !revoked.contains(role));
                (200, self.user(name))
            }
        }
    }

    fn put_role(&mut self, name: &str, body: &serde_json::Value) -> (u16, String) {
        assert_eq!(body.get("role").and_then(|role| role.as_str()), Some(name));
        let kv = |side: &str| body.get(side).and_then(|p| p.get("kv")).cloned();
        match self.roles.get_mut(name) {
            None => {
                let given = kv("permissions").unwrap();
                let entry = (strings(given.get("read")), strings(given.get("write")));
                self.roles.insert(name.to_owned(), entry);
                (201, self.role(name))
            }
            Some((read, write)) => {
                if let Some(grant) = kv("grant") {
                    read.extend(strings(grant.get("read")));
                    write.extend(strings(grant.get("write")));
                }
                if let Some(revoke) = kv("revoke") {
                    let gone = strings(revoke.get("read"));
                    read.retain(|key| !gone.contains(key));
                    let gone = strings(revoke.get("write"));
                    write.retain(|key| !gone.contains(key));
                }
                (200, self.role(name))
            }
        }
    }

    fn serve(&mut self, authorization: Option<&str>, request: &Request, url: &str) -> (u16, Bytes) {
        let path = url.strip_prefix("http://etcd:2379/v2/auth").expect("a URL of the auth API");
        if self.enabled && !(request.method == Method::Get && path == "/enable") {
            let (_, (password, _)) = self.users.iter().find(|(name, _)| *name == "root").unwrap();
            let expected = format!("Basic {}", base64::encode(format!("root:{}", password)));
            if authorization != Some(expected.as_str()) {
                return (
                    401,
                    Bytes::from_static(
                        b"{\"errorCode\":110,\"message\":\"The request requires user authentication\",\"cause\":\"Insufficient credentials\",\"index\":0}",
                    ),
                );
            }
        }
        let body: serde_json::Value = match &request.body {
            Some(bytes) => {
                assert!(request.form_content_type);
                serde_json::from_slice(bytes).expect("a JSON body")
            }
            None => serde_json::Value::Null,
        };
        let (status, text) = match (request.method, path) {
            (Method::Get, "/enable") => (200, format!("{{\"enabled\":{}}}", self.enabled)),
            (Method::Put, "/enable") => {
                let status = if self.enabled { 409 } else { 200 };
                self.enabled = true;
                (status, String::new())
            }
            (Method::Delete, "/enable") => {
                let status = if self.enabled { 200 } else { 409 };
                self.enabled = false;
                (status, String::new())
            }
            (Method::Get, "/users") => {
                let users: Vec<String> = self.users.keys().map(|name| self.user(name)).collect();
                (200, format!("[{}]", users.join(",")))
            }
            (Method::Get, "/roles") => {
                let roles: Vec<String> = self.roles.keys().map(|name| self.role(name)).collect();
                (200, format!("[{}]", roles.join(",")))
            }
            (method, path) => {
                if let Some(name) = path.strip_prefix("/users/") {
                    match method {
                        Method::Put => self.put_user(name, &body),
                        Method::Get if self.users.contains_key(name) => (200, self.user(name)),
                        Method::Delete if self.users.remove(name).is_some() => (204, String::new()),
                        _ => (
                            404,
                            format!(
                                "{{\"errorCode\":100,\"message\":\"User does not exist.\",\"cause\":{},\"index\":0}}",
                                quoted(name)
                            ),
                        ),
                    }
                } else if let Some(name) = path.strip_prefix("/roles/") {
                    match method {
                        Method::Put => self.put_role(name, &body),
                        Method::Get if self.roles.contains_key(name) => (200, self.role(name)),
                        Method::Delete if self.roles.remove(name).is_some() => (204, String::new()),
                        _ => (
                            404,
                            format!(
                                "{{\"errorCode\":100,\"message\":\"Role does not exist.\",\"cause\":{},\"index\":0}}",
                                quoted(name)
                            ),
                        ),
                    }
                } else {
                    (404, String::new())
                }
            }
        };
        (status, Bytes::from(text))
    }
}

fn missing(what: &str) -> serde_json::Error {
    <serde_json::Error as serde::de::Error>::custom(format!("missing field `{}`", what))
}

fn name_of(value: &serde_json::Value, field: &str) -> Result<String, serde_json::Error> {
    value.get(field).and_then(|name| name.as_str()).map(|s| s.to_owned()).ok_or(missing(field))
}

fn optional_strings(value: Option<&serde_json::Value>) -> Option<Vec<String>> {
    value.and_then(|list| list.as_array()).map(|_| strings(value))
}

fn user_of(value: &serde_json::Value) -> Result<User, serde_json::Error> {
    Ok(User::from_parts(name_of(value, "user")?, strings(value.get("roles"))))
}

fn role_of(value: &serde_json::Value) -> Result<Role, serde_json::Error> {
    let kv = value.get("permissions").and_then(|p| p.get("kv")).ok_or(missing("permissions"))?;
    Ok(Role::from_parts(
        name_of(value, "role")?,
        optional_strings(kv.get("read")),
        optional_strings(kv.get("write")),
    ))
}

fn decode_user(body: Bytes) -> Result<User, serde_json::Error> {
    user_of(&serde_json::from_slice(&body)?)
}

fn decode_users(body: Bytes) -> Result<Vec<User>, serde_json::Error> {
    let value: serde_json::Value = serde_json::from_slice(&body)?;
    value.as_array().ok_or(missing("users"))?.iter().map(user_of).collect()
}

fn decode_role(body: Bytes) -> Result<Role, serde_json::Error> {
    role_of(&serde_json::from_slice(&body)?)
}

fn decode_roles(body: Bytes) -> Result<Vec<Role>, serde_json::Error> {
    let value: serde_json::Value = serde_json::from_slice(&body)?;
    value.as_array().ok_or(missing("roles"))?.iter().map(role_of).collect()
}

fn decode_status(body: Bytes) -> Result<AuthStatus, serde_json::Error> {
    let value: serde_json::Value = serde_json::from_slice(&body)?;
    let enabled = value.get("enabled").and_then(|e| e.as_bool()).ok_or(missing("enabled"))?;
    Ok(AuthStatus { enabled })
}

fn decode_api_error(body: Bytes) -> Result<ApiError, serde_json::Error> {
    let value: serde_json::Value = serde_json::from_slice(&body)?;
    Ok(ApiError {
        cause: name_of(&value, "cause")?,
        error_code: value.get("errorCode").and_then(|c| c.as_u64()).ok_or(missing("errorCode"))?
            as u16,
        index: value.get("index").and_then(|i| i.as_u64()).ok_or(missing("index"))?,
        message: name_of(&value, "message")?,
    })
}

type AuthResult<T> = Result<Response<T>, Vec<EtcdError>>;

/// Wrapper around the member that the clients of a test talk to.
struct TestClient {
    client: Client,
    member: RefCell<Member>,
}

impl TestClient {
    fn new() -> TestClient {
        TestClient { client: Client::new(&["http://etcd:2379"]), member: RefCell::new(Member::new()) }
    }

    fn exchange(&self, client: &Client, position: usize, request: &Request) -> (u16, Bytes) {
        assert_eq!(request.dispatch, Dispatch::FirstOk);
        let url = client.url(position, request);
        self.member.borrow_mut().serve(client.default_authorization(), request, &url)
    }

    fn data<T>(
        &self,
        client: &Client,
        request: Result<Request, Vec<EtcdError>>,
        decode: fn(Bytes) -> Result<T, serde_json::Error>,
    ) -> AuthResult<T> {
        let request = request?;
        let accept = match request.reply {
            Reply::Auth(accept) => accept,
            _ => panic!("expected a reply with data"),
        };
        first_ok(client.endpoint_count(), |position: usize| {
            let (status, body) = self.exchange(client, position, &request);
            parse_auth_response(status, &HeaderMap::new(), body, accept, decode, decode_api_error)
        })
    }

    fn empty(&self, client: &Client, request: Request) -> AuthResult<()> {
        assert_eq!(request.reply, Reply::Empty);
        first_ok(client.endpoint_count(), |position: usize| {
            let (status, body) = self.exchange(client, position, &request);
            parse_empty_response(status, &HeaderMap::new(), body, decode_api_error)
        })
    }

    fn change(&self, client: &Client, request: Request) -> AuthResult<AuthChange> {
        assert_eq!(request.reply, Reply::AuthChange);
        first_ok(client.endpoint_count(), |position: usize| {
            let (status, _) = self.exchange(client, position, &request);
            parse_auth_change_response(status, &HeaderMap::new())
        })
    }

    fn status(&self, client: &Client) -> AuthResult<bool> {
        self.data(client, Ok(auth::status()), decode_status).map(status_response)
    }
}

#[test]
fn auth() {
    let test_client = TestClient::new();
    let c = &test_client.client;
    let authed_client = ClientBuilder::new(&["http://etcd:2379"])
        .with_basic_auth("root".to_owned(), "secret".to_owned())
        .build();

    // Check that auth is disabled first.
    {
        let response = test_client.status(c).unwrap();
        assert_eq!(response.data, false);
    }

    // Create a new user.
    {
        let root_user = NewUser::new("root", "secret");
        let response = test_client.data(c, auth::create_user(&root_user), decode_user).unwrap();

        assert_eq!(response.data.name(), "root");
    }

    // Enable auth:
    {
        let response = test_client.change(c, auth::enable()).unwrap();
        assert_eq!(response.data, AuthChange::Changed);
    }

    // Update role:
    {
        let mut update_guest = RoleUpdate::new("guest");
        update_guest.revoke_kv_write_permission("/*");
        test_client.data(&authed_client, auth::update_role(&update_guest), decode_role).unwrap();
    }

    // Update another role:
    {
        let mut rkt_role = Role::new("rkt");
        rkt_role.grant_kv_read_permission("/rkt/*");
        rkt_role.grant_kv_write_permission("/rkt/*");
        test_client.data(&authed_client, auth::create_role(&rkt_role), decode_role).unwrap();
    }

    // Create a new user:
    {
        let mut rkt_user = NewUser::new("rkt", "secret");
        rkt_user.add_role("rkt");
        let response =
            test_client.data(&authed_client, auth::create_user(&rkt_user), decode_user).unwrap();

        let rkt_user = response.data;
        assert_eq!(rkt_user.name(), "rkt");
        let role_name = &rkt_user.role_names()[0];
        assert_eq!(role_name, "rkt");
    }

    // Update our user:
    {
        let mut update_rkt_user = UserUpdate::new("rkt");

        update_rkt_user.update_password("secret2");
        update_rkt_user.grant_role("root");
        test_client
            .data(&authed_client, auth::update_user(&update_rkt_user), decode_user)
            .unwrap();
    }

    // Read the role back:
    {
        let response =
            test_client.data(&authed_client, Ok(auth::get_role("rkt")), decode_role).unwrap();
        let role = response.data;
        assert!(role.kv_read_permissions().contains(&"/rkt/*".to_owned()));
        assert!(role.kv_write_permissions().contains(&"/rkt/*".to_owned()));
    }

    // Delete the user & role:
    {
        test_client.empty(&authed_client, auth::delete_user("rkt")).unwrap();
        test_client.empty(&authed_client, auth::delete_role("rkt")).unwrap();
    }

    // Update guest role:
    {
        let mut update_guest = RoleUpdate::new("guest");
        update_guest.grant_kv_write_permission("/*");
        test_client.data(&authed_client, auth::update_role(&update_guest), decode_role).unwrap();
    }

    // Disable auth:
    {
        let response = test_client.change(&authed_client, auth::disable()).unwrap();
        assert_eq!(response.data, AuthChange::Changed);
    }

    // Check that auth is disabled, using unauthorized client:
    {
        let response = test_client.status(c).unwrap();
        assert_eq!(response.data, false);
    }
}

#[test]
fn auth_round_trip() {
    let test_client = TestClient::new();
    let c = &test_client.client;

    assert_eq!(test_client.status(c).unwrap().data, false);

    let root_user = NewUser::new("root", "secret");
    test_client.data(c, auth::create_user(&root_user), decode_user).unwrap();

    assert_eq!(test_client.change(c, auth::enable()).unwrap().data, AuthChange::Changed);

    let authed_client = ClientBuilder::new(&["http://etcd:2379"])
        .with_basic_auth("root".to_owned(), "secret".to_owned())
        .build();
    assert_eq!(
        test_client.change(&authed_client, auth::enable()).unwrap().data,
        AuthChange::Unchanged
    );
    assert_eq!(test_client.status(c).unwrap().data, true);
}

#[test]
fn requests_without_credentials_are_refused_by_the_member() {
    let test_client = TestClient::new();
    let c = &test_client.client;
    let root_user = NewUser::new("root", "secret");
    test_client.data(c, auth::create_user(&root_user), decode_user).unwrap();
    test_client.change(c, auth::enable()).unwrap();

    match test_client.data(c, Ok(auth::get_users()), decode_users) {
        Err(errors) => {
            assert_eq!(errors.len(), 1);
            match &errors[0] {
                EtcdError::Api(error) => {
                    assert_eq!(error.error_code, 110);
                    assert_eq!(error.message, "The request requires user authentication");
                    assert_eq!(error.cause, "Insufficient credentials");
                }
                _ => panic!("expected EtcdError::Api"),
            }
        }
        Ok(_) => panic!("expected the request to be refused"),
    }
    match test_client.change(c, auth::disable()) {
        Err(errors) => match errors[0] {
            EtcdError::UnexpectedStatus(401) => {}
            _ => panic!("expected EtcdError::UnexpectedStatus"),
        },
        Ok(_) => panic!("expected the request to be refused"),
    }
}

#[test]
fn a_user_that_does_not_exist_is_an_error_of_the_member() {
    let test_client = TestClient::new();
    let c = &test_client.client;
    match test_client.data(c, Ok(auth::get_user("nobody")), decode_user) {
        Err(errors) => match &errors[0] {
            EtcdError::Api(error) => {
                assert_eq!(error.message, "User does not exist.");
                assert_eq!(error.cause, "nobody");
            }
            _ => panic!("expected EtcdError::Api"),
        },
        Ok(_) => panic!("expected the member to know no such user"),
    }
}

#[test]
fn users_and_roles_are_listed() {
    let test_client = TestClient::new();
    let c = &test_client.client;
    test_client.data(c, auth::create_user(&NewUser::new("alice", "a")), decode_user).unwrap();
    test_client.data(c, auth::create_user(&NewUser::new("bob", "b")), decode_user).unwrap();

    let users = test_client.data(c, Ok(auth::get_users()), decode_users).unwrap().data;
    let names: Vec<&str> = users.iter().map(|user| user.name()).collect();
    assert_eq!(names, vec!["alice", "bob"]);

    let user = test_client.data(c, Ok(auth::get_user("bob")), decode_user).unwrap().data;
    assert_eq!(user.name(), "bob");
    assert!(user.role_names().is_empty());

    let roles = test_client.data(c, Ok(auth::get_roles()), decode_roles).unwrap().data;
    assert_eq!(roles.len(), 1);
    assert_eq!(roles[0].name(), "guest");
    assert_eq!(roles[0].kv_read_permissions(), ["/*".to_owned()]);
}

fn body(request: &Request) -> String {
    String::from_utf8(request.body.as_ref().unwrap().to_vec()).unwrap()
}

#[test]
fn requests_are_what_the_auth_api_asks_for() {
    let request = auth::status();
    assert_eq!(request.method, Method::Get);
    assert_eq!(request.path, "/v2/auth/enable");
    assert_eq!(request.reply, Reply::Auth(Accept::OnlyOk));
    assert!(request.body.is_none());

    let request = auth::enable();
    assert_eq!(request.method, Method::Put);
    assert_eq!(request.path, "/v2/auth/enable");
    assert_eq!(request.reply, Reply::AuthChange);

    let request = auth::disable();
    assert_eq!(request.method, Method::Delete);
    assert_eq!(request.path, "/v2/auth/enable");
    assert_eq!(request.reply, Reply::AuthChange);

    let request = auth::get_users();
    assert_eq!((request.method, request.path.as_str()), (Method::Get, "/v2/auth/users"));
    let request = auth::get_roles();
    assert_eq!((request.method, request.path.as_str()), (Method::Get, "/v2/auth/roles"));
    let request = auth::get_user("rkt");
    assert_eq!((request.method, request.path.as_str()), (Method::Get, "/v2/auth/users/rkt"));
    assert_eq!(request.reply, Reply::Auth(Accept::OnlyOk));
    let request = auth::get_role("rkt");
    assert_eq!((request.method, request.path.as_str()), (Method::Get, "/v2/auth/roles/rkt"));

    let request = auth::delete_user("rkt");
    assert_eq!((request.method, request.path.as_str()), (Method::Delete, "/v2/auth/users/rkt"));
    assert_eq!(request.reply, Reply::Empty);
    let request = auth::delete_role("rkt");
    assert_eq!((request.method, request.path.as_str()), (Method::Delete, "/v2/auth/roles/rkt"));
    assert_eq!(request.reply, Reply::Empty);

    let mut user = NewUser::new("rkt", "secret");
    let request = auth::create_user(&user).unwrap();
    assert_eq!((request.method, request.path.as_str()), (Method::Put, "/v2/auth/users/rkt"));
    assert_eq!(request.reply, Reply::Auth(Accept::OkOrCreated));
    assert!(request.form_content_type);
    assert_eq!(body(&request), "{\"user\":\"rkt\",\"password\":\"secret\"}");
    user.add_role("rkt");
    user.add_role("guest");
    let request = auth::create_user(&user).unwrap();
    assert_eq!(
        body(&request),
        "{\"user\":\"rkt\",\"password\":\"secret\",\"roles\":[\"rkt\",\"guest\"]}"
    );

    let mut update = UserUpdate::new("rkt");
    let request = auth::update_user(&update).unwrap();
    assert_eq!((request.method, request.path.as_str()), (Method::Put, "/v2/auth/users/rkt"));
    assert_eq!(request.reply, Reply::Auth(Accept::OnlyOk));
    assert_eq!(body(&request), "{\"user\":\"rkt\"}");
    update.update_password("secret2");
    update.grant_role("root");
    update.revoke_role("guest");
    update.revoke_role("rkt");
    let request = auth::update_user(&update).unwrap();
    assert_eq!(
        body(&request),
        "{\"user\":\"rkt\",\"password\":\"secret2\",\"grant\":[\"root\"],\"revoke\":[\"guest\",\"rkt\"]}"
    );

    let mut role = Role::new("rkt");
    let request = auth::create_role(&role).unwrap();
    assert_eq!((request.method, request.path.as_str()), (Method::Put, "/v2/auth/roles/rkt"));
    assert_eq!(request.reply, Reply::Auth(Accept::OkOrCreated));
    assert!(request.form_content_type);
    assert_eq!(body(&request), "{\"role\":\"rkt\",\"permissions\":{\"kv\":{}}}");
    role.grant_kv_read_permission("/rkt/*");
    role.grant_kv_write_permission("/rkt/*");
    role.grant_kv_write_permission("/tmp/*");
    let request = auth::create_role(&role).unwrap();
    assert_eq!(
        body(&request),
        "{\"role\":\"rkt\",\"permissions\":{\"kv\":{\"read\":[\"/rkt/*\"],\"write\":[\"/rkt/*\",\"/tmp/*\"]}}}"
    );

    let mut update = RoleUpdate::new("guest");
    let request = auth::update_role(&update).unwrap();
    assert_eq!((request.method, request.path.as_str()), (Method::Put, "/v2/auth/roles/guest"));
    assert_eq!(request.reply, Reply::Auth(Accept::OnlyOk));
    assert_eq!(body(&request), "{\"role\":\"guest\"}");
    update.revoke_kv_write_permission("/*");
    let request = auth::update_role(&update).unwrap();
    assert_eq!(body(&request), "{\"role\":\"guest\",\"revoke\":{\"kv\":{\"write\":[\"/*\"]}}}");
    update.grant_kv_read_permission("/a");
    update.grant_kv_write_permission("/b");
    update.revoke_kv_read_permission("/c");
    let request = auth::update_role(&update).unwrap();
    assert_eq!(
        body(&request),
        "{\"role\":\"guest\",\"grant\":{\"kv\":{\"read\":[\"/a\"],\"write\":[\"/b\"]}},\"revoke\":{\"kv\":{\"read\":[\"/c\"],\"write\":[\"/*\"]}}}"
    );
}

#[test]
fn json_bodies_escape_what_json_reserves() {
    let user = NewUser::new("a\"b\\c", "line\nbreak\ttab\u{1}\u{1f}\u{7f}\u{e9}/");
    assert_eq!(
        user.to_json().unwrap(),
        "{\"user\":\"a\\\"b\\\\c\",\"password\":\"line\\nbreak\\ttab\\u0001\\u001f\u{7f}\u{e9}/\"}"
    );
    let user = NewUser::new("\u{8}\u{c}\r", "");
    assert_eq!(user.to_json().unwrap(), "{\"user\":\"\\b\\f\\r\",\"password\":\"\"}");
}

#[test]
fn builders_keep_what_they_are_given() {
    let user = NewUser::new("root", "secret");
    assert_eq!(user.name(), "root");
    let update = UserUpdate::new("rkt");
    assert_eq!(update.name(), "rkt");
    let update = RoleUpdate::new("guest");
    assert_eq!(update.name(), "guest");

    let mut role = Role::new("rkt");
    assert_eq!(role.name(), "rkt");
    assert!(role.kv_read_permissions().is_empty());
    assert!(role.kv_write_permissions().is_empty());
    role.grant_kv_read_permission("/a");
    role.grant_kv_read_permission("/b");
    role.grant_kv_write_permission("/c");
    assert_eq!(role.kv_read_permissions(), ["/a".to_owned(), "/b".to_owned()]);
    assert_eq!(role.kv_write_permissions(), ["/c".to_owned()]);

    let role = Role::from_parts("r".to_owned(), None, Some(vec!["/w".to_owned()]));
    assert!(role.kv_read_permissions().is_empty());
    assert_eq!(role.kv_write_permissions(), ["/w".to_owned()]);

    let detail = UserDetail::from_parts("u".to_owned(), vec![role.clone()]);
    assert_eq!(detail.name(), "u");
    assert_eq!(detail.roles(), [role]);

    let user = User::from_parts("u".to_owned(), vec!["r".to_owned()]);
    assert_eq!(user.name(), "u");
    assert_eq!(user.role_names(), ["r".to_owned()]);
}

#[test]
fn permissions_collect_keys_in_the_order_given() {
    let mut permission = Permission::new();
    assert_eq!(permission, Permission::new());
    permission.modify_read_permission("/a");
    permission.modify_write_permission("/b");
    permission.modify_read_permission("/c");
    let mut expected = Permission::new();
    expected.modify_read_permission("/a");
    expected.modify_read_permission("/c");
    expected.modify_write_permission("/b");
    assert_eq!(permission, expected);
    assert_eq!(Permissions::new(), Permissions::new());
}

#[test]
fn auth_reply_under_another_status_is_the_error_of_the_member() {
    let refused =
        b"{\"errorCode\":110,\"message\":\"no\",\"cause\":\"credentials\",\"index\":3}";
    let result = parse_auth_response(
        401,
        &HeaderMap::new(),
        Bytes::from_static(refused),
        Accept::OnlyOk,
        decode_user,
        decode_api_error,
    );
    match result {
        Err(EtcdError::Api(error)) => {
            assert_eq!(error.error_code, 110);
            assert_eq!(error.message, "no");
            assert_eq!(error.cause, "credentials");
            assert_eq!(error.index, 3);
        }
        _ => panic!("expected EtcdError::Api"),
    }
    let result = parse_auth_response(
        201,
        &HeaderMap::new(),
        Bytes::from_static(refused),
        Accept::OnlyOk,
        decode_user,
        decode_api_error,
    );
    match result {
        Err(EtcdError::Api(error)) => assert_eq!(error.error_code, 110),
        _ => panic!("expected EtcdError::Api"),
    }
}

#[test]
fn auth_reply_that_does_not_decode_is_a_serialization_error() {
    let result = parse_auth_response(
        404,
        &HeaderMap::new(),
        Bytes::from_static(b"{\"user\":\"rkt\",\"roles\":[]}"),
        Accept::OnlyOk,
        decode_user,
        decode_api_error,
    );
    match result {
        Err(EtcdError::Serialization(_)) => {}
        _ => panic!("expected EtcdError::Serialization"),
    }
    let result = parse_auth_response(
        500,
        &HeaderMap::new(),
        Bytes::from_static(b"internal server error"),
        Accept::OkOrCreated,
        decode_user,
        decode_api_error,
    );
    match result {
        Err(EtcdError::Serialization(_)) => {}
        _ => panic!("expected EtcdError::Serialization"),
    }
    let result = parse_auth_response(
        200,
        &HeaderMap::new(),
        Bytes::from_static(b"not json"),
        Accept::OnlyOk,
        decode_user,
        decode_api_error,
    );
    match result {
        Err(EtcdError::Serialization(_)) => {}
        _ => panic!("expected EtcdError::Serialization"),
    }
}

#[test]
fn auth_reply_under_an_accepted_status_is_the_payload() {
    let mut headers = HeaderMap::new();
    headers.insert("x-raft-term", HeaderValue::from_static("4"));
    let result = parse_auth_response(
        201,
        &headers,
        Bytes::from_static(b"{\"user\":\"rkt\",\"roles\":[\"a\"]}"),
        Accept::OkOrCreated,
        decode_user,
        decode_api_error,
    );
    let response = result.unwrap();
    assert_eq!(response.data.role_names(), ["a".to_owned()]);
    assert_eq!(response.cluster_info.raft_term, Some(4));
}

#[test]
fn auth_change_reply_tells_changed_from_unchanged() {
    let mut headers = HeaderMap::new();
    headers.insert("x-etcd-index", HeaderValue::from_static("8"));
    let changed = parse_auth_change_response(200, &headers).unwrap();
    assert_eq!(changed.data, AuthChange::Changed);
    assert_eq!(changed.cluster_info.etcd_index, Some(8));
    let unchanged = parse_auth_change_response(409, &headers).unwrap();
    assert_eq!(unchanged.data, AuthChange::Unchanged);
    for status in [201u16, 204, 400, 401, 500] {
        match parse_auth_change_response(status, &headers) {
            Err(EtcdError::UnexpectedStatus(code)) => assert_eq!(code, status),
            _ => panic!("expected EtcdError::UnexpectedStatus"),
        }
    }
}
