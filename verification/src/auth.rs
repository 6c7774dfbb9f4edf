//! etcd's authentication and authorization API.
//!
//! These API endpoints are used to manage users and roles.

use bytes::Bytes;
use http::header::{HeaderMap, HeaderValue};
use vstd::prelude::*;
use vstd::string::StringExecFns;

use crate::client::{
    build_url as build_member_url, cluster_info_of, header_values, ClusterInfo, Endpoint, Response,
};
use crate::error::{ApiError, EtcdError};
use crate::json::{
    json_object, json_string, json_string_array, json_string_text, json_strings, JsonObject,
    Member,
};
use crate::request::{
    bare_request, string_into_bytes, text_request, Accept, Dispatch, Method, Reply, Request,
};

verus! {

/// What a list of strings spells.
pub open spec fn texts(items: Seq<String>) -> Seq<Seq<char>> {
    items.map_values(|item: String| item@)
}

/// What a list of strings that may be absent spells.
pub open spec fn optional_texts(items: Option<Vec<String>>) -> Option<Seq<Seq<char>>> {
    match items {
        Some(items) => Some(texts(items@)),
        None => None,
    }
}

/// A list that may be absent, with one more item at its end. An absent list
/// counts as empty.
pub open spec fn with_item(items: Option<Seq<Seq<char>>>, item: Seq<char>) -> Option<
    Seq<Seq<char>>,
> {
    match items {
        Some(items) => Some(items.push(item)),
        None => Some(seq![item]),
    }
}

/// The items of a list that may be absent. An absent list counts as empty.
pub open spec fn items_or_none(items: Option<Seq<Seq<char>>>) -> Seq<Seq<char>> {
    match items {
        Some(items) => items,
        None => Seq::empty(),
    }
}

fn add_item(items: &mut Option<Vec<String>>, item: &str)
    ensures
        optional_texts(*final(items)) == with_item(optional_texts(*old(items)), item@),
{
    let mut list: Vec<String> = match items.take() {
        Some(list) => list,
        None => Vec::new(),
    };
    list.push(String::from_str(item));
    *items = Some(list);
}

/// The structure returned by the `GET /v2/auth/enable` endpoint.
#[derive(Clone, Copy, Debug, PartialEq, Eq, Hash, Structural)]
pub struct AuthStatus {
    /// Whether or not the auth system is enabled.
    pub enabled: bool,
}

/// The type returned when the auth system is successfully enabled or
/// disabled.
#[derive(Clone, Copy, Debug, PartialEq, Eq, Hash, Structural)]
pub enum AuthChange {
    /// The auth system was successfully enabled or disabled.
    Changed,
    /// The auth system was already in the desired state.
    Unchanged,
}

/// An existing etcd user with a list of their granted roles.
#[derive(Clone, Debug, PartialEq, Eq, Hash)]
pub struct User {
    /// The user's name.
    name: String,
    /// The names of roles granted to the user.
    roles: Vec<String>,
}

impl User {
    /// The user's name.
    pub closed spec fn spec_name(&self) -> Seq<char> {
        self.name@
    }

    /// The names of the roles granted to the user.
    pub closed spec fn spec_role_names(&self) -> Seq<String> {
        self.roles@
    }

    /// A user as a member states it.
    pub fn from_parts(name: String, roles: Vec<String>) -> (user: User)
        ensures
            user.spec_name() == name@,
            user.spec_role_names() == roles@,
    {
        User { name, roles }
    }

    /// Returns the user's name.
    pub fn name(&self) -> (r: &str)
        ensures
            r@ == self.spec_name(),
    {
        self.name.as_str()
    }

    /// Returns the names of the roles granted to the user.
    pub fn role_names(&self) -> (r: &[String])
        ensures
            r@ == self.spec_role_names(),
    {
        self.roles.as_slice()
    }
}

/// An existing etcd user with details of granted roles.
#[derive(Clone, Debug, PartialEq, Eq, Hash)]
pub struct UserDetail {
    /// The user's name.
    name: String,
    /// Roles granted to the user.
    roles: Vec<Role>,
}

impl UserDetail {
    /// The user's name.
    pub closed spec fn spec_name(&self) -> Seq<char> {
        self.name@
    }

    /// The roles granted to the user.
    pub closed spec fn spec_roles(&self) -> Seq<Role> {
        self.roles@
    }

    /// A user as a member states it.
    pub fn from_parts(name: String, roles: Vec<Role>) -> (user: UserDetail)
        ensures
            user.spec_name() == name@,
            user.spec_roles() == roles@,
    {
        UserDetail { name, roles }
    }

    /// Returns the user's name.
    pub fn name(&self) -> (r: &str)
        ensures
            r@ == self.spec_name(),
    {
        self.name.as_str()
    }

    /// Returns the roles granted to the user.
    pub fn roles(&self) -> (r: &[Role])
        ensures
            r@ == self.spec_roles(),
    {
        self.roles.as_slice()
    }
}

/// Parameters used to create a new etcd user.
#[derive(Clone, Debug, PartialEq, Eq, Hash)]
pub struct NewUser {
    /// The user's name.
    name: String,
    /// The user's password.
    password: String,
    /// An initial set of roles granted to the user.
    roles: Option<Vec<String>>,
}

/// The mathematical content of a [`NewUser`].
pub ghost struct NewUserView {
    pub name: Seq<char>,
    pub password: Seq<char>,
    pub roles: Option<Seq<Seq<char>>>,
}

impl View for NewUser {
    type V = NewUserView;

    closed spec fn view(&self) -> NewUserView {
        NewUserView {
            name: self.name@,
            password: self.password@,
            roles: optional_texts(self.roles),
        }
    }
}

impl NewUser {
    /// Creates a new user.
    pub fn new(name: &str, password: &str) -> (user: NewUser)
        ensures
            user@ == (NewUserView { name: name@, password: password@, roles: None }),
    {
        NewUser { name: String::from_str(name), password: String::from_str(password), roles: None }
    }

    /// Gets the name of the new user.
    pub fn name(&self) -> (r: &str)
        ensures
            r@ == self@.name,
    {
        self.name.as_str()
    }

    /// Grants a role to the new user.
    pub fn add_role(&mut self, role: &str)
        ensures
            final(self)@ == (NewUserView {
                roles: with_item(old(self)@.roles, role@),
                ..old(self)@
            }),
    {
        add_item(&mut self.roles, role);
    }
}

/// Parameters used to update an existing etcd user.
#[derive(Clone, Debug, PartialEq, Eq, Hash)]
pub struct UserUpdate {
    /// The user's name.
    name: String,
    /// A new password for the user.
    password: Option<String>,
    /// Roles being granted to the user.
    grants: Option<Vec<String>>,
    /// Roles being revoked from the user.
    revocations: Option<Vec<String>>,
}

/// The mathematical content of a [`UserUpdate`].
pub ghost struct UserUpdateView {
    pub name: Seq<char>,
    pub password: Option<Seq<char>>,
    pub grants: Option<Seq<Seq<char>>>,
    pub revocations: Option<Seq<Seq<char>>>,
}

impl View for UserUpdate {
    type V = UserUpdateView;

    closed spec fn view(&self) -> UserUpdateView {
        UserUpdateView {
            name: self.name@,
            password: match self.password {
                Some(password) => Some(password@),
                None => None,
            },
            grants: optional_texts(self.grants),
            revocations: optional_texts(self.revocations),
        }
    }
}

impl UserUpdate {
    /// Creates a new `UserUpdate` for the given user.
    pub fn new(name: &str) -> (update: UserUpdate)
        ensures
            update@ == (UserUpdateView {
                name: name@,
                password: None,
                grants: None,
                revocations: None,
            }),
    {
        UserUpdate { name: String::from_str(name), password: None, grants: None, revocations: None }
    }

    /// Gets the name of the user being updated.
    pub fn name(&self) -> (r: &str)
        ensures
            r@ == self@.name,
    {
        self.name.as_str()
    }

    /// Updates the user's password.
    pub fn update_password(&mut self, password: &str)
        ensures
            final(self)@ == (UserUpdateView { password: Some(password@), ..old(self)@ }),
    {
        self.password = Some(String::from_str(password));
    }

    /// Grants the given role to the user.
    pub fn grant_role(&mut self, role: &str)
        ensures
            final(self)@ == (UserUpdateView {
                grants: with_item(old(self)@.grants, role@),
                ..old(self)@
            }),
    {
        add_item(&mut self.grants, role);
    }

    /// Revokes the given role from the user.
    pub fn revoke_role(&mut self, role: &str)
        ensures
            final(self)@ == (UserUpdateView {
                revocations: with_item(old(self)@.revocations, role@),
                ..old(self)@
            }),
    {
        add_item(&mut self.revocations, role);
    }
}

/// A set of read and write access permissions for etcd resources.
#[derive(Clone, Debug, PartialEq, Eq, Hash)]
pub struct Permission {
    /// Resources allowed to be read.
    read: Option<Vec<String>>,
    /// Resources allowed to be written.
    write: Option<Vec<String>>,
}

/// The mathematical content of a [`Permission`].
pub ghost struct PermissionView {
    pub read: Option<Seq<Seq<char>>>,
    pub write: Option<Seq<Seq<char>>>,
}

impl View for Permission {
    type V = PermissionView;

    closed spec fn view(&self) -> PermissionView {
        PermissionView { read: optional_texts(self.read), write: optional_texts(self.write) }
    }
}

impl Permission {
    /// Creates a new permission record.
    pub fn new() -> (permission: Permission)
        ensures
            permission@ == (PermissionView { read: None, write: None }),
    {
        Permission { read: None, write: None }
    }

    /// Modifies read access to a resource.
    pub fn modify_read_permission(&mut self, key: &str)
        ensures
            final(self)@ == (PermissionView {
                read: with_item(old(self)@.read, key@),
                ..old(self)@
            }),
    {
        add_item(&mut self.read, key);
    }

    /// Modifies write access to a resource.
    pub fn modify_write_permission(&mut self, key: &str)
        ensures
            final(self)@ == (PermissionView {
                write: with_item(old(self)@.write, key@),
                ..old(self)@
            }),
    {
        add_item(&mut self.write, key);
    }
}

/// The access permissions granted to a role.
#[derive(Clone, Debug, PartialEq, Eq, Hash)]
pub struct Permissions {
    /// Permissions for etcd's key-value store.
    kv: Permission,
}

impl View for Permissions {
    type V = PermissionView;

    /// The permissions for the key-value store, the one class of resources
    /// there is.
    closed spec fn view(&self) -> PermissionView {
        self.kv@
    }
}

impl Permissions {
    /// Creates a new set of permissions.
    pub fn new() -> (permissions: Permissions)
        ensures
            permissions@ == (PermissionView { read: None, write: None }),
    {
        Permissions { kv: Permission::new() }
    }
}

/// Permissions that may be absent, with one more key that may be read. Absent
/// permissions count as empty.
pub open spec fn with_read(permissions: Option<PermissionView>, key: Seq<char>) -> Option<
    PermissionView,
> {
    match permissions {
        Some(p) => Some(PermissionView { read: with_item(p.read, key), ..p }),
        None => Some(PermissionView { read: Some(seq![key]), write: None }),
    }
}

/// Permissions that may be absent, with one more key that may be written.
/// Absent permissions count as empty.
pub open spec fn with_write(permissions: Option<PermissionView>, key: Seq<char>) -> Option<
    PermissionView,
> {
    match permissions {
        Some(p) => Some(PermissionView { write: with_item(p.write, key), ..p }),
        None => Some(PermissionView { read: None, write: Some(seq![key]) }),
    }
}

/// The content of permissions that may be absent.
pub open spec fn optional_permissions(permissions: Option<Permissions>) -> Option<PermissionView> {
    match permissions {
        Some(p) => Some(p@),
        None => None,
    }
}

fn add_read(permissions: &mut Option<Permissions>, key: &str)
    ensures
        optional_permissions(*final(permissions)) == with_read(
            optional_permissions(*old(permissions)),
            key@,
        ),
{
    let mut held: Permissions = match permissions.take() {
        Some(held) => held,
        None => Permissions::new(),
    };
    held.kv.modify_read_permission(key);
    *permissions = Some(held);
}

fn add_write(permissions: &mut Option<Permissions>, key: &str)
    ensures
        optional_permissions(*final(permissions)) == with_write(
            optional_permissions(*old(permissions)),
            key@,
        ),
{
    let mut held: Permissions = match permissions.take() {
        Some(held) => held,
        None => Permissions::new(),
    };
    held.kv.modify_write_permission(key);
    *permissions = Some(held);
}

/// An authorization role.
#[derive(Clone, Debug, PartialEq, Eq, Hash)]
pub struct Role {
    /// The name of the role.
    name: String,
    /// Permissions granted to the role.
    permissions: Permissions,
}

/// The mathematical content of a [`Role`].
pub ghost struct RoleView {
    pub name: Seq<char>,
    pub permissions: PermissionView,
}

impl View for Role {
    type V = RoleView;

    closed spec fn view(&self) -> RoleView {
        RoleView { name: self.name@, permissions: self.permissions@ }
    }
}

impl Role {
    /// Creates a new role.
    pub fn new(name: &str) -> (role: Role)
        ensures
            role@ == (RoleView {
                name: name@,
                permissions: PermissionView { read: None, write: None },
            }),
    {
        Role { name: String::from_str(name), permissions: Permissions::new() }
    }

    /// A role as a member states it.
    pub fn from_parts(name: String, read: Option<Vec<String>>, write: Option<Vec<String>>) -> (role:
        Role)
        ensures
            role@ == (RoleView {
                name: name@,
                permissions: PermissionView {
                    read: optional_texts(read),
                    write: optional_texts(write),
                },
            }),
    {
        Role { name, permissions: Permissions { kv: Permission { read, write } } }
    }

    /// Gets the name of the role.
    pub fn name(&self) -> (r: &str)
        ensures
            r@ == self@.name,
    {
        self.name.as_str()
    }

    /// Grants read permission for a key in etcd's key-value store to this
    /// role.
    pub fn grant_kv_read_permission(&mut self, key: &str)
        ensures
            final(self)@ == (RoleView {
                permissions: PermissionView {
                    read: with_item(old(self)@.permissions.read, key@),
                    ..old(self)@.permissions
                },
                ..old(self)@
            }),
    {
        self.permissions.kv.modify_read_permission(key)
    }

    /// Grants write permission for a key in etcd's key-value store to this
    /// role.
    pub fn grant_kv_write_permission(&mut self, key: &str)
        ensures
            final(self)@ == (RoleView {
                permissions: PermissionView {
                    write: with_item(old(self)@.permissions.write, key@),
                    ..old(self)@.permissions
                },
                ..old(self)@
            }),
    {
        self.permissions.kv.modify_write_permission(key)
    }

    /// Returns a list of keys in etcd's key-value store that this role is
    /// allowed to read.
    pub fn kv_read_permissions(&self) -> (r: &[String])
        ensures
            texts(r@) == items_or_none(self@.permissions.read),
    {
        match &self.permissions.kv.read {
            Some(read) => read.as_slice(),
            None => {
                let none: &[String] = &[];
                none
            },
        }
    }

    /// Returns a list of keys in etcd's key-value store that this role is
    /// allowed to write.
    pub fn kv_write_permissions(&self) -> (r: &[String])
        ensures
            texts(r@) == items_or_none(self@.permissions.write),
    {
        match &self.permissions.kv.write {
            Some(write) => write.as_slice(),
            None => {
                let none: &[String] = &[];
                none
            },
        }
    }
}

/// Parameters used to update an existing authorization role.
#[derive(Clone, Debug, PartialEq, Eq, Hash)]
pub struct RoleUpdate {
    /// The name of the role.
    name: String,
    /// Permissions being added to the role.
    grants: Option<Permissions>,
    /// Permissions being removed from the role.
    revocations: Option<Permissions>,
}

/// The mathematical content of a [`RoleUpdate`].
pub ghost struct RoleUpdateView {
    pub name: Seq<char>,
    pub grants: Option<PermissionView>,
    pub revocations: Option<PermissionView>,
}

impl View for RoleUpdate {
    type V = RoleUpdateView;

    closed spec fn view(&self) -> RoleUpdateView {
        RoleUpdateView {
            name: self.name@,
            grants: optional_permissions(self.grants),
            revocations: optional_permissions(self.revocations),
        }
    }
}

impl RoleUpdate {
    /// Creates a new `RoleUpdate` for the given role.
    pub fn new(role: &str) -> (update: RoleUpdate)
        ensures
            update@ == (RoleUpdateView { name: role@, grants: None, revocations: None }),
    {
        RoleUpdate { name: String::from_str(role), grants: None, revocations: None }
    }

    /// Gets the name of the role being updated.
    pub fn name(&self) -> (r: &str)
        ensures
            r@ == self@.name,
    {
        self.name.as_str()
    }

    /// Grants read permission for a key in etcd's key-value store to this
    /// role.
    pub fn grant_kv_read_permission(&mut self, key: &str)
        ensures
            final(self)@ == (RoleUpdateView {
                grants: with_read(old(self)@.grants, key@),
                ..old(self)@
            }),
    {
        add_read(&mut self.grants, key);
    }

    /// Grants write permission for a key in etcd's key-value store to this
    /// role.
    pub fn grant_kv_write_permission(&mut self, key: &str)
        ensures
            final(self)@ == (RoleUpdateView {
                grants: with_write(old(self)@.grants, key@),
                ..old(self)@
            }),
    {
        add_write(&mut self.grants, key);
    }

    /// Revokes read permission for a key in etcd's key-value store from this
    /// role.
    pub fn revoke_kv_read_permission(&mut self, key: &str)
        ensures
            final(self)@ == (RoleUpdateView {
                revocations: with_read(old(self)@.revocations, key@),
                ..old(self)@
            }),
    {
        add_read(&mut self.revocations, key);
    }

    /// Revokes write permission for a key in etcd's key-value store from this
    /// role.
    pub fn revoke_kv_write_permission(&mut self, key: &str)
        ensures
            final(self)@ == (RoleUpdateView {
                revocations: with_write(old(self)@.revocations, key@),
                ..old(self)@
            }),
    {
        add_write(&mut self.revocations, key);
    }
}

/// The member `name` of an object for a value that may be absent: nothing
/// when it is.
pub open spec fn optional_member(name: Seq<char>, value: Option<Seq<char>>) -> Seq<Member> {
    match value {
        Some(v) => seq![(name, v)],
        None => Seq::empty(),
    }
}

/// The JSON string for a text that may be absent.
pub open spec fn optional_json_string(text: Option<Seq<char>>) -> Option<Seq<char>> {
    match text {
        Some(t) => Some(json_string_text(t)),
        None => None,
    }
}

/// The JSON array for a list of texts that may be absent.
pub open spec fn optional_json_array(items: Option<Seq<Seq<char>>>) -> Option<Seq<char>> {
    match items {
        Some(items) => Some(json_string_array(items)),
        None => None,
    }
}

/// The body that creates a user: `user`, `password`, and `roles` where roles
/// are given.
pub open spec fn new_user_json(user: NewUserView) -> Seq<char> {
    json_object(
        seq![("user"@, json_string_text(user.name)), ("password"@, json_string_text(user.password))]
            + optional_member("roles"@, optional_json_array(user.roles)),
    )
}

/// The body that updates a user: `user`, and `password`, `grant` and `revoke`
/// as far as they are given.
pub open spec fn user_update_json(update: UserUpdateView) -> Seq<char> {
    json_object(
        seq![("user"@, json_string_text(update.name))] + optional_member(
            "password"@,
            optional_json_string(update.password),
        ) + optional_member("grant"@, optional_json_array(update.grants)) + optional_member(
            "revoke"@,
            optional_json_array(update.revocations),
        ),
    )
}

/// Permissions as JSON: under `kv`, the lists `read` and `write` as far as
/// they are given.
pub open spec fn permissions_json(permissions: PermissionView) -> Seq<char> {
    json_object(
        seq![
            (
                "kv"@,
                json_object(
                    optional_member("read"@, optional_json_array(permissions.read))
                        + optional_member("write"@, optional_json_array(permissions.write)),
                ),
            ),
        ],
    )
}

/// Permissions that may be absent, as JSON.
pub open spec fn optional_permissions_json(permissions: Option<PermissionView>) -> Option<
    Seq<char>,
> {
    match permissions {
        Some(p) => Some(permissions_json(p)),
        None => None,
    }
}

/// The body that creates a role: `role` and `permissions`.
pub open spec fn role_json(role: RoleView) -> Seq<char> {
    json_object(
        seq![
            ("role"@, json_string_text(role.name)),
            ("permissions"@, permissions_json(role.permissions)),
        ],
    )
}

/// The body that updates a role: `role`, and `grant` and `revoke` as far as
/// they are given.
pub open spec fn role_update_json(update: RoleUpdateView) -> Seq<char> {
    json_object(
        seq![("role"@, json_string_text(update.name))] + optional_member(
            "grant"@,
            optional_permissions_json(update.grants),
        ) + optional_member("revoke"@, optional_permissions_json(update.revocations)),
    )
}

/// Adds the member `name` with the array of `items`, where there are any.
fn optional_array_member(
    object: &mut JsonObject,
    name: &str,
    items: &Option<Vec<String>>,
) -> (r: Result<(), serde_json::Error>)
    requires
        old(object).wf(),
    ensures
        final(object).wf(),
        r is Ok,
        final(object).members() == old(object).members() + optional_member(
            name@,
            optional_json_array(optional_texts(*items)),
        ),
{
    if let Some(items) = items {
        let array = json_strings(items)?;
        object.member(name, array.as_str());
    }
    Ok(())
}

fn permission_body(permission: &Permission) -> (r: Result<String, serde_json::Error>)
    ensures
        r matches Ok(json) && json@ == json_object(
            optional_member("read"@, optional_json_array(permission@.read)) + optional_member(
                "write"@,
                optional_json_array(permission@.write),
            ),
        ),
{
    let mut object = JsonObject::new();
    optional_array_member(&mut object, "read", &permission.read)?;
    optional_array_member(&mut object, "write", &permission.write)?;
    Ok(object.finish())
}

fn permissions_body(permissions: &Permissions) -> (r: Result<String, serde_json::Error>)
    ensures
        r matches Ok(json) && json@ == permissions_json(permissions@),
{
    let kv = permission_body(&permissions.kv)?;
    let mut object = JsonObject::new();
    object.member("kv", kv.as_str());
    Ok(object.finish())
}

/// Adds the member `name` with the JSON of `permissions`, where there are
/// any.
fn optional_permissions_member(
    object: &mut JsonObject,
    name: &str,
    permissions: &Option<Permissions>,
) -> (r: Result<(), serde_json::Error>)
    requires
        old(object).wf(),
    ensures
        final(object).wf(),
        r is Ok,
        final(object).members() == old(object).members() + optional_member(
            name@,
            optional_permissions_json(optional_permissions(*permissions)),
        ),
{
    if let Some(permissions) = permissions {
        let json = permissions_body(permissions)?;
        object.member(name, json.as_str());
    }
    Ok(())
}

impl NewUser {
    /// Writes the body of the request that creates this user.
    pub fn to_json(&self) -> (r: Result<String, serde_json::Error>)
        ensures
            r matches Ok(json) && json@ == new_user_json(self@),
    {
        let name = json_string(self.name.as_str())?;
        let password = json_string(self.password.as_str())?;
        let mut object = JsonObject::new();
        object.member("user", name.as_str());
        object.member("password", password.as_str());
        assert(object.members() =~= seq![("user"@, name@), ("password"@, password@)]);
        optional_array_member(&mut object, "roles", &self.roles)?;
        Ok(object.finish())
    }
}

impl UserUpdate {
    /// Writes the body of the request that makes this update.
    pub fn to_json(&self) -> (r: Result<String, serde_json::Error>)
        ensures
            r matches Ok(json) && json@ == user_update_json(self@),
    {
        let name = json_string(self.name.as_str())?;
        let mut object = JsonObject::new();
        object.member("user", name.as_str());
        let ghost named = object.members();
        if let Some(password) = &self.password {
            let json = json_string(password.as_str())?;
            object.member("password", json.as_str());
        }
        assert(object.members() =~= named + optional_member(
            "password"@,
            optional_json_string(self@.password),
        ));
        optional_array_member(&mut object, "grant", &self.grants)?;
        optional_array_member(&mut object, "revoke", &self.revocations)?;
        Ok(object.finish())
    }
}

impl Role {
    /// Writes the body of the request that creates this role.
    pub fn to_json(&self) -> (r: Result<String, serde_json::Error>)
        ensures
            r matches Ok(json) && json@ == role_json(self@),
    {
        let name = json_string(self.name.as_str())?;
        let permissions = permissions_body(&self.permissions)?;
        let mut object = JsonObject::new();
        object.member("role", name.as_str());
        object.member("permissions", permissions.as_str());
        assert(object.members() =~= seq![("role"@, name@), ("permissions"@, permissions@)]);
        Ok(object.finish())
    }
}

impl RoleUpdate {
    /// Writes the body of the request that makes this update.
    pub fn to_json(&self) -> (r: Result<String, serde_json::Error>)
        ensures
            r matches Ok(json) && json@ == role_update_json(self@),
    {
        let name = json_string(self.name.as_str())?;
        let mut object = JsonObject::new();
        object.member("role", name.as_str());
        optional_permissions_member(&mut object, "grant", &self.grants)?;
        optional_permissions_member(&mut object, "revoke", &self.revocations)?;
        Ok(object.finish())
    }
}

/// The part of a URL that names an auth resource, after the member's base.
pub open spec fn auth_path(path: Seq<char>) -> Seq<char> {
    "/v2/auth"@ + path
}

/// The path of one user.
pub open spec fn user_path(name: Seq<char>) -> Seq<char> {
    auth_path("/users/"@ + name)
}

/// The path of one role.
pub open spec fn role_path(name: Seq<char>) -> Seq<char> {
    auth_path("/roles/"@ + name)
}

fn build_path(path: &str) -> (r: String)
    ensures
        r@ == auth_path(path@),
{
    let mut r = String::from_str("/v2/auth");
    r.append(path);
    r
}

fn build_named_path(collection: &str, name: &str) -> (r: String)
    ensures
        r@ == auth_path(collection@ + name@),
{
    let mut r = String::from_str("/v2/auth");
    r.append(collection);
    r.append(name);
    r
}

/// Constructs the full URL for an API call.
pub fn build_url(endpoint: &Endpoint, path: &str) -> (url: String)
    ensures
        url@ == endpoint.base() + auth_path(path@),
{
    let suffix = build_path(path);
    build_member_url(endpoint, suffix.as_str())
}

/// What an operation with a JSON body comes to: its request, which carries
/// the body under the form content type. Writing the body does not fail.
pub open spec fn request_with_json(
    method: Method,
    path: Seq<char>,
    json: Seq<char>,
    reply: Reply,
    r: Result<Request, Vec<EtcdError>>,
) -> bool {
    match r {
        Ok(request) => request@ == text_request(method, path, json, true, reply),
        Err(_) => false,
    }
}

fn json_request(
    method: Method,
    path: String,
    body: Result<String, serde_json::Error>,
    reply: Reply,
) -> (r: Result<Request, Vec<EtcdError>>)
    ensures
        match body {
            Ok(json) => r matches Ok(request) && request@ == text_request(
                method,
                path@,
                json@,
                true,
                reply,
            ),
            Err(error) => r matches Err(errors) && errors@ == seq![EtcdError::Serialization(error)],
        },
{
    match body {
        Ok(json) => Ok(
            Request {
                method,
                path,
                body: Some(string_into_bytes(json)),
                form_content_type: true,
                reply,
                dispatch: Dispatch::FirstOk,
            },
        ),
        Err(error) => {
            let mut errors: Vec<EtcdError> = Vec::new();
            errors.push(EtcdError::from(error));
            Err(errors)
        },
    }
}

fn plain_request(method: Method, path: String, reply: Reply) -> (request: Request)
    ensures
        request@ == bare_request(method, path@, reply),
{
    Request {
        method,
        path,
        body: None,
        form_content_type: false,
        reply,
        dispatch: Dispatch::FirstOk,
    }
}

/// Creates a new role.
pub fn create_role(role: &Role) -> (r: Result<Request, Vec<EtcdError>>)
    ensures
        request_with_json(
            Method::Put,
            role_path(role@.name),
            role_json(role@),
            Reply::Auth(Accept::OkOrCreated),
            r,
        ),
{
    json_request(
        Method::Put,
        build_named_path("/roles/", role.name()),
        role.to_json(),
        Reply::Auth(Accept::OkOrCreated),
    )
}

/// Creates a new user.
pub fn create_user(user: &NewUser) -> (r: Result<Request, Vec<EtcdError>>)
    ensures
        request_with_json(
            Method::Put,
            user_path(user@.name),
            new_user_json(user@),
            Reply::Auth(Accept::OkOrCreated),
            r,
        ),
{
    json_request(
        Method::Put,
        build_named_path("/users/", user.name()),
        user.to_json(),
        Reply::Auth(Accept::OkOrCreated),
    )
}

/// Deletes a role.
pub fn delete_role(role_name: &str) -> (request: Request)
    ensures
        request@ == bare_request(Method::Delete, role_path(role_name@), Reply::Empty),
{
    plain_request(Method::Delete, build_named_path("/roles/", role_name), Reply::Empty)
}

/// Deletes a user.
pub fn delete_user(user_name: &str) -> (request: Request)
    ensures
        request@ == bare_request(Method::Delete, user_path(user_name@), Reply::Empty),
{
    plain_request(Method::Delete, build_named_path("/users/", user_name), Reply::Empty)
}

/// Attempts to disable the auth system.
pub fn disable() -> (request: Request)
    ensures
        request@ == bare_request(Method::Delete, auth_path("/enable"@), Reply::AuthChange),
{
    plain_request(Method::Delete, build_path("/enable"), Reply::AuthChange)
}

/// Attempts to enable the auth system.
pub fn enable() -> (request: Request)
    ensures
        request@ == bare_request(Method::Put, auth_path("/enable"@), Reply::AuthChange),
{
    plain_request(Method::Put, build_path("/enable"), Reply::AuthChange)
}

/// Gets a role.
pub fn get_role(role_name: &str) -> (request: Request)
    ensures
        request@ == bare_request(
            Method::Get,
            role_path(role_name@),
            Reply::Auth(Accept::OnlyOk),
        ),
{
    plain_request(
        Method::Get,
        build_named_path("/roles/", role_name),
        Reply::Auth(Accept::OnlyOk),
    )
}

/// Gets all roles.
pub fn get_roles() -> (request: Request)
    ensures
        request@ == bare_request(Method::Get, auth_path("/roles"@), Reply::Auth(Accept::OnlyOk)),
{
    plain_request(Method::Get, build_path("/roles"), Reply::Auth(Accept::OnlyOk))
}

/// Gets a user.
pub fn get_user(user_name: &str) -> (request: Request)
    ensures
        request@ == bare_request(
            Method::Get,
            user_path(user_name@),
            Reply::Auth(Accept::OnlyOk),
        ),
{
    plain_request(
        Method::Get,
        build_named_path("/users/", user_name),
        Reply::Auth(Accept::OnlyOk),
    )
}

/// Gets all users.
pub fn get_users() -> (request: Request)
    ensures
        request@ == bare_request(Method::Get, auth_path("/users"@), Reply::Auth(Accept::OnlyOk)),
{
    plain_request(Method::Get, build_path("/users"), Reply::Auth(Accept::OnlyOk))
}

/// Determines whether or not the auth system is enabled. The reply holds an
/// [`AuthStatus`]; see [`status_response`].
pub fn status() -> (request: Request)
    ensures
        request@ == bare_request(Method::Get, auth_path("/enable"@), Reply::Auth(Accept::OnlyOk)),
{
    plain_request(Method::Get, build_path("/enable"), Reply::Auth(Accept::OnlyOk))
}

/// Turns the reply to a status request into the answer to the question
/// whether the auth system is enabled.
pub fn status_response(response: Response<AuthStatus>) -> (r: Response<bool>)
    ensures
        r.data == response.data.enabled,
        r.cluster_info == response.cluster_info,
{
    Response { cluster_info: response.cluster_info, data: response.data.enabled }
}

/// Updates an existing role.
pub fn update_role(role: &RoleUpdate) -> (r: Result<Request, Vec<EtcdError>>)
    ensures
        request_with_json(
            Method::Put,
            role_path(role@.name),
            role_update_json(role@),
            Reply::Auth(Accept::OnlyOk),
            r,
        ),
{
    json_request(
        Method::Put,
        build_named_path("/roles/", role.name()),
        role.to_json(),
        Reply::Auth(Accept::OnlyOk),
    )
}

/// Updates an existing user.
pub fn update_user(user: &UserUpdate) -> (r: Result<Request, Vec<EtcdError>>)
    ensures
        request_with_json(
            Method::Put,
            user_path(user@.name),
            user_update_json(user@),
            Reply::Auth(Accept::OnlyOk),
            r,
        ),
{
    json_request(
        Method::Put,
        build_named_path("/users/", user.name()),
        user.to_json(),
        Reply::Auth(Accept::OnlyOk),
    )
}

/// Reads the reply to an auth request that returns data. Under a status that
/// `accept` admits, the body is decoded as the payload; under any other, as an
/// error stated by the member. A body that does not decode is a
/// serialization error either way.
pub fn parse_auth_response<T, D, F>(
    status: u16,
    headers: &HeaderMap<HeaderValue>,
    body: Bytes,
    accept: Accept,
    decode: D,
    decode_error: F,
) -> (r: Result<Response<T>, EtcdError>) where
    D: FnOnce(Bytes) -> Result<T, serde_json::Error>,
    F: FnOnce(Bytes) -> Result<ApiError, serde_json::Error>,

    requires
        call_requires(decode, (body,)),
        call_requires(decode_error, (body,)),
    ensures
        match r {
            Ok(response) => {
                &&& accept.admits(status)
                &&& call_ensures(decode, (body,), Ok::<T, serde_json::Error>(response.data))
                &&& response.cluster_info@ == cluster_info_of(header_values(*headers))
            },
            Err(EtcdError::Serialization(error)) => if accept.admits(status) {
                call_ensures(decode, (body,), Err::<T, serde_json::Error>(error))
            } else {
                call_ensures(decode_error, (body,), Err::<ApiError, serde_json::Error>(error))
            },
            Err(EtcdError::Api(error)) => {
                &&& !accept.admits(status)
                &&& call_ensures(decode_error, (body,), Ok::<ApiError, serde_json::Error>(error))
            },
            Err(_) => false,
        },
{
    let cluster_info = ClusterInfo::from(headers);
    if accept.admits(status) {
        match decode(body) {
            Ok(data) => Ok(Response { data, cluster_info }),
            Err(error) => Err(EtcdError::Serialization(error)),
        }
    } else {
        match decode_error(body) {
            Ok(error) => Err(EtcdError::Api(error)),
            Err(error) => Err(EtcdError::Serialization(error)),
        }
    }
}

/// What the status of the reply to enabling or disabling says.
pub open spec fn auth_change_of(status: u16) -> Option<AuthChange> {
    if status == 200 {
        Some(AuthChange::Changed)
    } else if status == 409 {
        Some(AuthChange::Unchanged)
    } else {
        None
    }
}

/// Reads the reply to enabling or disabling the auth system, which has no
/// body to read: 200 says that the state changed, 409 that it was the wanted
/// state already, and any other status is reported as unexpected.
pub fn parse_auth_change_response(status: u16, headers: &HeaderMap<HeaderValue>) -> (r: Result<
    Response<AuthChange>,
    EtcdError,
>)
    ensures
        match r {
            Ok(response) => {
                &&& auth_change_of(status) == Some(response.data)
                &&& response.cluster_info@ == cluster_info_of(header_values(*headers))
            },
            Err(error) => auth_change_of(status) is None && error == EtcdError::UnexpectedStatus(
                status,
            ),
        },
{
    let cluster_info = ClusterInfo::from(headers);
    if status == 200 {
        Ok(Response { data: AuthChange::Changed, cluster_info })
    } else if status == 409 {
        Ok(Response { data: AuthChange::Unchanged, cluster_info })
    } else {
        Err(EtcdError::UnexpectedStatus(status))
    }
}

} // verus!
