//! etcd's key-value API.
//!
//! The term "node" refers to a key-value pair or a directory of key-value
//! pairs. For example, "/foo" is a key if it has a value, but it is a
//! directory if there are other key-value pairs underneath it, such as
//! "/foo/bar".
//!
//! Each operation is a function from its arguments to the request that
//! carries it out.

use vstd::prelude::*;
use vstd::string::StringExecFns;
use vstd::utf8::encode_utf8;

use crate::client::{build_url as build_member_url, text_view, Duration, Endpoint};
use crate::error::EtcdError;
pub use crate::error::WatchError;
use crate::form::form_text;
use crate::options::{
    empty_conditions, optional_text, ComparisonConditions, DeleteOptions, SetOptions,
};
use crate::request::{Accept, Dispatch, Method, Reply, Request, RequestView};

verus! {

/// Information about the result of a successful key-value API operation.
#[derive(Debug, PartialEq, Eq, Hash)]
pub struct KeyValueInfo {
    /// The action that was taken, e.g. `get`, `set`.
    pub action: Action,
    /// The etcd `Node` that was operated upon.
    pub node: Node,
    /// The previous state of the target node.
    pub prev_node: Option<Node>,
}

/// The type of action that was taken in response to a key value API request.
///
/// "Node" refers to the key or directory being acted upon.
#[derive(Clone, Copy, Debug, PartialEq, Eq, Hash, Structural)]
pub enum Action {
    /// Atomic deletion of a node based on previous state.
    CompareAndDelete,
    /// Atomic update of a node based on previous state.
    CompareAndSwap,
    /// Creation of a node that didn't previously exist.
    Create,
    /// Deletion of a node.
    Delete,
    /// Expiration of a node.
    Expire,
    /// Retrieval of a node.
    Get,
    /// Assignment of a node, which may have previously existed (`set` on
    /// the wire).
    Assign,
    /// Update of an existing node.
    Update,
}

/// An etcd key or directory.
#[derive(Debug, PartialEq, Eq, Hash)]
pub struct Node {
    /// The new value of the etcd creation index.
    pub created_index: Option<u64>,
    /// Whether or not the node is a directory.
    pub dir: Option<bool>,
    /// An ISO 8601 timestamp for when the key will expire.
    pub expiration: Option<String>,
    /// The name of the key.
    pub key: Option<String>,
    /// The new value of the etcd modification index.
    pub modified_index: Option<u64>,
    /// Child nodes of a directory.
    pub nodes: Option<Vec<Node>>,
    /// The key's time to live in seconds.
    pub ttl: Option<i64>,
    /// The value of the key.
    pub value: Option<String>,
}

/// The mathematical content of a [`Node`]: its own fields, and the content
/// of each of its children in their order.
pub ghost struct NodeView {
    pub created_index: Option<u64>,
    pub dir: Option<bool>,
    pub expiration: Option<Seq<char>>,
    pub key: Option<Seq<char>>,
    pub modified_index: Option<u64>,
    pub nodes: Option<Seq<NodeView>>,
    pub ttl: Option<i64>,
    pub value: Option<Seq<char>>,
}

/// The content of the children of a node, in their order.
pub open spec fn nodes_view(nodes: Seq<Node>) -> Seq<NodeView>
    decreases nodes,
{
    Seq::new(
        nodes.len(),
        |i: int|
            if 0 <= i < nodes.len() {
                nodes[i]@
            } else {
                arbitrary()
            },
    )
}

impl View for Node {
    type V = NodeView;

    open spec fn view(&self) -> NodeView
        decreases self,
    {
        NodeView {
            created_index: self.created_index,
            dir: self.dir,
            expiration: text_view(self.expiration),
            key: text_view(self.key),
            modified_index: self.modified_index,
            nodes: match self.nodes {
                Some(children) => Some(nodes_view(children@)),
                None => None,
            },
            ttl: self.ttl,
            value: text_view(self.value),
        }
    }
}

/// The mathematical content of a [`KeyValueInfo`].
pub ghost struct KeyValueInfoView {
    pub action: Action,
    pub node: NodeView,
    pub prev_node: Option<NodeView>,
}

impl View for KeyValueInfo {
    type V = KeyValueInfoView;

    open spec fn view(&self) -> KeyValueInfoView {
        KeyValueInfoView {
            action: self.action,
            node: self.node@,
            prev_node: match self.prev_node {
                Some(node) => Some(node@),
                None => None,
            },
        }
    }
}

impl Clone for KeyValueInfo {
    fn clone(&self) -> (r: KeyValueInfo)
        ensures
            r@ == self@,
    {
        KeyValueInfo {
            action: self.action,
            node: self.node.clone(),
            prev_node: match &self.prev_node {
                Some(node) => Some(node.clone()),
                None => None,
            },
        }
    }
}

impl Clone for Node {
    fn clone(&self) -> (r: Node)
        ensures
            r@ == self@,
        decreases self,
    {
        let nodes = match &self.nodes {
            Some(children) => {
                let mut copies: Vec<Node> = Vec::new();
                let mut i: usize = 0;
                while i < children.len()
                    invariant
                        i <= children@.len(),
                        self.nodes == Some(*children),
                        copies@.len() == i,
                        forall|j: int| 0 <= j < i ==> (#[trigger] copies@[j])@ == children@[j]@,
                    decreases children@.len() - i,
                {
                    proof {
                        broadcast use vstd::std_specs::vec::axiom_vec_index_decreases;

                        assert(decreases_to!(self.nodes => self.nodes->0));
                    }
                    copies.push(children[i].clone());
                    i = i + 1;
                }
                assert(nodes_view(copies@) =~= nodes_view(children@));
                Some(copies)
            },
            None => None,
        };
        Node {
            created_index: self.created_index,
            dir: self.dir,
            expiration: clone_text(&self.expiration),
            key: clone_text(&self.key),
            modified_index: self.modified_index,
            nodes,
            ttl: self.ttl,
            value: clone_text(&self.value),
        }
    }
}

fn clone_text(text: &Option<String>) -> (r: Option<String>)
    ensures
        r == *text,
{
    match text {
        Some(text) => Some(text.clone()),
        None => None,
    }
}

/// Options for customizing the behavior of `kv::get`.
#[derive(Clone, Copy, Debug, PartialEq, Eq, Hash, Structural)]
pub struct GetOptions {
    /// If true and the node is a directory, child nodes will be returned as
    /// well.
    pub recursive: bool,
    /// If true and the node is a directory, any child nodes returned will be
    /// sorted alphabetically.
    pub sort: bool,
    /// If true, the etcd node serving the response will synchronize with the
    /// quorum before returning the value.
    ///
    /// This is slower but avoids possibly stale data from being returned.
    pub strong_consistency: bool,
}

/// Options for customizing the behavior of `kv::watch`.
#[derive(Clone, Copy, Debug, PartialEq, Eq, Hash, Structural)]
pub struct WatchOptions {
    /// If given, the watch operation will return the first change at the
    /// index or greater, allowing you to watch for changes that happened in
    /// the past.
    pub index: Option<u64>,
    /// Whether or not to watch all child keys as well.
    pub recursive: bool,
    /// If given, the watch operation will time out if it's still waiting
    /// after the duration.
    pub timeout: Option<Duration>,
}

impl Default for GetOptions {
    fn default() -> (r: Self)
        ensures
            r == (GetOptions { recursive: false, sort: false, strong_consistency: false }),
    {
        GetOptions { recursive: false, sort: false, strong_consistency: false }
    }
}

impl Default for WatchOptions {
    fn default() -> (r: Self)
        ensures
            r == (WatchOptions { index: None, recursive: false, timeout: None }),
    {
        WatchOptions { index: None, recursive: false, timeout: None }
    }
}

/// The part of a URL that names a key, after the member's base: the root of
/// the key space, the key, and the query behind a `?` if there is one.
pub open spec fn keys_path(key: Seq<char>, query: Option<Seq<char>>) -> Seq<char> {
    "/v2/keys"@ + key + match query {
        Some(q) => seq!['?'] + q,
        None => Seq::empty(),
    }
}

/// The request of a get operation: the options travel in the query.
pub open spec fn get_request(key: Seq<char>, options: crate::options::GetOptions) -> RequestView {
    RequestView {
        method: Method::Get,
        path: keys_path(key, Some(form_text(options.pairs()))),
        body: None,
        form_content_type: false,
        reply: Reply::Etcd(Accept::OnlyOk),
        dispatch: Dispatch::FirstOk,
    }
}

/// The request of a delete operation: the options travel in the query.
pub open spec fn delete_request<'a>(key: Seq<char>, options: DeleteOptions<'a>) -> RequestView {
    RequestView {
        method: Method::Delete,
        path: keys_path(key, Some(form_text(options.pairs()))),
        body: None,
        form_content_type: false,
        reply: Reply::Etcd(Accept::OnlyOk),
        dispatch: Dispatch::FirstOk,
    }
}

/// The request of a set operation: the options travel in the body, a form
/// that is labelled as one, and creation in order is the one operation that
/// posts.
pub open spec fn set_request<'a>(key: Seq<char>, options: SetOptions<'a>) -> RequestView {
    RequestView {
        method: if options.create_in_order {
            Method::Post
        } else {
            Method::Put
        },
        path: keys_path(key, None),
        body: Some(encode_utf8(form_text(options.pairs()))),
        form_content_type: true,
        reply: Reply::Etcd(Accept::OkOrCreated),
        dispatch: Dispatch::FirstOk,
    }
}

/// What a set or delete operation comes to: its request, or, where
/// conditions are given and empty, the one error that says so. Nothing is
/// sent in that case.
pub open spec fn request_unless_empty_conditions<'a>(
    conditions: Option<ComparisonConditions<'a>>,
    request: RequestView,
    r: Result<Request, Vec<EtcdError>>,
) -> bool {
    match r {
        Ok(made) => !empty_conditions(conditions) && made@ == request,
        Err(errors) => empty_conditions(conditions) && errors@ == seq![EtcdError::InvalidConditions],
    }
}

/// The part of a URL that names a key, after the member's base.
fn build_path(path: &str, query_params: Option<&str>) -> (r: String)
    ensures
        r@ == keys_path(path@, optional_text(query_params)),
{
    proof {
        reveal_strlit("?");
    }
    let mut r = String::from_str("/v2/keys");
    r.append(path);
    if let Some(query_params) = query_params {
        r.append("?");
        r.append(query_params);
    } else {
    }
    r
}

/// Constructs the full URL for an API call.
pub fn build_url(endpoint: &Endpoint, path: &str, query_params: Option<&str>) -> (url: String)
    ensures
        url@ == endpoint.base() + keys_path(path@, optional_text(query_params)),
{
    let suffix = build_path(path, query_params);
    build_member_url(endpoint, suffix.as_str())
}

fn one_error(error: EtcdError) -> (errors: Vec<EtcdError>)
    ensures
        errors@ == seq![error],
{
    let mut errors: Vec<EtcdError> = Vec::new();
    errors.push(error);
    errors
}

/// Handles all delete operations.
pub fn raw_delete<'a>(key: &str, options: DeleteOptions<'a>) -> (r: Result<
    Request,
    Vec<EtcdError>,
>)
    ensures
        request_unless_empty_conditions(options.conditions, delete_request(key@, options), r),
{
    let query_params = match options.into_query_params() {
        Ok(query_params) => query_params,
        Err(error) => {
            return Err(one_error(error));
        },
    };
    Ok(
        Request {
            method: Method::Delete,
            path: build_path(key, Some(query_params.as_str())),
            body: None,
            form_content_type: false,
            reply: Reply::Etcd(Accept::OnlyOk),
            dispatch: Dispatch::FirstOk,
        },
    )
}

/// Handles all get operations.
pub fn raw_get(key: &str, options: crate::options::GetOptions) -> (request: Request)
    ensures
        request@ == get_request(key@, options),
{
    let query_params = options.into_query_params();
    Request {
        method: Method::Get,
        path: build_path(key, Some(query_params.as_str())),
        body: None,
        form_content_type: false,
        reply: Reply::Etcd(Accept::OnlyOk),
        dispatch: Dispatch::FirstOk,
    }
}

/// Handles all set operations.
pub fn raw_set<'a>(key: &str, options: SetOptions<'a>) -> (r: Result<Request, Vec<EtcdError>>)
    ensures
        request_unless_empty_conditions(options.conditions, set_request(key@, options), r),
{
    let create_in_order = options.create_in_order;
    let request_body = match options.into_request_body() {
        Ok(request_body) => request_body,
        Err(error) => {
            return Err(one_error(error));
        },
    };
    Ok(
        Request {
            method: if create_in_order {
                Method::Post
            } else {
                Method::Put
            },
            path: build_path(key, None),
            body: Some(request_body),
            form_content_type: true,
            reply: Reply::Etcd(Accept::OkOrCreated),
            dispatch: Dispatch::FirstOk,
        },
    )
}

/// Deletes a node only if the given current value and/or current modified
/// index match.
///
/// # Parameters
///
/// * key: The name of the node to delete.
/// * current_value: If given, the node must currently have this value for
/// the operation to succeed.
/// * current_modified_index: If given, the node must currently be at this
/// modified index for the operation to succeed.
///
/// # Errors
///
/// Fails if no conditions were given.
pub fn compare_and_delete<'a>(
    key: &str,
    current_value: Option<&'a str>,
    current_modified_index: Option<u64>,
) -> (r: Result<Request, Vec<EtcdError>>)
    ensures
        match r {
            Ok(request) => {
                &&& current_value is Some || current_modified_index is Some
                &&& request@ == delete_request(
                    key@,
                    (DeleteOptions {
                        conditions: Some(
                            ComparisonConditions {
                                value: current_value,
                                modified_index: current_modified_index,
                            },
                        ),
                        dir: None,
                        recursive: None,
                    }),
                )
            },
            Err(errors) => {
                &&& current_value is None
                &&& current_modified_index is None
                &&& errors@ == seq![EtcdError::InvalidConditions]
            },
        },
{
    raw_delete(
        key,
        DeleteOptions {
            conditions: Some(
                ComparisonConditions {
                    value: current_value,
                    modified_index: current_modified_index,
                },
            ),
            dir: None,
            recursive: None,
        },
    )
}

/// Updates a node only if the given current value and/or current modified
/// index match.
///
/// # Parameters
///
/// * key: The name of the node to update.
/// * value: The new value for the node.
/// * ttl: If given, the node will expire after this many seconds.
/// * current_value: If given, the node must currently have this value for
/// the operation to succeed.
/// * current_modified_index: If given, the node must currently be at this
/// modified index for the operation to succeed.
///
/// # Errors
///
/// Fails if no conditions were given.
pub fn compare_and_swap<'a>(
    key: &str,
    value: &'a str,
    ttl: Option<u64>,
    current_value: Option<&'a str>,
    current_modified_index: Option<u64>,
) -> (r: Result<Request, Vec<EtcdError>>)
    ensures
        match r {
            Ok(request) => {
                &&& current_value is Some || current_modified_index is Some
                &&& request@ == set_request(
                    key@,
                    (SetOptions {
                        conditions: Some(
                            ComparisonConditions {
                                value: current_value,
                                modified_index: current_modified_index,
                            },
                        ),
                        create_in_order: false,
                        dir: None,
                        prev_exist: None,
                        ttl,
                        value: Some(value),
                        refresh: false,
                    }),
                )
            },
            Err(errors) => {
                &&& current_value is None
                &&& current_modified_index is None
                &&& errors@ == seq![EtcdError::InvalidConditions]
            },
        },
{
    raw_set(
        key,
        SetOptions {
            conditions: Some(
                ComparisonConditions {
                    value: current_value,
                    modified_index: current_modified_index,
                },
            ),
            create_in_order: false,
            dir: None,
            prev_exist: None,
            ttl,
            value: Some(value),
            refresh: false,
        },
    )
}

/// Creates a new key-value pair.
///
/// # Parameters
///
/// * key: The name of the key-value pair to create.
/// * value: The new value for the node.
/// * ttl: If given, the node will expire after this many seconds.
pub fn create<'a>(key: &str, value: &'a str, ttl: Option<u64>) -> (r: Result<
    Request,
    Vec<EtcdError>,
>)
    ensures
        r matches Ok(request) && request@ == set_request(
            key@,
            (SetOptions {
                conditions: None,
                create_in_order: false,
                dir: None,
                prev_exist: Some(false),
                ttl,
                value: Some(value),
                refresh: false,
            }),
        ),
{
    raw_set(
        key,
        SetOptions {
            conditions: None,
            create_in_order: false,
            dir: None,
            prev_exist: Some(false),
            ttl,
            value: Some(value),
            refresh: false,
        },
    )
}

/// Creates a new empty directory.
///
/// # Parameters
///
/// * key: The name of the directory to create.
/// * ttl: If given, the node will expire after this many seconds.
pub fn create_dir(key: &str, ttl: Option<u64>) -> (r: Result<Request, Vec<EtcdError>>)
    ensures
        r matches Ok(request) && request@ == set_request(
            key@,
            (SetOptions {
                conditions: None,
                create_in_order: false,
                dir: Some(true),
                prev_exist: Some(false),
                ttl,
                value: None,
                refresh: false,
            }),
        ),
{
    raw_set(
        key,
        SetOptions {
            conditions: None,
            create_in_order: false,
            dir: Some(true),
            prev_exist: Some(false),
            ttl,
            value: None,
            refresh: false,
        },
    )
}

/// Creates a new key-value pair in a directory with a numeric key name larger
/// than any of its sibling key-value pairs.
///
/// For example, the first value created with this function under the
/// directory "/foo" will have a key name like "00000000000000000001". The
/// second value created with this function under the same directory will
/// have a key name like "00000000000000000002".
///
/// This behavior is guaranteed by the server.
///
/// # Parameters
///
/// * key: The name of the directory to create a key-value pair in.
/// * value: The new value for the key-value pair.
/// * ttl: If given, the node will expire after this many seconds.
pub fn create_in_order<'a>(key: &str, value: &'a str, ttl: Option<u64>) -> (r: Result<
    Request,
    Vec<EtcdError>,
>)
    ensures
        r matches Ok(request) && request@ == set_request(
            key@,
            (SetOptions {
                conditions: None,
                create_in_order: true,
                dir: None,
                prev_exist: None,
                ttl,
                value: Some(value),
                refresh: false,
            }),
        ),
{
    raw_set(
        key,
        SetOptions {
            conditions: None,
            create_in_order: true,
            dir: None,
            prev_exist: None,
            ttl,
            value: Some(value),
            refresh: false,
        },
    )
}

/// Deletes a node.
///
/// # Parameters
///
/// * key: The name of the node to delete.
/// * recursive: If true, and the key is a directory, the directory and all
/// child key-value pairs and directories will be deleted as well.
pub fn delete(key: &str, recursive: bool) -> (r: Result<Request, Vec<EtcdError>>)
    ensures
        r matches Ok(request) && request@ == delete_request(
            key@,
            (DeleteOptions { conditions: None, dir: None, recursive: Some(recursive) }),
        ),
{
    raw_delete(key, DeleteOptions { conditions: None, dir: None, recursive: Some(recursive) })
}

/// Deletes an empty directory or a key-value pair at the given key.
///
/// # Parameters
///
/// * key: The name of the node to delete.
pub fn delete_dir(key: &str) -> (r: Result<Request, Vec<EtcdError>>)
    ensures
        r matches Ok(request) && request@ == delete_request(
            key@,
            (DeleteOptions { conditions: None, dir: Some(true), recursive: None }),
        ),
{
    raw_delete(key, DeleteOptions { conditions: None, dir: Some(true), recursive: None })
}

/// Gets the value of a node.
///
/// # Parameters
///
/// * key: The name of the node to retrieve.
/// * options: Options to customize the behavior of the operation.
pub fn get(key: &str, options: GetOptions) -> (request: Request)
    ensures
        request@ == get_request(
            key@,
            (crate::options::GetOptions {
                strong_consistency: options.strong_consistency,
                recursive: options.recursive,
                sort: Some(options.sort),
                wait: false,
                wait_index: None,
            }),
        ),
{
    raw_get(
        key,
        crate::options::GetOptions {
            strong_consistency: options.strong_consistency,
            recursive: options.recursive,
            sort: Some(options.sort),
            wait: false,
            wait_index: None,
        },
    )
}

/// Sets the value of a key-value pair.
///
/// Any previous value and TTL will be replaced.
///
/// # Parameters
///
/// * key: The name of the key-value pair to set.
/// * value: The new value for the key-value pair.
/// * ttl: If given, the node will expire after this many seconds.
pub fn set<'a>(key: &str, value: &'a str, ttl: Option<u64>) -> (r: Result<Request, Vec<EtcdError>>)
    ensures
        r matches Ok(request) && request@ == set_request(
            key@,
            (SetOptions {
                conditions: None,
                create_in_order: false,
                dir: None,
                prev_exist: None,
                ttl,
                value: Some(value),
                refresh: false,
            }),
        ),
{
    raw_set(
        key,
        SetOptions {
            conditions: None,
            create_in_order: false,
            dir: None,
            prev_exist: None,
            ttl,
            value: Some(value),
            refresh: false,
        },
    )
}

/// Refreshes the already set etcd key, bumping its TTL without triggering
/// watcher updates.
///
/// # Parameters
///
/// * key: The name of the key-value pair to refresh.
/// * ttl: The node will expire after this many seconds.
pub fn refresh(key: &str, ttl: u64) -> (r: Result<Request, Vec<EtcdError>>)
    ensures
        r matches Ok(request) && request@ == set_request(
            key@,
            (SetOptions {
                conditions: None,
                create_in_order: false,
                dir: None,
                prev_exist: Some(true),
                ttl: Some(ttl),
                value: None,
                refresh: true,
            }),
        ),
{
    raw_set(
        key,
        SetOptions {
            conditions: None,
            create_in_order: false,
            dir: None,
            prev_exist: Some(true),
            ttl: Some(ttl),
            value: None,
            refresh: true,
        },
    )
}

/// Sets the key to an empty directory.
///
/// An existing key-value pair will be replaced, but an existing directory
/// will not.
///
/// # Parameters
///
/// * key: The name of the directory to set.
/// * ttl: If given, the node will expire after this many seconds.
pub fn set_dir(key: &str, ttl: Option<u64>) -> (r: Result<Request, Vec<EtcdError>>)
    ensures
        r matches Ok(request) && request@ == set_request(
            key@,
            (SetOptions {
                conditions: None,
                create_in_order: false,
                dir: Some(true),
                prev_exist: None,
                ttl,
                value: None,
                refresh: false,
            }),
        ),
{
    raw_set(
        key,
        SetOptions {
            conditions: None,
            create_in_order: false,
            dir: Some(true),
            prev_exist: None,
            ttl,
            value: None,
            refresh: false,
        },
    )
}

/// Updates an existing key-value pair.
///
/// # Parameters
///
/// * key: The name of the key-value pair to update.
/// * value: The new value for the key-value pair.
/// * ttl: If given, the node will expire after this many seconds.
pub fn update<'a>(key: &str, value: &'a str, ttl: Option<u64>) -> (r: Result<
    Request,
    Vec<EtcdError>,
>)
    ensures
        r matches Ok(request) && request@ == set_request(
            key@,
            (SetOptions {
                conditions: None,
                create_in_order: false,
                dir: None,
                prev_exist: Some(true),
                ttl,
                value: Some(value),
                refresh: false,
            }),
        ),
{
    raw_set(
        key,
        SetOptions {
            conditions: None,
            create_in_order: false,
            dir: None,
            prev_exist: Some(true),
            ttl,
            value: Some(value),
            refresh: false,
        },
    )
}

/// Updates a directory.
///
/// If the directory already existed, only the TTL is updated. If the key was
/// a key-value pair, its value is removed and its TTL is updated.
///
/// # Parameters
///
/// * key: The name of the node to update.
/// * ttl: If given, the node will expire after this many seconds.
pub fn update_dir(key: &str, ttl: Option<u64>) -> (r: Result<Request, Vec<EtcdError>>)
    ensures
        r matches Ok(request) && request@ == set_request(
            key@,
            (SetOptions {
                conditions: None,
                create_in_order: false,
                dir: Some(true),
                prev_exist: Some(true),
                ttl,
                value: None,
                refresh: false,
            }),
        ),
{
    raw_set(
        key,
        SetOptions {
            conditions: None,
            create_in_order: false,
            dir: Some(true),
            prev_exist: Some(true),
            ttl,
            value: None,
            refresh: false,
        },
    )
}

/// Watches a node for changes: the request returns as soon as a change takes
/// place. Where `options.timeout` is given, the wait for the reply is to be
/// cut off after that time; see [`watch_outcome`].
///
/// # Parameters
///
/// * key: The name of the node to watch.
/// * options: Options to customize the behavior of the operation.
pub fn watch(key: &str, options: WatchOptions) -> (request: Request)
    ensures
        request@ == get_request(
            key@,
            (crate::options::GetOptions {
                strong_consistency: false,
                recursive: options.recursive,
                sort: None,
                wait: true,
                wait_index: options.index,
            }),
        ),
{
    raw_get(
        key,
        crate::options::GetOptions {
            strong_consistency: false,
            recursive: options.recursive,
            sort: None,
            wait: true,
            wait_index: options.index,
        },
    )
}

/// How the wait for the reply to a watch ended.
pub enum WatchEvent<T> {
    /// The call came to its end, well or not, within the time allowed.
    Completed(Result<T, Vec<EtcdError>>),
    /// The time allowed ran out first, and the request was abandoned.
    Elapsed,
}

/// What a watch returns, from how the wait for it ended: the answer, the
/// errors of a call that every member failed, or the timeout. Time can only
/// run out on a watch that was given a timeout.
pub fn watch_outcome<T>(options: &WatchOptions, event: WatchEvent<T>) -> (r: Result<T, WatchError>)
    requires
        event is Elapsed ==> options.timeout is Some,
    ensures
        match event {
            WatchEvent::Completed(Ok(answer)) => r == Ok::<T, WatchError>(answer),
            WatchEvent::Completed(Err(errors)) => r == Err::<T, WatchError>(
                WatchError::Other(errors),
            ),
            WatchEvent::Elapsed => r == Err::<T, WatchError>(WatchError::Timeout),
        },
{
    match event {
        WatchEvent::Completed(Ok(answer)) => Ok(answer),
        WatchEvent::Completed(Err(errors)) => Err(WatchError::Other(errors)),
        WatchEvent::Elapsed => Err(WatchError::Timeout),
    }
}

} // verus!
