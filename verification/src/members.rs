//! etcd's members API.
//!
//! These API endpoints are used to manage cluster membership.

use vstd::prelude::*;
use vstd::string::StringExecFns;

use crate::auth::texts;
use crate::client::{build_url as build_member_url, Endpoint, Response};
use crate::error::EtcdError;
use crate::json::{json_object, json_string_array, json_strings, JsonObject};
use crate::request::{
    bare_request, string_into_bytes, text_request, Accept, Dispatch, Method, Reply, Request,
};

verus! {

/// An etcd server that is a member of a cluster.
#[derive(Clone, Debug, PartialEq, Eq, Hash)]
pub struct Member {
    /// An internal identifier for the cluster member.
    pub id: String,
    /// A human-readable name for the cluster member.
    pub name: String,
    /// URLs exposing this cluster member's peer API.
    pub peer_urls: Vec<String>,
    /// URLs exposing this cluster member's client API.
    pub client_urls: Vec<String>,
}

/// The reply to listing the members: the list, under `members`.
#[derive(Clone, Debug, PartialEq, Eq, Hash)]
pub struct ListResponse {
    /// The members.
    pub members: Vec<Member>,
}

/// The part of a URL that names a members resource, after the member's base.
pub open spec fn members_path(path: Seq<char>) -> Seq<char> {
    "/v2/members"@ + path
}

/// The path of one member of the cluster.
pub open spec fn member_path(id: Seq<char>) -> Seq<char> {
    members_path("/"@ + id)
}

/// The body that states the peer URLs of a member.
pub open spec fn peer_urls_json(peer_urls: Seq<Seq<char>>) -> Seq<char> {
    json_object(seq![("peerURLs"@, json_string_array(peer_urls))])
}

fn build_path(path: &str) -> (r: String)
    ensures
        r@ == members_path(path@),
{
    let mut r = String::from_str("/v2/members");
    r.append(path);
    r
}

fn build_member_path(id: &str) -> (r: String)
    ensures
        r@ == member_path(id@),
{
    let mut r = String::from_str("/v2/members");
    r.append("/");
    r.append(id);
    r
}

/// Constructs the full URL for an API call.
pub fn build_url(endpoint: &Endpoint, path: &str) -> (url: String)
    ensures
        url@ == endpoint.base() + members_path(path@),
{
    let suffix = build_path(path);
    build_member_url(endpoint, suffix.as_str())
}

/// Writes the body that states the peer URLs of a member.
pub fn peer_urls_body(peer_urls: &Vec<String>) -> (r: Result<String, serde_json::Error>)
    ensures
        r matches Ok(json) && json@ == peer_urls_json(texts(peer_urls@)),
{
    let array = json_strings(peer_urls)?;
    let mut object = JsonObject::new();
    object.member("peerURLs", array.as_str());
    Ok(object.finish())
}

/// What a request that states peer URLs comes to: the request, which
/// carries them as JSON under the form content type and expects no content
/// back. Writing the body does not fail.
pub open spec fn peer_urls_request(
    method: Method,
    path: Seq<char>,
    peer_urls: Seq<Seq<char>>,
    r: Result<Request, Vec<EtcdError>>,
) -> bool {
    match r {
        Ok(request) => request@ == text_request(
            method,
            path,
            peer_urls_json(peer_urls),
            true,
            Reply::Empty,
        ),
        Err(_) => false,
    }
}

fn request_with_peer_urls(method: Method, path: String, peer_urls: &Vec<String>) -> (r: Result<
    Request,
    Vec<EtcdError>,
>)
    ensures
        peer_urls_request(method, path@, texts(peer_urls@), r),
{
    match peer_urls_body(peer_urls) {
        Ok(json) => Ok(
            Request {
                method,
                path,
                body: Some(string_into_bytes(json)),
                form_content_type: true,
                reply: Reply::Empty,
                dispatch: Dispatch::FirstOk,
            },
        ),
        Err(error) => {
            let mut errors: Vec<EtcdError> = Vec::new();
            errors.push(EtcdError::from(error));
            Err(errors)
        },
    }
}

/// Adds a new member to the cluster.
///
/// # Parameters
///
/// * peer_urls: URLs exposing this cluster member's peer API.
pub fn add(peer_urls: Vec<String>) -> (r: Result<Request, Vec<EtcdError>>)
    ensures
        peer_urls_request(Method::Post, members_path(Seq::empty()), texts(peer_urls@), r),
{
    proof {
        reveal_strlit("");
    }
    let path = build_path("");
    request_with_peer_urls(Method::Post, path, &peer_urls)
}

/// Deletes a member from the cluster.
///
/// # Parameters
///
/// * id: The unique identifier of the member to delete.
pub fn delete(id: &str) -> (request: Request)
    ensures
        request@ == bare_request(Method::Delete, member_path(id@), Reply::Empty),
{
    Request {
        method: Method::Delete,
        path: build_member_path(id),
        body: None,
        form_content_type: false,
        reply: Reply::Empty,
        dispatch: Dispatch::FirstOk,
    }
}

/// Lists the members of the cluster. The reply holds a [`ListResponse`]; see
/// [`list_response`].
pub fn list() -> (request: Request)
    ensures
        request@ == bare_request(
            Method::Get,
            members_path(Seq::empty()),
            Reply::Etcd(Accept::OnlyOk),
        ),
{
    proof {
        reveal_strlit("");
    }
    let path = build_path("");
    Request {
        method: Method::Get,
        path,
        body: None,
        form_content_type: false,
        reply: Reply::Etcd(Accept::OnlyOk),
        dispatch: Dispatch::FirstOk,
    }
}

/// Turns the reply to listing the members into the list itself.
pub fn list_response(response: Response<ListResponse>) -> (r: Response<Vec<Member>>)
    ensures
        r.data == response.data.members,
        r.cluster_info == response.cluster_info,
{
    Response { cluster_info: response.cluster_info, data: response.data.members }
}

/// Updates the peer URLs of a member of the cluster.
///
/// # Parameters
///
/// * id: The unique identifier of the member to update.
/// * peer_urls: URLs exposing this cluster member's peer API.
pub fn update(id: String, peer_urls: Vec<String>) -> (r: Result<Request, Vec<EtcdError>>)
    ensures
        peer_urls_request(Method::Put, member_path(id@), texts(peer_urls@), r),
{
    request_with_peer_urls(Method::Put, build_member_path(id.as_str()), &peer_urls)
}

} // verus!
