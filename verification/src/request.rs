//! A request as a value: what is to be sent to a member, and how its reply is
//! to be read.

use bytes::Bytes;
use vstd::prelude::*;
use vstd::utf8::encode_utf8;

verus! {

/// A cheaply shared run of bytes, from the `bytes` crate.
#[verifier::external_type_specification]
#[verifier::external_body]
pub struct ExBytes(bytes::Bytes);

/// The bytes that a `Bytes` value holds.
pub uninterp spec fn bytes_content(bytes: Bytes) -> Seq<u8>;

/// Calls `Bytes::from` on a string: the result holds the string's UTF-8
/// bytes.
#[verifier::external_body]
pub(crate) fn string_into_bytes(text: String) -> (bytes: Bytes)
    ensures
        bytes_content(bytes) == encode_utf8(text@),
{
    Bytes::from(text)
}

/// The HTTP method of a request.
#[derive(Clone, Copy, Debug, PartialEq, Eq, Structural)]
pub enum Method {
    /// `GET`
    Get,
    /// `PUT`
    Put,
    /// `POST`
    Post,
    /// `DELETE`
    Delete,
}

/// The statuses that a call takes for success.
#[derive(Clone, Copy, Debug, PartialEq, Eq, Structural)]
pub enum Accept {
    /// 200 only.
    OnlyOk,
    /// 200 or 201.
    OkOrCreated,
}

impl Accept {
    /// Whether `status` counts as success.
    pub open spec fn spec_admits(&self, status: u16) -> bool {
        match self {
            Accept::OnlyOk => status == 200,
            Accept::OkOrCreated => status == 200 || status == 201,
        }
    }

    /// Whether `status` counts as success.
    #[verifier::when_used_as_spec(spec_admits)]
    pub fn admits(&self, status: u16) -> (r: bool)
        ensures
            r == self.spec_admits(status),
    {
        match self {
            Accept::OnlyOk => status == 200,
            Accept::OkOrCreated => status == 200 || status == 201,
        }
    }
}

/// How the reply to a request is read.
#[derive(Clone, Copy, Debug, PartialEq, Eq, Structural)]
pub enum Reply {
    /// The reply to a key-value, members, statistics, health or version
    /// request: a JSON payload under an accepted status; under any other
    /// status the body is an error stated by the member.
    Etcd(Accept),
    /// No body under 204; under any other status the body is an error stated
    /// by the member.
    Empty,
    /// The reply to an auth request that returns data: a JSON payload under
    /// an accepted status; under any other status the body is an error
    /// stated by the member.
    Auth(Accept),
    /// No body is read: 200 says that the auth system changed state and 409
    /// that it was in the wanted state already; any other status is
    /// unexpected.
    AuthChange,
}

/// Which members a request goes to.
#[derive(Clone, Copy, Debug, PartialEq, Eq, Structural)]
pub enum Dispatch {
    /// One member after another, until one answers well.
    FirstOk,
    /// Every member, in the configured order.
    EveryEndpoint,
}

/// A request that can be sent to any member of the cluster.
#[derive(Debug)]
pub struct Request {
    /// The HTTP method.
    pub method: Method,
    /// What follows the member's base URL: the path from its first `/` on,
    /// and the query if there is one.
    pub path: String,
    /// The body, if the request has one.
    pub body: Option<Bytes>,
    /// Whether the request is labelled `application/x-www-form-urlencoded`.
    /// Every request with a body is, a JSON body too.
    pub form_content_type: bool,
    /// How the reply is read.
    pub reply: Reply,
    /// Which members the request goes to.
    pub dispatch: Dispatch,
}

/// The mathematical content of a [`Request`].
pub ghost struct RequestView {
    pub method: Method,
    pub path: Seq<char>,
    pub body: Option<Seq<u8>>,
    pub form_content_type: bool,
    pub reply: Reply,
    pub dispatch: Dispatch,
}

impl View for Request {
    type V = RequestView;

    open spec fn view(&self) -> RequestView {
        RequestView {
            method: self.method,
            path: self.path@,
            body: match self.body {
                Some(bytes) => Some(bytes_content(bytes)),
                None => None,
            },
            form_content_type: self.form_content_type,
            reply: self.reply,
            dispatch: self.dispatch,
        }
    }
}

/// The value of the `Content-Type` header of a labelled request.
pub const FORM_CONTENT_TYPE: &'static str = "application/x-www-form-urlencoded";

/// A request without a body for one member after another.
pub open spec fn bare_request(method: Method, path: Seq<char>, reply: Reply) -> RequestView {
    RequestView {
        method,
        path,
        body: None,
        form_content_type: false,
        reply,
        dispatch: Dispatch::FirstOk,
    }
}

/// A request for one member after another whose body is the given text.
pub open spec fn text_request(
    method: Method,
    path: Seq<char>,
    text: Seq<char>,
    form_content_type: bool,
    reply: Reply,
) -> RequestView {
    RequestView {
        method,
        path,
        body: Some(encode_utf8(text)),
        form_content_type,
        reply,
        dispatch: Dispatch::FirstOk,
    }
}

} // verus!
