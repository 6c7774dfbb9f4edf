//! The client's view of a cluster: what every reply says about it.

use bytes::Bytes;
use http::header::{HeaderMap, HeaderValue};
use http::Uri;
use vstd::prelude::*;
use vstd::string::{StrSliceExecFns, StringExecFns};
use vstd::utf8::{decode_utf8, encode_utf8, valid_utf8};

use crate::error::{ApiError, EtcdError};
use crate::request::{Accept, Dispatch, Method, Reply, Request, RequestView};
use crate::text::{all_digits, decimal_u64, digits_value, parse_u64, unsigned_digits};

verus! {

/// The header that names the cluster.
pub const XETCD_CLUSTER_ID: &'static str = "X-Etcd-Cluster-Id";

/// The header that carries the etcd index.
pub const XETCD_INDEX: &'static str = "X-Etcd-Index";

/// The header that carries the Raft index.
pub const XRAFT_INDEX: &'static str = "X-Raft-Index";

/// The header that carries the Raft term.
pub const XRAFT_TERM: &'static str = "X-Raft-Term";

/// The header multimap of the `http` crate.
#[verifier::external_type_specification]
#[verifier::external_body]
#[verifier::reject_recursive_types(T)]
pub struct ExHeaderMap<T>(http::header::HeaderMap<T>);

/// One header value of the `http` crate.
#[verifier::external_type_specification]
#[verifier::external_body]
pub struct ExHeaderValue(http::header::HeaderValue);

/// What a header map answers to a lookup: for every name under which a lookup
/// finds something, the bytes of the first value stored for that header.
/// Lookups do not tell upper from lower case, so a header is listed under
/// each spelling of its name.
pub uninterp spec fn header_values(headers: HeaderMap<HeaderValue>) -> Map<Seq<char>, Seq<u8>>;

/// Calls `HeaderMap::get` with a name given as text, and copies out the bytes
/// of the value found with `HeaderValue::as_bytes`. The result is the entry of
/// `header_values` for `name`, and `None` where there is no such entry.
#[verifier::external_body]
fn header_bytes(headers: &HeaderMap<HeaderValue>, name: &str) -> (r: Option<Vec<u8>>)
    ensures
        r is Some <==> header_values(*headers).contains_key(name@),
        r matches Some(bytes) ==> bytes@ == header_values(*headers)[name@],
{
    headers.get(name).map(|value| value.as_bytes().to_vec())
}

/// Calls `String::from_utf8`: the text that `bytes` encode, when they are
/// well-formed UTF-8, and nothing otherwise.
#[verifier::external_body]
fn utf8_text(bytes: Vec<u8>) -> (r: Option<String>)
    ensures
        r is Some <==> valid_utf8(bytes@),
        r matches Some(text) ==> text@ == decode_utf8(bytes@),
{
    String::from_utf8(bytes).ok()
}

/// Information about the state of the cluster, taken from the headers of a
/// reply.
#[derive(Clone, Debug, PartialEq, Eq, Hash)]
pub struct ClusterInfo {
    /// An internal identifier for the cluster.
    pub cluster_id: Option<String>,
    /// A counter that grows with each change to etcd.
    pub etcd_index: Option<u64>,
    /// A counter that grows with each entry of the Raft log.
    pub raft_index: Option<u64>,
    /// The current Raft election term.
    pub raft_term: Option<u64>,
}

/// The mathematical content of a [`ClusterInfo`].
pub ghost struct ClusterInfoView {
    pub cluster_id: Option<Seq<char>>,
    pub etcd_index: Option<u64>,
    pub raft_index: Option<u64>,
    pub raft_term: Option<u64>,
}

impl View for ClusterInfo {
    type V = ClusterInfoView;

    open spec fn view(&self) -> ClusterInfoView {
        ClusterInfoView {
            cluster_id: text_view(self.cluster_id),
            etcd_index: self.etcd_index,
            raft_index: self.raft_index,
            raft_term: self.raft_term,
        }
    }
}

/// The text of the header `name`, if it is present and is well-formed UTF-8.
pub open spec fn header_text(values: Map<Seq<char>, Seq<u8>>, name: Seq<char>) -> Option<Seq<char>> {
    if values.contains_key(name) && valid_utf8(values[name]) {
        Some(decode_utf8(values[name]))
    } else {
        None
    }
}

/// The number in the header `name`, if it is present and spells a `u64` in
/// decimal.
pub open spec fn header_number(values: Map<Seq<char>, Seq<u8>>, name: Seq<char>) -> Option<u64> {
    if values.contains_key(name) {
        decimal_u64(values[name])
    } else {
        None
    }
}

/// What a set of headers says about the cluster. Each field is read on its
/// own; a header that is missing or malformed leaves its field empty and does
/// not touch the others.
pub open spec fn cluster_info_of(values: Map<Seq<char>, Seq<u8>>) -> ClusterInfoView {
    ClusterInfoView {
        cluster_id: header_text(values, XETCD_CLUSTER_ID@),
        etcd_index: header_number(values, XETCD_INDEX@),
        raft_index: header_number(values, XRAFT_INDEX@),
        raft_term: header_number(values, XRAFT_TERM@),
    }
}

/// A number that is read from a header is what the header spells in decimal:
/// the header is there, it holds digits and nothing else but for a `+` in
/// front, and the digits denote the number.
pub proof fn lemma_header_number_is_decimal(
    values: Map<Seq<char>, Seq<u8>>,
    name: Seq<char>,
    number: u64,
)
    requires
        header_number(values, name) == Some(number),
    ensures
        values.contains_key(name),
        unsigned_digits(values[name]).len() > 0,
        all_digits(unsigned_digits(values[name])),
        digits_value(unsigned_digits(values[name])) == number,
{
}

/// Why a header that is present does not decode.
#[derive(Clone, Copy, Debug, PartialEq, Eq, Hash, Structural)]
pub enum DecodeReason {
    /// The value is not well-formed UTF-8.
    InvalidUtf8,
    /// The value is text, but does not spell a `u64` in decimal.
    InvalidNumber,
}

/// A header that is present in a reply and does not decode. Such a header
/// leaves its field of the cluster info empty and is worth a warning.
#[derive(Clone, Copy, Debug, PartialEq, Eq, Hash)]
pub struct UndecodedHeader {
    /// The name of the header.
    pub header: &'static str,
    /// Why its value does not decode.
    pub reason: DecodeReason,
}

impl View for UndecodedHeader {
    type V = (Seq<char>, DecodeReason);

    open spec fn view(&self) -> (Seq<char>, DecodeReason) {
        (self.header@, self.reason)
    }
}

/// The content of a list of undecoded headers.
pub open spec fn undecoded_view(list: Seq<UndecodedHeader>) -> Seq<(Seq<char>, DecodeReason)> {
    list.map_values(|undecoded: UndecodedHeader| undecoded@)
}

/// What there is to warn of for a header that holds text: the header, where
/// it is present and its value is not well-formed UTF-8.
pub open spec fn undecoded_text(values: Map<Seq<char>, Seq<u8>>, name: Seq<char>) -> Seq<
    (Seq<char>, DecodeReason),
> {
    if values.contains_key(name) && !valid_utf8(values[name]) {
        seq![(name, DecodeReason::InvalidUtf8)]
    } else {
        Seq::empty()
    }
}

/// What there is to warn of for a header that holds a number: the header,
/// where it is present and its value does not spell a `u64`, with the reason:
/// the value is no text at all, or it is text and no number.
pub open spec fn undecoded_number(values: Map<Seq<char>, Seq<u8>>, name: Seq<char>) -> Seq<
    (Seq<char>, DecodeReason),
> {
    if values.contains_key(name) && decimal_u64(values[name]) is None {
        if valid_utf8(values[name]) {
            seq![(name, DecodeReason::InvalidNumber)]
        } else {
            seq![(name, DecodeReason::InvalidUtf8)]
        }
    } else {
        Seq::empty()
    }
}

/// The headers of a reply that are present and do not decode, in the order
/// cluster id, etcd index, Raft index, Raft term. A header that is missing is
/// not among them.
pub open spec fn undecoded_headers(values: Map<Seq<char>, Seq<u8>>) -> Seq<
    (Seq<char>, DecodeReason),
> {
    undecoded_text(values, XETCD_CLUSTER_ID@) + undecoded_number(values, XETCD_INDEX@)
        + undecoded_number(values, XRAFT_INDEX@) + undecoded_number(values, XRAFT_TERM@)
}

fn read_text(
    headers: &HeaderMap<HeaderValue>,
    name: &'static str,
    undecoded: &mut Vec<UndecodedHeader>,
) -> (r: Option<String>)
    ensures
        text_view(r) == header_text(header_values(*headers), name@),
        undecoded_view(final(undecoded)@) == undecoded_view(old(undecoded)@) + undecoded_text(
            header_values(*headers),
            name@,
        ),
{
    match header_bytes(headers, name) {
        Some(bytes) => {
            let text = utf8_text(bytes);
            if text.is_none() {
                undecoded.push(UndecodedHeader { header: name, reason: DecodeReason::InvalidUtf8 });
            }
            text
        },
        None => None,
    }
}

fn read_number(
    headers: &HeaderMap<HeaderValue>,
    name: &'static str,
    undecoded: &mut Vec<UndecodedHeader>,
) -> (r: Option<u64>)
    ensures
        r == header_number(header_values(*headers), name@),
        undecoded_view(final(undecoded)@) == undecoded_view(old(undecoded)@) + undecoded_number(
            header_values(*headers),
            name@,
        ),
{
    match header_bytes(headers, name) {
        Some(bytes) => {
            let number = parse_u64(bytes.as_slice());
            if number.is_none() {
                let reason = if utf8_text(bytes).is_some() {
                    DecodeReason::InvalidNumber
                } else {
                    DecodeReason::InvalidUtf8
                };
                undecoded.push(UndecodedHeader { header: name, reason });
            }
            number
        },
        None => None,
    }
}

/// The content of a piece of text that may be absent.
pub open spec fn text_view(text: Option<String>) -> Option<Seq<char>> {
    match text {
        Some(text) => Some(text@),
        None => None,
    }
}

impl ClusterInfo {
    /// Reads the cluster metadata out of the headers of a reply and lists,
    /// beside it, each header that is present and does not decode, with the
    /// reason. The list is for the caller to log; a header in it never fails
    /// the call.
    pub fn decode(headers: &HeaderMap<HeaderValue>) -> (r: (ClusterInfo, Vec<UndecodedHeader>))
        ensures
            r.0@ == cluster_info_of(header_values(*headers)),
            undecoded_view(r.1@) == undecoded_headers(header_values(*headers)),
    {
        let mut undecoded: Vec<UndecodedHeader> = Vec::new();
        let cluster_id = read_text(headers, XETCD_CLUSTER_ID, &mut undecoded);
        let etcd_index = read_number(headers, XETCD_INDEX, &mut undecoded);
        let raft_index = read_number(headers, XRAFT_INDEX, &mut undecoded);
        let raft_term = read_number(headers, XRAFT_TERM, &mut undecoded);
        (ClusterInfo { cluster_id, etcd_index, raft_index, raft_term }, undecoded)
    }
}

impl<'a> vstd::std_specs::convert::FromSpecImpl<&'a HeaderMap<HeaderValue>> for ClusterInfo {
    /// The conversion is stated over views, by the `ensures` of `from`: text
    /// is compared by what it spells, not as a value.
    open spec fn obeys_from_spec() -> bool {
        false
    }

    open spec fn from_spec(headers: &'a HeaderMap<HeaderValue>) -> ClusterInfo {
        ClusterInfo { cluster_id: None, etcd_index: None, raft_index: None, raft_term: None }
    }
}

impl<'a> From<&'a HeaderMap<HeaderValue>> for ClusterInfo {
    /// Reads the cluster metadata out of the headers of a reply.
    fn from(headers: &'a HeaderMap<HeaderValue>) -> (info: ClusterInfo)
        ensures
            info@ == cluster_info_of(header_values(*headers)),
    {
        ClusterInfo::decode(headers).0
    }
}

/// A wrapper type returned by all API calls: the primary data of the reply
/// along with what its headers say about the cluster.
#[derive(Clone, Debug)]
pub struct Response<T> {
    /// Information about the state of the cluster.
    pub cluster_info: ClusterInfo,
    /// The primary data of the response.
    pub data: T,
}

/// A value returned by the health check API endpoint to indicate a healthy
/// cluster member.
#[derive(Clone, Debug, PartialEq, Eq, Hash)]
pub struct Health {
    /// The health status of the cluster member.
    pub health: String,
}

/// The versions that a cluster member reports.
#[derive(Clone, Debug, PartialEq, Eq, Hash)]
pub struct VersionInfo {
    /// The version of the cluster as a whole.
    pub cluster_version: String,
    /// The version of the member that answered.
    pub server_version: String,
}

/// Reads the reply to a key-value or members request. Under a status that
/// `accept` admits, the body is decoded as the payload; under any other, as an
/// error stated by the member. A body that does not decode is a
/// serialization error either way.
pub fn parse_etcd_response<T, D, F>(
    status: u16,
    headers: &HeaderMap<HeaderValue>,
    body: Bytes,
    accept: Accept,
    decode: D,
    decode_error: F,
) -> (r: Result<Response<T>, EtcdError>) where
    D: FnOnce(Bytes) -> Result<T, serde_json::Error>,
    F: FnOnce(Bytes) -> Result<ApiError, serde_json::Error>,

    requires
        call_requires(decode, (body,)),
        call_requires(decode_error, (body,)),
    ensures
        match r {
            Ok(response) => {
                &&& accept.admits(status)
                &&& call_ensures(decode, (body,), Ok::<T, serde_json::Error>(response.data))
                &&& response.cluster_info@ == cluster_info_of(header_values(*headers))
            },
            Err(EtcdError::Serialization(error)) => if accept.admits(status) {
                call_ensures(decode, (body,), Err::<T, serde_json::Error>(error))
            } else {
                call_ensures(decode_error, (body,), Err::<ApiError, serde_json::Error>(error))
            },
            Err(EtcdError::Api(error)) => {
                &&& !accept.admits(status)
                &&& call_ensures(decode_error, (body,), Ok::<ApiError, serde_json::Error>(error))
            },
            Err(_) => false,
        },
{
    let cluster_info = ClusterInfo::from(headers);
    if accept.admits(status) {
        match decode(body) {
            Ok(data) => Ok(Response { data, cluster_info }),
            Err(error) => Err(EtcdError::Serialization(error)),
        }
    } else {
        match decode_error(body) {
            Ok(error) => Err(EtcdError::Api(error)),
            Err(error) => Err(EtcdError::Serialization(error)),
        }
    }
}

/// Reads the reply to a request that expects no content: 204 is success, and
/// under any other status the body is decoded as an error stated by the
/// member.
pub fn parse_empty_response<F>(
    status: u16,
    headers: &HeaderMap<HeaderValue>,
    body: Bytes,
    decode_error: F,
) -> (r: Result<Response<()>, EtcdError>) where
    F: FnOnce(Bytes) -> Result<ApiError, serde_json::Error>,

    requires
        call_requires(decode_error, (body,)),
    ensures
        match r {
            Ok(response) => {
                &&& status == 204
                &&& response.cluster_info@ == cluster_info_of(header_values(*headers))
            },
            Err(EtcdError::Serialization(error)) => {
                &&& status != 204
                &&& call_ensures(decode_error, (body,), Err::<ApiError, serde_json::Error>(error))
            },
            Err(EtcdError::Api(error)) => {
                &&& status != 204
                &&& call_ensures(decode_error, (body,), Ok::<ApiError, serde_json::Error>(error))
            },
            Err(_) => false,
        },
{
    let cluster_info = ClusterInfo::from(headers);
    if status == 204 {
        Ok(Response { data: (), cluster_info })
    } else {
        match decode_error(body) {
            Ok(error) => Err(EtcdError::Api(error)),
            Err(error) => Err(EtcdError::Serialization(error)),
        }
    }
}

/// A span of time: whole seconds and the nanoseconds beyond them.
#[derive(Clone, Copy, Debug, PartialEq, Eq, Hash, Structural)]
pub struct Duration {
    /// The whole seconds.
    pub secs: u64,
    /// The part below one second, in nanoseconds.
    pub nanos: u32,
}

impl Duration {
    /// A span of whole seconds.
    pub fn from_secs(secs: u64) -> (r: Duration)
        ensures
            r == (Duration { secs, nanos: 0 }),
    {
        Duration { secs, nanos: 0 }
    }

    /// A span of whole milliseconds.
    pub fn from_millis(millis: u64) -> (r: Duration)
        ensures
            r.secs == millis / 1000,
            r.nanos == (millis % 1000) * 1_000_000,
    {
        let rest: u64 = millis % 1000;
        Duration { secs: millis / 1000, nanos: (rest * 1_000_000) as u32 }
    }
}

/// The connect timeout of a client that was given none, in seconds.
pub const DEFAULT_CONNECT_TIMEOUT_SECS: u64 = 90;

/// What the `http` crate makes of `text` where it is a URI. The name stands
/// for four of the crate's functions together, applied to the one text:
/// `Uri::from_str` parses it, `Uri::scheme` and `Uri::authority` say whether
/// the URI has a scheme and whether it has an authority, and the `Display`
/// impl writes the URI out again (the scheme and `://`, the authority, the
/// path, `?` and the query, as far as they are there; a URI with a scheme
/// has a path of at least `/`). The three parts come in that order. Nothing
/// where `text` is no URI.
pub uninterp spec fn uri_parts(text: Seq<char>) -> Option<(bool, bool, Seq<char>)>;

/// Parses `text` with `Uri::from_str`, asks `Uri::scheme` and
/// `Uri::authority` whether there is one, and writes the URI out with its
/// `Display` impl.
#[verifier::external_body]
fn parse_uri(text: &str) -> (r: Option<(bool, bool, String)>)
    ensures
        match r {
            Some(parts) => uri_parts(text@) == Some((parts.0, parts.1, parts.2@)),
            None => uri_parts(text@) is None,
        },
{
    text.parse::<Uri>().ok().map(
        |uri| (uri.scheme().is_some(), uri.authority().is_some(), uri.to_string()),
    )
}

/// The base of the URLs of a member: its URI without a final `/`. Every path
/// that is put behind it begins with `/`.
pub open spec fn endpoint_base(uri: Seq<char>) -> Seq<char> {
    if uri.len() > 0 && uri.last() == '/' {
        uri.drop_last()
    } else {
        uri
    }
}

/// Whether `text` names a member: whether it is an absolute URI, one with a
/// scheme and an authority.
pub open spec fn valid_endpoint(text: Seq<char>) -> bool {
    uri_parts(text) matches Some(parts) && parts.0 && parts.1
}

/// The base of the URLs of the member that `text` names.
pub open spec fn endpoint_base_of(text: Seq<char>) -> Seq<char> {
    endpoint_base(uri_parts(text).unwrap().2)
}

/// One member of the cluster, by the address of its client API.
#[derive(Debug)]
pub struct Endpoint {
    base: String,
}

impl Clone for Endpoint {
    fn clone(&self) -> (r: Endpoint)
        ensures
            r == *self,
    {
        Endpoint { base: self.base.clone() }
    }
}

impl Endpoint {
    /// The base of the member's URLs, without a final `/`.
    pub closed spec fn base(&self) -> Seq<char> {
        self.base@
    }

    /// The member's address: its base and a final `/`.
    pub open spec fn text(&self) -> Seq<char> {
        self.base().push('/')
    }

    /// Reads a member's address. Text that is no absolute URI is refused.
    pub fn parse(text: &str) -> (r: Result<Endpoint, EtcdError>)
        ensures
            match r {
                Ok(endpoint) => valid_endpoint(text@) && endpoint.base() == endpoint_base_of(text@),
                Err(error) => !valid_endpoint(text@) && error == EtcdError::InvalidUri,
            },
    {
        match parse_uri(text) {
            Some((true, true, uri)) => {
                let n: usize = uri.as_str().unicode_len();
                if n > 0 && uri.as_str().get_char(n - 1) == '/' {
                    let base = String::from_str(uri.as_str().substring_char(0, n - 1));
                    Ok(Endpoint { base })
                } else {
                    Ok(Endpoint { base: uri })
                }
            },
            _ => Err(EtcdError::InvalidUri),
        }
    }

    /// The base of the member's URLs, without a final `/`.
    pub fn as_str(&self) -> (r: &str)
        ensures
            r@ == self.base(),
    {
        self.base.as_str()
    }
}

/// Constructs the full URL for a path on a member. The path begins with `/`.
pub fn build_url(endpoint: &Endpoint, path: &str) -> (url: String)
    ensures
        url@ == endpoint.base() + path@,
{
    let mut url = String::from_str(endpoint.as_str());
    url.append(path);
    url
}

/// What the `base64` crate makes of a run of bytes in its standard alphabet,
/// with padding.
pub uninterp spec fn base64_text(bytes: Seq<u8>) -> Seq<char>;

/// Calls `base64::encode` on the UTF-8 bytes of `text`.
#[verifier::external_body]
fn base64_encode(text: &str) -> (r: String)
    ensures
        r@ == base64_text(encode_utf8(text@)),
{
    base64::encode(text)
}

/// The value of the `Authorization` header for HTTP basic authentication.
pub open spec fn basic_authorization(username: Seq<char>, password: Seq<char>) -> Seq<char> {
    "Basic "@ + base64_text(encode_utf8(username + seq![':'] + password))
}

/// A username and password to use for HTTP basic authentication.
#[derive(Clone, Debug)]
struct BasicAuth {
    /// The username to use for authentication.
    username: String,
    /// The password to use for authentication.
    password: String,
}

impl BasicAuth {
    /// The value of the `Authorization` header for these credentials.
    fn header_value(&self) -> (r: String)
        ensures
            r@ == basic_authorization(self.username@, self.password@),
    {
        proof {
            reveal_strlit(":");
        }
        let mut credentials = String::from_str(self.username.as_str());
        credentials.append(":");
        credentials.append(self.password.as_str());
        assert(credentials@ =~= self.username@ + seq![':'] + self.password@);
        let encoded = base64_encode(credentials.as_str());
        let mut value = String::from_str("Basic ");
        value.append(encoded.as_str());
        value
    }
}

/// The addresses that a list of endpoint texts stands for.
pub open spec fn endpoint_bases(texts: Seq<&str>) -> Seq<Seq<char>> {
    Seq::new(texts.len(), |i: int| endpoint_base_of(texts[i]@))
}

/// Whether a list of endpoint texts can make a client: it is not empty, and
/// every text in it names a member.
pub open spec fn valid_endpoints(texts: Seq<&str>) -> bool {
    &&& texts.len() > 0
    &&& forall|i: int| 0 <= i < texts.len() ==> valid_endpoint(#[trigger] texts[i]@)
}

/// Configures a [`Client`] step by step.
pub struct ClientBuilder {
    endpoints: Vec<Endpoint>,
    basic_auth: Option<BasicAuth>,
    connect_timeout: Duration,
}

impl ClientBuilder {
    #[verifier::type_invariant]
    spec fn has_endpoints(&self) -> bool {
        self.endpoints@.len() > 0
    }

    /// The bases of the members' URLs, in the configured order.
    pub closed spec fn endpoints(&self) -> Seq<Seq<char>> {
        self.endpoints@.map_values(|e: Endpoint| e.base())
    }

    /// The username and password for basic authentication, if any are set.
    pub closed spec fn basic_auth(&self) -> Option<(Seq<char>, Seq<char>)> {
        match self.basic_auth {
            Some(auth) => Some((auth.username@, auth.password@)),
            None => None,
        }
    }

    /// The time allowed for connecting to a member.
    pub closed spec fn connect_timeout(&self) -> Duration {
        self.connect_timeout
    }

    /// Creates a new client builder that can be used to configure and
    /// customize the etcd client. There must be at least one endpoint, and
    /// each must be an absolute URI.
    pub fn new(endpoints: &[&str]) -> (builder: ClientBuilder)
        requires
            valid_endpoints(endpoints@),
        ensures
            builder.endpoints() == endpoint_bases(endpoints@),
            builder.basic_auth() is None,
            builder.connect_timeout() == (Duration {
                secs: DEFAULT_CONNECT_TIMEOUT_SECS,
                nanos: 0,
            }),
    {
        let mut parsed: Vec<Endpoint> = Vec::new();
        let mut i: usize = 0;
        while i < endpoints.len()
            invariant
                i <= endpoints@.len(),
                valid_endpoints(endpoints@),
                parsed@.len() == i,
                forall|j: int|
                    0 <= j < i ==> (#[trigger] parsed@[j]).base() == endpoint_bases(endpoints@)[j],
            decreases endpoints@.len() - i,
        {
            match Endpoint::parse(endpoints[i]) {
                Ok(endpoint) => {
                    parsed.push(endpoint);
                },
                Err(_) => {
                    vstd::pervasive::unreached::<()>();
                },
            }
            i = i + 1;
        }
        ClientBuilder {
            endpoints: parsed,
            basic_auth: None,
            connect_timeout: Duration::from_secs(DEFAULT_CONNECT_TIMEOUT_SECS),
        }
    }

    /// Creates a builder as `new` does where the endpoints allow it, and
    /// nothing where the list is empty or one of the texts is no absolute
    /// URI.
    pub fn try_new(endpoints: &[&str]) -> (r: Option<ClientBuilder>)
        ensures
            r is Some <==> valid_endpoints(endpoints@),
            r matches Some(builder) ==> {
                &&& builder.endpoints() == endpoint_bases(endpoints@)
                &&& builder.basic_auth() is None
                &&& builder.connect_timeout() == (Duration {
                    secs: DEFAULT_CONNECT_TIMEOUT_SECS,
                    nanos: 0,
                })
            },
    {
        if endpoints.len() == 0 {
            return None;
        }
        let mut i: usize = 0;
        while i < endpoints.len()
            invariant
                i <= endpoints@.len(),
                forall|j: int| 0 <= j < i ==> valid_endpoint(#[trigger] endpoints@[j]@),
            decreases endpoints@.len() - i,
        {
            if Endpoint::parse(endpoints[i]).is_err() {
                return None;
            }
            i = i + 1;
        }
        Some(ClientBuilder::new(endpoints))
    }

    /// Configures the client to use basic auth, with the given username and
    /// password.
    pub fn with_basic_auth(self, username: String, password: String) -> (builder: ClientBuilder)
        ensures
            builder.basic_auth() == Some((username@, password@)),
            builder.endpoints() == self.endpoints(),
            builder.connect_timeout() == self.connect_timeout(),
    {
        proof {
            use_type_invariant(&self);
        }
        ClientBuilder {
            endpoints: self.endpoints,
            basic_auth: Some(BasicAuth { username, password }),
            connect_timeout: self.connect_timeout,
        }
    }

    /// Configures the client to use a specific connect timeout.
    ///
    /// The default is 90 seconds.
    pub fn with_connect_timeout(self, timeout: Duration) -> (builder: ClientBuilder)
        ensures
            builder.connect_timeout() == timeout,
            builder.endpoints() == self.endpoints(),
            builder.basic_auth() == self.basic_auth(),
    {
        proof {
            use_type_invariant(&self);
        }
        ClientBuilder {
            endpoints: self.endpoints,
            basic_auth: self.basic_auth,
            connect_timeout: timeout,
        }
    }

    /// Constructs a client from the builder.
    pub fn build(self) -> (client: Client)
        ensures
            client.endpoints() == self.endpoints(),
            client.authorization() == match self.basic_auth() {
                Some((username, password)) => Some(basic_authorization(username, password)),
                None => None,
            },
            client.connect_timeout() == self.connect_timeout(),
    {
        proof {
            use_type_invariant(&self);
        }
        let authorization = match &self.basic_auth {
            Some(auth) => Some(auth.header_value()),
            None => None,
        };
        Client {
            endpoints: self.endpoints,
            authorization,
            connect_timeout: self.connect_timeout,
        }
    }
}

/// What a client knows of its cluster: the members in their configured
/// order, and what every request to them carries.
///
/// All API calls are made for a client.
#[derive(Debug)]
pub struct Client {
    endpoints: Vec<Endpoint>,
    authorization: Option<String>,
    connect_timeout: Duration,
}

impl Clone for Client {
    fn clone(&self) -> (r: Client)
        ensures
            r.endpoints() == self.endpoints(),
            r.authorization() == self.authorization(),
            r.connect_timeout() == self.connect_timeout(),
    {
        proof {
            use_type_invariant(self);
        }
        let mut endpoints: Vec<Endpoint> = Vec::new();
        let mut i: usize = 0;
        while i < self.endpoints.len()
            invariant
                i <= self.endpoints@.len(),
                endpoints@ == self.endpoints@.take(i as int),
            decreases self.endpoints@.len() - i,
        {
            endpoints.push(self.endpoints[i].clone());
            i = i + 1;
        }
        let authorization = match &self.authorization {
            Some(value) => Some(value.clone()),
            None => None,
        };
        Client { endpoints, authorization, connect_timeout: self.connect_timeout }
    }
}

impl Client {
    #[verifier::type_invariant]
    spec fn has_endpoints(&self) -> bool {
        self.endpoints@.len() > 0
    }

    /// The bases of the members' URLs, in the configured order.
    pub closed spec fn endpoints(&self) -> Seq<Seq<char>> {
        self.endpoints@.map_values(|e: Endpoint| e.base())
    }

    /// The value of the `Authorization` header that every request carries,
    /// if there is one.
    pub closed spec fn authorization(&self) -> Option<Seq<char>> {
        match self.authorization {
            Some(value) => Some(value@),
            None => None,
        }
    }

    /// The time allowed for connecting to a member.
    pub closed spec fn connect_timeout(&self) -> Duration {
        self.connect_timeout
    }

    /// Constructs a new client with the default configuration. For more
    /// advanced configuration, use [`ClientBuilder`]. There must be at least
    /// one endpoint, and each must be an absolute URI.
    pub fn new(endpoints: &[&str]) -> (client: Client)
        requires
            valid_endpoints(endpoints@),
        ensures
            client.endpoints() == endpoint_bases(endpoints@),
            client.authorization() is None,
            client.connect_timeout() == (Duration {
                secs: DEFAULT_CONNECT_TIMEOUT_SECS,
                nanos: 0,
            }),
    {
        ClientBuilder::new(endpoints).build()
    }

    /// Constructs a client as `new` does where the endpoints allow it, and
    /// nothing where the list is empty or one of the texts is no absolute
    /// URI.
    pub fn try_new(endpoints: &[&str]) -> (r: Option<Client>)
        ensures
            r is Some <==> valid_endpoints(endpoints@),
            r matches Some(client) ==> {
                &&& client.endpoints() == endpoint_bases(endpoints@)
                &&& client.authorization() is None
                &&& client.connect_timeout() == (Duration {
                    secs: DEFAULT_CONNECT_TIMEOUT_SECS,
                    nanos: 0,
                })
            },
    {
        match ClientBuilder::try_new(endpoints) {
            Some(builder) => Some(builder.build()),
            None => None,
        }
    }

    /// The number of members. There is at least one.
    pub fn endpoint_count(&self) -> (n: usize)
        ensures
            n == self.endpoints().len(),
            n > 0,
    {
        proof {
            use_type_invariant(self);
        }
        self.endpoints.len()
    }

    /// The member at a position of the configured order.
    pub fn endpoint(&self, position: usize) -> (endpoint: &Endpoint)
        requires
            position < self.endpoints().len(),
        ensures
            endpoint.base() == self.endpoints()[position as int],
    {
        &self.endpoints[position]
    }

    /// The value of the `Authorization` header that every request carries,
    /// if there is one.
    pub fn default_authorization(&self) -> (r: Option<&str>)
        ensures
            match r {
                Some(value) => self.authorization() == Some(value@),
                None => self.authorization() is None,
            },
    {
        match &self.authorization {
            Some(value) => Some(value.as_str()),
            None => None,
        }
    }

    /// The time allowed for connecting to a member.
    pub fn connection_timeout(&self) -> (r: Duration)
        ensures
            r == self.connect_timeout(),
    {
        self.connect_timeout
    }

    /// The URL of a request on the member at a position.
    pub fn url(&self, position: usize, request: &Request) -> (url: String)
        requires
            position < self.endpoints().len(),
        ensures
            url@ == self.endpoints()[position as int] + request@.path,
    {
        build_url(self.endpoint(position), request.path.as_str())
    }

    /// A GET request for `path`, whose reply is a JSON payload under 200.
    pub fn request(&self, path: &str, dispatch: Dispatch) -> (request: Request)
        ensures
            request@ == get_path_request(path@, dispatch),
    {
        Request {
            method: Method::Get,
            path: String::from_str(path),
            body: None,
            form_content_type: false,
            reply: Reply::Etcd(Accept::OnlyOk),
            dispatch,
        }
    }

    /// A GET request for `path` that goes from member to member until one
    /// answers well. The path begins with `/`.
    pub fn request_first_ok(&self, path: &str) -> (request: Request)
        requires
            path@.len() > 0,
            path@[0] == '/',
        ensures
            request@ == get_path_request(path@, Dispatch::FirstOk),
    {
        self.request(path, Dispatch::FirstOk)
    }

    /// A GET request for `path` that goes to every member. The path begins
    /// with `/`.
    pub fn request_on_each_endpoint(&self, path: &str) -> (request: Request)
        requires
            path@.len() > 0,
            path@[0] == '/',
        ensures
            request@ == get_path_request(path@, Dispatch::EveryEndpoint),
    {
        self.request(path, Dispatch::EveryEndpoint)
    }

    /// The request that runs a basic health check against each member.
    pub fn health(&self) -> (request: Request)
        ensures
            request@ == get_path_request("/health"@, Dispatch::EveryEndpoint),
    {
        proof {
            reveal_strlit("/health");
        }
        self.request_on_each_endpoint("/health")
    }

    /// The request that asks each member for its version information.
    pub fn versions(&self) -> (request: Request)
        ensures
            request@ == get_path_request("/version"@, Dispatch::EveryEndpoint),
    {
        proof {
            reveal_strlit("/version");
        }
        self.request_on_each_endpoint("/version")
    }
}

/// A GET request whose reply is a JSON payload under 200.
pub open spec fn get_path_request(path: Seq<char>, dispatch: Dispatch) -> RequestView {
    RequestView {
        method: Method::Get,
        path,
        body: None,
        form_content_type: false,
        reply: Reply::Etcd(Accept::OnlyOk),
        dispatch,
    }
}

/// Reduces the errors of a call that every member failed to the first of
/// them. The list of errors of such a call is never empty, since a cluster
/// has at least one member.
pub fn first_error<T>(result: Result<T, Vec<EtcdError>>) -> (r: Result<T, EtcdError>)
    requires
        result matches Err(errors) ==> errors@.len() > 0,
    ensures
        match result {
            Ok(answer) => r == Ok::<T, EtcdError>(answer),
            Err(errors) => r == Err::<T, EtcdError>(errors@[0]),
        },
{
    match result {
        Ok(answer) => Ok(answer),
        Err(errors) => {
            let mut errors = errors;
            Err(errors.remove(0))
        },
    }
}

} // verus!
