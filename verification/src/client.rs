//! The client side of the InfluxDB v2 query API: who asks (the connection
//! identity), what is asked (the request), and what an answer means.
//!
//! Nothing here performs I/O. A request is described as plain data for a
//! transport to send, and a response is judged from its status and from the
//! message that was decoded from its body.

use std::sync::Arc;
use vstd::prelude::*;
use vstd::string::StringExecFns;
use crate::builder::{render, QueryBuilder};
use crate::error::{Error, ErrorView};
use crate::params::Params;
use crate::value::{FluxValue, ValueView};

verus! {

/// `Arc::clone` of the standard library: a second handle to the same
/// allocation, so what it points to is what the first points to.
#[verifier::external_body]
fn share(a: &Arc<String>) -> (r: Arc<String>)
    ensures
        r == *a,
{
    Arc::clone(a)
}

/// Where the server is and as whom to ask.
#[derive(Debug, PartialEq, Eq)]
pub struct Config {
    /// Absolute URL of the server, with scheme and authority.
    pub influxdb_base_url: String,
    /// Token that grants read access.
    pub influxdb_read_token: String,
    /// Organization that owns the bucket.
    pub influxdb_org: String,
    /// Bucket that every query reads.
    pub influxdb_bucket: String,
}

/// HTTP method of a request.
#[derive(Clone, Copy, Debug, PartialEq, Eq, Structural)]
pub enum Method {
    Get,
    Post,
}

/// An HTTP request as data: the path is relative to the base URL, the query
/// pairs are not yet URL-encoded, the headers are in the order given.
#[derive(Debug, PartialEq, Eq)]
pub struct Request {
    pub method: Method,
    pub path: String,
    pub query: Vec<(String, String)>,
    pub headers: Vec<(String, String)>,
    pub body: Option<String>,
}

/// A [`Request`] as plain data.
pub struct RequestView {
    pub method: Method,
    pub path: Seq<char>,
    pub query: Seq<(Seq<char>, Seq<char>)>,
    pub headers: Seq<(Seq<char>, Seq<char>)>,
    pub body: Option<Seq<char>>,
}

/// Name and value pairs as plain text.
pub open spec fn pairs_view(pairs: Seq<(String, String)>) -> Seq<(Seq<char>, Seq<char>)> {
    pairs.map_values(|p: (String, String)| (p.0@, p.1@))
}

impl View for Request {
    type V = RequestView;

    open spec fn view(&self) -> RequestView {
        RequestView {
            method: self.method,
            path: self.path@,
            query: pairs_view(self.query@),
            headers: pairs_view(self.headers@),
            body: match self.body {
                Some(b) => Some(b@),
                None => None,
            },
        }
    }
}

/// The identity of a [`Client`] as plain text.
pub struct ClientView {
    pub base_url: Seq<char>,
    pub read_token: Seq<char>,
    pub org: Seq<char>,
    pub bucket: Seq<char>,
}

/// The name under which the configured bucket is bound.
pub open spec fn bucket_name() -> Seq<char> {
    "bucket"@
}

impl ClientView {
    /// The liveness probe: `GET ready`, with no header and no body.
    pub open spec fn ready_request(self) -> RequestView {
        RequestView {
            method: Method::Get,
            path: "ready"@,
            query: Seq::empty(),
            headers: Seq::empty(),
            body: None,
        }
    }

    /// The bindings that a query is rendered under: those of the caller, with
    /// `bucket` bound to the configured bucket as an identifier.
    pub open spec fn effective_params(self, params: Map<Seq<char>, ValueView>) -> Map<
        Seq<char>,
        ValueView,
    > {
        params.insert(bucket_name(), ValueView::Identifier(self.bucket))
    }

    /// The request that submits the rendered query `flux`:
    /// `POST api/v2/query?org=<org>` with the three headers of the API and the
    /// query as body.
    pub open spec fn query_request(self, flux: Seq<char>) -> RequestView {
        RequestView {
            method: Method::Post,
            path: "api/v2/query"@,
            query: seq![("org"@, self.org)],
            headers: seq![
                ("Content-Type"@, "application/vnd.flux"@),
                ("Accept"@, "application/csv"@),
                ("Authorization"@, "Token "@ + self.read_token),
            ],
            body: Some(flux),
        }
    }
}

/// The body of a response that reports an error: JSON with the one field
/// `message`.
#[derive(Debug, PartialEq, Eq)]
pub struct InfluxdbErrorResponse {
    pub message: String,
}

impl Default for InfluxdbErrorResponse {
    /// The body with the empty message, which stands for a body that is
    /// absent or cannot be decoded.
    fn default() -> (r: InfluxdbErrorResponse)
        ensures
            r.message@ == Seq::<char>::empty(),
    {
        InfluxdbErrorResponse { message: String::new() }
    }
}

/// The message of a decoded error body; the empty message where there is no
/// body.
pub open spec fn message_of(body: Option<InfluxdbErrorResponse>) -> Seq<char> {
    match body {
        Some(b) => b.message@,
        None => Seq::empty(),
    }
}

/// A status of the 2xx range.
pub open spec fn is_success_status(status: int) -> bool {
    200 <= status < 300
}

/// What a complete response means: success for a status of the 2xx range,
/// else the server's error with `message`.
pub open spec fn response_outcome(status: int, message: Seq<char>) -> Result<(), ErrorView> {
    if is_success_status(status) {
        Ok(())
    } else {
        Err(ErrorView::Influxdb(message))
    }
}

/// Whether `status` is of the 2xx range. Only then is the response handed on
/// with its body unread.
pub fn is_success(status: u16) -> (r: bool)
    ensures
        r == is_success_status(status as int),
{
    200 <= status && status < 300
}

/// Judges a complete response from its status and from its body as far as it
/// could be decoded: `Ok` exactly for a 2xx status; any other status is an
/// [`Error::Influxdb`] with the message of the body, or with the empty message
/// where the body could not be decoded.
pub fn classify_response(status: u16, body: Option<InfluxdbErrorResponse>) -> (r: Result<
    (),
    Error,
>)
    ensures
        r is Ok <==> 200 <= status < 300,
        match response_outcome(status as int, message_of(body)) {
            Ok(_) => r is Ok,
            Err(e) => r is Err && r->Err_0@ == e,
        },
{
    if is_success(status) {
        Ok(())
    } else {
        let InfluxdbErrorResponse { message } = match body {
            Some(b) => b,
            None => InfluxdbErrorResponse::default(),
        };
        Err(Error::Influxdb(message))
    }
}

/// A handle on one InfluxDB server: the connection identity, fixed at
/// construction and shared by all clones.
pub struct Client {
    base_url: Arc<String>,
    read_token: Arc<String>,
    org: Arc<String>,
    bucket: Arc<String>,
    query_builder: QueryBuilder,
}

impl View for Client {
    type V = ClientView;

    closed spec fn view(&self) -> ClientView {
        ClientView {
            base_url: (*self.base_url)@,
            read_token: (*self.read_token)@,
            org: (*self.org)@,
            bucket: (*self.bucket)@,
        }
    }
}

impl Client {
    /// A client with the identity that `config` gives.
    pub fn new(config: &Config) -> (c: Client)
        ensures
            c@ == (ClientView {
                base_url: config.influxdb_base_url@,
                read_token: config.influxdb_read_token@,
                org: config.influxdb_org@,
                bucket: config.influxdb_bucket@,
            }),
    {
        Client {
            base_url: Arc::new(config.influxdb_base_url.clone()),
            read_token: Arc::new(config.influxdb_read_token.clone()),
            org: Arc::new(config.influxdb_org.clone()),
            bucket: Arc::new(config.influxdb_bucket.clone()),
            query_builder: QueryBuilder::new(),
        }
    }

    /// The base URL that every path is relative to.
    pub fn base_url(&self) -> (r: &str)
        ensures
            r@ == self@.base_url,
    {
        self.base_url.as_str()
    }

    /// The liveness probe, to be sent as it is.
    pub fn ready(&self) -> (r: Request)
        ensures
            r@ == self@.ready_request(),
    {
        let r = Request {
            method: Method::Get,
            path: String::from_str("ready"),
            query: Vec::new(),
            headers: Vec::new(),
            body: None,
        };
        assert(r@.query =~= Seq::empty());
        assert(r@.headers =~= Seq::empty());
        r
    }

    /// Builds the request for a query. The configured bucket is bound to
    /// `bucket`, whatever the caller bound to that name; the template is
    /// rendered under these bindings; the rendering becomes the body of the
    /// request. A template that cannot be rendered gives
    /// [`Error::QueryRender`] and no request.
    pub fn flux_query(&self, template: &str, params: Params) -> (r: Result<Request, Error>)
        ensures
            match render(template@, self@.effective_params(params@)) {
                Ok(flux) => r is Ok && r->Ok_0@ == self@.query_request(flux),
                Err(e) => r is Err && r->Err_0@ == ErrorView::QueryRender(e),
            },
    {
        let mut params = params;
        params.insert("bucket", FluxValue::Identifier((*self.bucket).clone()));
        match self.query_builder.generate_query(template, &params) {
            Err(e) => Err(Error::QueryRender(e)),
            Ok(flux) => {
                let mut query: Vec<(String, String)> = Vec::new();
                query.push((String::from_str("org"), (*self.org).clone()));
                let mut headers: Vec<(String, String)> = Vec::new();
                headers.push(
                    (String::from_str("Content-Type"), String::from_str("application/vnd.flux")),
                );
                headers.push((String::from_str("Accept"), String::from_str("application/csv")));
                headers.push(
                    (
                        String::from_str("Authorization"),
                        String::from_str("Token ").concat(self.read_token.as_str()),
                    ),
                );
                let r = Request {
                    method: Method::Post,
                    path: String::from_str("api/v2/query"),
                    query,
                    headers,
                    body: Some(flux),
                };
                assert(r@.query =~= self@.query_request(flux@).query);
                assert(r@.headers =~= self@.query_request(flux@).headers);
                Ok(r)
            },
        }
    }
}

impl Clone for Client {
    /// A second handle with the same identity; no text is copied.
    fn clone(&self) -> (c: Client)
        ensures
            c@ == self@,
    {
        Client {
            base_url: share(&self.base_url),
            read_token: share(&self.read_token),
            org: share(&self.org),
            bucket: share(&self.bucket),
            query_builder: QueryBuilder::new(),
        }
    }
}

} // verus!
