//! Typed client core for a remote CAPTCHA-solving HTTP API.
//!
//! The service exposes two JSON-over-POST endpoints: `createTask`, which
//! submits a challenge description and answers with a task handle, and
//! `getTaskResult`, which reports whether the task is still processing or
//! returns the solved token.  This crate holds everything about that protocol
//! that can be stated and proved: the exact JSON request bodies, the
//! interpretation of decoded responses (error envelope first, then status,
//! then solution), and the validation done while building a client.  The
//! network transport itself stays outside the library.

use vstd::prelude::*;

pub mod ext;
pub mod jsonfmt;
pub mod protocol;
pub mod task;
pub mod textnum;

verus! {

/// Base URL of the international endpoint of the service.
pub const API_URL_INTERNATIONAL: &'static str = "https://api.yescaptcha.com";

/// Base URL of the regional (China) endpoint of the service.
pub const API_URL_CHINA: &'static str = "https://cn.yescaptcha.com";

/// Base URL used when the caller does not override it.
pub const DEFAULT_API_URL: &'static str = API_URL_INTERNATIONAL;

/// Request timeout, in seconds, that a transport should apply to every call
/// unless the caller overrides it.
pub const DEFAULT_TIMEOUT_SECS: u64 = 30;

/// The error envelope present in every response of the service.  An
/// `error_id` other than zero signals an API-level failure and short-circuits
/// all further decoding of the response.
#[derive(Debug, Clone)]
pub struct ResponseBase {
    pub error_id: i32,
    pub error_code: Option<String>,
    pub error_description: Option<String>,
}

/// Progress marker reported by `getTaskResult`.
#[derive(Debug, Clone, Copy, PartialEq, Eq, Structural)]
pub enum TaskStatus {
    Processing,
    Ready,
}

/// The payload a completed task returns.  A solution only needs to be
/// decodable from the `solution` object of a `getTaskResult` response.
pub trait TaskSolution: Sized {
    /// Whether `body` holds a well-formed solution of this variant.
    spec fn solution_decodable(body: Seq<char>) -> bool;

    /// What it means for `s` to be the solution this variant decodes from
    /// `body`.
    spec fn solution_decodes_to(body: Seq<char>, s: Self) -> bool;

    /// Decodes this variant's solution from the `solution` object of a
    /// `getTaskResult` response body, or fails on a malformed one.
    fn from_body(body: &str) -> (r: Option<Self>)
        ensures
            r is Some <==> Self::solution_decodable(body@),
            r matches Some(s) ==> Self::solution_decodes_to(body@, s),
    ;
}

/// A submitted job, identified by the id the service assigned.  Returned by
/// `createTask` and handed back, unchanged, to every poll.
pub trait Task: Sized {
    type Solution: TaskSolution;

    /// The assigned identifier, viewed as a sequence of characters.
    spec fn id(&self) -> Seq<char>;

    /// The assigned identifier, exactly as the service returned it.
    fn task_id(&self) -> (r: &str)
        ensures
            r@ == self.id(),
    ;

    /// Whether `body` holds this variant's task fields.
    spec fn body_decodable(body: Seq<char>) -> bool;

    /// What it means for `t` to be the task this variant decodes from
    /// `body`.
    spec fn body_decodes_to(body: Seq<char>, t: Self) -> bool;

    /// Decodes the task fields from a `createTask` response body (the task
    /// fields sit at the top level of the response, beside the envelope).
    fn from_body(body: &str) -> (r: Option<Self>)
        ensures
            r is Some <==> Self::body_decodable(body@),
            r matches Some(t) ==> Self::body_decodes_to(body@, t),
    ;
}

/// A caller-supplied description of a challenge to solve.  It declares which
/// task type `createTask` answers with, and serializes itself to the exact
/// JSON object the service expects in the `task` field.
pub trait TaskConfig: Sized {
    type Task: Task;

    /// The JSON text this configuration serializes to, at the specification
    /// level.
    spec fn config_json(&self) -> Seq<char>;

    /// Serializes this configuration to the JSON object the service expects.
    fn to_json(&self) -> (r: String)
        ensures
            r@ == self.config_json(),
    ;
}

/// The decoded, user-facing outcome of one poll: either the task is still
/// processing, or it is ready and then always carries a solution.
pub enum TaskResult<T: Task> {
    Processing,
    Ready(T::Solution),
}

/// A failure while assembling a [`Client`].
#[derive(Debug, Clone)]
pub enum BuildError {
    /// The configuration handed to the builder is invalid.
    InputError(String),
}

/// A failure of one client operation.  Every failure is returned to the
/// caller; none is swallowed or retried.
#[derive(Debug, Clone)]
pub enum ClientError {
    /// The input to the operation is invalid.
    InputError(String),
    /// The request could not be serialized or sent.
    RequestError(String),
    /// The response could not be decoded into the expected shape, or it
    /// violates the protocol contract.
    ParseError(String),
    /// The service itself reported a failure (`errorId != 0`); carries the
    /// full envelope verbatim.
    ApiError(ResponseBase),
}

impl ResponseBase {
    /// The envelope rendered for an error message, at the specification
    /// level.
    pub open spec fn spec_describe(&self) -> Seq<char> {
        "errorId "@ + crate::textnum::dec_int(self.error_id as int) + ", errorCode "@ + (
        match self.error_code {
            Some(c) => c@,
            None => "none"@,
        }) + ", errorDescription "@ + (match self.error_description {
            Some(d) => d@,
            None => "none"@,
        })
    }

    /// Renders the envelope for an error message.
    pub fn describe(&self) -> (r: String)
        ensures
            r@ == self.spec_describe(),
    {
        let mut out = String::new();
        out.append("errorId ");
        crate::textnum::append_dec_i32(&mut out, self.error_id);
        out.append(", errorCode ");
        match &self.error_code {
            Some(c) => out.append(c.as_str()),
            None => out.append("none"),
        }
        out.append(", errorDescription ");
        match &self.error_description {
            Some(d) => out.append(d.as_str()),
            None => out.append("none"),
        }
        proof {
            assert(out@ =~= self.spec_describe());
        }
        out
    }
}

impl BuildError {
    /// The message this error renders to, at the specification level.
    pub open spec fn spec_message(&self) -> Seq<char> {
        match self {
            BuildError::InputError(m) => "Input Error: "@ + m@,
        }
    }

    /// Renders this error as a human-readable message.
    pub fn message(&self) -> (r: String)
        ensures
            r@ == self.spec_message(),
    {
        let mut out = String::new();
        out.append("Input Error: ");
        match self {
            BuildError::InputError(m) => out.append(m.as_str()),
        }
        out
    }
}

impl ClientError {
    /// The message this error renders to, at the specification level.
    pub open spec fn spec_message(&self) -> Seq<char> {
        match self {
            ClientError::InputError(m) => "Input Error: "@ + m@,
            ClientError::RequestError(m) => "Request Error: "@ + m@,
            ClientError::ParseError(m) => "Parse Error: "@ + m@,
            ClientError::ApiError(b) => "API Error: "@ + b.spec_describe(),
        }
    }

    /// Renders this error as a human-readable message.
    pub fn message(&self) -> (r: String)
        ensures
            r@ == self.spec_message(),
    {
        let mut out = String::new();
        match self {
            ClientError::InputError(m) => {
                out.append("Input Error: ");
                out.append(m.as_str());
            },
            ClientError::RequestError(m) => {
                out.append("Request Error: ");
                out.append(m.as_str());
            },
            ClientError::ParseError(m) => {
                out.append("Parse Error: ");
                out.append(m.as_str());
            },
            ClientError::ApiError(b) => {
                out.append("API Error: ");
                let d = b.describe();
                out.append(d.as_str());
            },
        }
        out
    }
}

/// True when an optional credential is present and non-empty: exactly the
/// configurations from which a client can be built.
pub open spec fn has_credential(client_key: Option<String>) -> bool {
    client_key matches Some(k) && k@.len() > 0
}

/// Assembles a [`Client`]: an optional base-URL override and a required,
/// non-empty credential.  The base URL is held as plain text; whoever runs
/// the transport parses it into a URL value where the request URL is built.
pub struct ClientBuilder {
    pub api_url: String,
    pub client_key: Option<String>,
}

impl ClientBuilder {
    /// A builder with the default base URL and no credential yet.
    pub fn new() -> (r: Self)
        ensures
            r.client_key is None,
            r.api_url@ == DEFAULT_API_URL@,
    {
        ClientBuilder { api_url: DEFAULT_API_URL.to_owned(), client_key: None }
    }

    /// Overrides the base URL the client will talk to.
    pub fn api_url(self, api_url: String) -> (r: Self)
        ensures
            r.api_url == api_url,
            r.client_key == self.client_key,
    {
        ClientBuilder { api_url, client_key: self.client_key }
    }

    /// Sets the credential sent with every request.
    pub fn client_key(self, client_key: String) -> (r: Self)
        ensures
            r.client_key == Some(client_key),
            r.api_url == self.api_url,
    {
        ClientBuilder { api_url: self.api_url, client_key: Some(client_key) }
    }

    /// Produces a ready [`Client`], or fails with [`BuildError::InputError`]
    /// exactly when the credential is absent or empty.  No other validation
    /// is performed, and nothing beyond this value is touched.
    pub fn build(self) -> (r: Result<Client, BuildError>)
        ensures
            r is Ok <==> has_credential(self.client_key),
            r matches Ok(c) ==> {
                &&& Some(c.client_key) == self.client_key
                &&& c.api_url == self.api_url
            },
            r matches Err(e) ==> (e matches BuildError::InputError(m)
                && m@ == "client_key is required"@),
    {
        match self.client_key {
            None => Err(BuildError::InputError("client_key is required".to_owned())),
            Some(k) => {
                if k.as_str().unicode_len() == 0 {
                    Err(BuildError::InputError("client_key is required".to_owned()))
                } else {
                    Ok(Client { api_url: self.api_url, client_key: k })
                }
            },
        }
    }
}

/// A handle on the remote service: the base URL (as text) and the
/// credential that scopes every task.  Immutable after construction; both
/// operations of the protocol only read it.
pub struct Client {
    pub api_url: String,
    pub client_key: String,
}

impl Client {
    /// A client for the default base URL with the given, non-empty
    /// credential.
    pub fn new(client_key: &str) -> (r: Client)
        requires
            client_key@.len() > 0,
        ensures
            r.client_key@ == client_key@,
            r.api_url@ == DEFAULT_API_URL@,
    {
        let b = ClientBuilder::new().client_key(client_key.to_owned());
        match b.build() {
            Ok(c) => c,
            Err(_) => vstd::pervasive::unreached(),
        }
    }

    /// A fresh builder, for callers who want to override defaults.
    pub fn builder() -> (r: ClientBuilder)
        ensures
            r.client_key is None,
            r.api_url@ == DEFAULT_API_URL@,
    {
        ClientBuilder::new()
    }
}

} // verus!
