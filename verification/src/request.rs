use vstd::prelude::*;
use vstd::string::*;

use crate::erros::VioletRequestErrors;
use crate::json::decode_record;
use crate::json::encode_record;
use crate::json::record_json;
use crate::json::spec_parse_record;

verus! {

/// Whether a character may appear in the value of an HTTP header: horizontal
/// tab, or any character other than an ASCII control character.
pub open spec fn valid_header_char(c: char) -> bool {
    c == '\t' || (32 <= c as u32 && c as u32 != 127)
}

/// Whether a whole token may stand as the value of an HTTP header.
pub open spec fn valid_header_value(s: Seq<char>) -> bool {
    forall|i: int| 0 <= i < s.len() ==> valid_header_char(s[i])
}

/// Checks that every character of `token` is legal in an HTTP header value.
pub fn is_legal_header_value(token: &str) -> (ok: bool)
    ensures
        ok == valid_header_value(token@),
{
    let n = token.unicode_len();
    let mut i: usize = 0;
    while i < n
        invariant
            n == token@.len(),
            i <= n,
            forall|j: int| 0 <= j < i ==> valid_header_char(token@[j]),
        decreases n - i,
    {
        let c = token.get_char(i);
        let code = c as u32;
        if !(c == '\t' || (32 <= code && code != 127)) {
            assert(!valid_header_char(token@[i as int]));
            return false;
        }
        i += 1;
    }
    true
}

/// The six severity levels a log record can carry, each represented on the
/// wire by its textual label.
#[derive(Clone, Copy, Debug, PartialEq, Eq, Structural)]
pub enum Severity {
    Severe,
    Error,
    Warning,
    Info,
    Verbose,
    Debug,
}

impl Severity {
    /// The textual label of this severity level.
    pub open spec fn spec_label(self) -> Seq<char> {
        match self {
            Severity::Severe => "Severe"@,
            Severity::Error => "Error"@,
            Severity::Warning => "Warning"@,
            Severity::Info => "Info"@,
            Severity::Verbose => "Verbose"@,
            Severity::Debug => "Debug"@,
        }
    }

    pub fn label(self) -> (r: &'static str)
        ensures
            r@ == self.spec_label(),
    {
        match self {
            Severity::Severe => "Severe",
            Severity::Error => "Error",
            Severity::Warning => "Warning",
            Severity::Info => "Info",
            Severity::Verbose => "Verbose",
            Severity::Debug => "Debug",
        }
    }
}

/// The mathematical content of a log record: its three texts.
pub ghost struct LogModel {
    pub error_level: Seq<char>,
    pub message: Seq<char>,
    pub stack_trace: Seq<char>,
}

/// One log record: severity label, message text and origin trace. All three
/// fields are always present; the record is immutable once constructed.
#[derive(Clone, Debug, PartialEq, Eq)]
pub struct VioletLogData {
    pub error_level: String,
    pub message: String,
    pub stack_trace: String,
}

impl View for VioletLogData {
    type V = LogModel;

    open spec fn view(&self) -> LogModel {
        LogModel {
            error_level: self.error_level@,
            message: self.message@,
            stack_trace: self.stack_trace@,
        }
    }
}

impl VioletLogData {
    /// Serializes this record to its JSON object, with exactly the keys
    /// `error_level`, `message` and `stack_trace`.
    pub fn to_json(&self) -> (r: String)
        ensures
            r@ == record_json(self@.error_level, self@.message, self@.stack_trace),
    {
        encode_record(
            self.error_level.as_str(),
            self.message.as_str(),
            self.stack_trace.as_str(),
        )
    }

    /// Parses the JSON object of a record. Exactly the texts that `to_json`
    /// produces are accepted.
    pub fn from_json(s: &str) -> (r: Option<VioletLogData>)
        ensures
            match spec_parse_record(s@) {
                Some(rec) => r matches Some(d) && d@.error_level == rec.0 && d@.message == rec.1
                    && d@.stack_trace == rec.2,
                None => r is None,
            },
    {
        match decode_record(s) {
            Some((error_level, message, stack_trace)) => Some(
                VioletLogData { error_level, message, stack_trace },
            ),
            None => None,
        }
    }
}

/// The type of reqwest's asynchronous HTTP client: the engine that performs
/// the posts. Opaque here; its behaviour is the transport's own.
#[verifier::external_type_specification]
#[verifier::external_body]
pub struct ExReqwestClient(reqwest::Client);

/// The mathematical content of a transport client: the configuration it was
/// built with.
pub ghost struct ClientModel {
    pub base_url: Seq<char>,
    pub auth_token: Seq<char>,
    pub timeout_ms: u64,
}

/// A client's configuration is well formed when its token is legal in an
/// HTTP header value.
pub open spec fn client_wf(m: ClientModel) -> bool {
    valid_header_value(m.auth_token)
}

/// The request timeout a client is built with when none is asked for, in
/// milliseconds.
pub const DEFAULT_TIMEOUT_MS: u64 = 30000;

/// The timeout a client gets: the one asked for, or the default.
pub open spec fn timeout_or_default(custom: Option<u64>) -> u64 {
    match custom {
        Some(t) => t,
        None => DEFAULT_TIMEOUT_MS,
    }
}

/// Relies on reqwest's `ClientBuilder`: builds an asynchronous HTTP client
/// whose every request carries `Content-Type: application/json` and an
/// `Authentication` header holding `token`, and gives up a request after
/// `timeout_ms` milliseconds. `HeaderValue::from_str` accepts every token
/// that `valid_header_value` admits, so only the engine's own refusal is
/// reported.
#[verifier::external_body]
fn build_transport(token: &str, timeout_ms: u64) -> (r: Result<reqwest::Client, String>)
    requires
        valid_header_value(token@),
{
    let mut headers = reqwest::header::HeaderMap::new();
    headers.insert("Content-Type", reqwest::header::HeaderValue::from_static("application/json"));
    let value = match reqwest::header::HeaderValue::from_str(token) {
        Ok(v) => v,
        Err(e) => return Err(e.to_string()),
    };
    headers.insert("Authentication", value);
    let builder = reqwest::ClientBuilder::new().default_headers(headers).user_agent(
        "cattleya",
    ).timeout(std::time::Duration::from_millis(timeout_ms));
    match builder.build() {
        Ok(c) => Ok(c),
        Err(e) => Err(e.to_string()),
    }
}

/// One authenticated HTTP sender, bound to one ingestion endpoint and one
/// credential, read-only after construction.
pub struct VioletRequest {
    reqwest_client: reqwest::Client,
    base_url: String,
    auth_token: String,
    timeout_ms: u64,
}

impl View for VioletRequest {
    type V = ClientModel;

    closed spec fn view(&self) -> ClientModel {
        ClientModel {
            base_url: self.base_url@,
            auth_token: self.auth_token@,
            timeout_ms: self.timeout_ms,
        }
    }
}

impl VioletRequest {
    /// Builds a client bound to `base_url`, authenticating with `token` and
    /// timing out after the given milliseconds, or after 30000 when none are
    /// given. Fails with `InvalidHeaderValue` exactly when the token holds a
    /// character that is illegal in a header value; a token the header
    /// accepts leaves only the transport engine's own refusal, reported as
    /// `CreateClientError`. No request is sent.
    pub fn new(token: &str, base_url: String, custom_timeout: Option<u64>) -> (r: Result<
        VioletRequest,
        VioletRequestErrors,
    >)
        ensures
            (r matches Err(VioletRequestErrors::InvalidHeaderValue)) <==> !valid_header_value(
                token@,
            ),
            match r {
                Ok(c) => c@ == (ClientModel {
                    base_url: base_url@,
                    auth_token: token@,
                    timeout_ms: timeout_or_default(custom_timeout),
                }) && client_wf(c@),
                Err(e) => e is InvalidHeaderValue || e is CreateClientError,
            },
    {
        if !is_legal_header_value(token) {
            return Err(VioletRequestErrors::InvalidHeaderValue);
        }
        let timeout_ms = match custom_timeout {
            Some(t) => t,
            None => DEFAULT_TIMEOUT_MS,
        };
        match build_transport(token, timeout_ms) {
            Ok(client) => Ok(
                VioletRequest {
                    reqwest_client: client,
                    base_url,
                    auth_token: String::from_str(token),
                    timeout_ms,
                },
            ),
            Err(report) => Err(VioletRequestErrors::CreateClientError(report)),
        }
    }

    /// The URL the records go to: the base URL with the `/errors` route.
    pub fn request_url(&self) -> (r: String)
        ensures
            r@ == self@.base_url + "/errors"@,
    {
        let mut url = self.base_url.clone();
        url.append("/errors");
        url
    }

    /// The underlying engine, for the layer that performs the posts.
    pub fn transport(&self) -> &reqwest::Client {
        &self.reqwest_client
    }

    /// The configured request timeout, in milliseconds.
    pub fn timeout_ms(&self) -> (t: u64)
        ensures
            t == self@.timeout_ms,
    {
        self.timeout_ms
    }
}

} // verus!
