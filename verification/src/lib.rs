//! A remote error-logging client: it packages a severity label, a message
//! and an origin trace into a JSON record and ships it over HTTP to a
//! configured ingestion endpoint, authenticating with a static token. One
//! client is initialized once per process and serves every later emit.
use vstd::prelude::*;

pub mod erros;
pub mod json;
pub mod protocol;
pub mod request;
pub mod strutil;

use crate::erros::CattleyaInitError;
use crate::json::record_json;
use crate::json::spec_parse_record;
use crate::protocol::run_protocol;
use crate::protocol::SendEvent;
use crate::protocol::SendVerdict;
use crate::request::client_wf;
use crate::request::valid_header_value;
use crate::request::ClientModel;
use crate::request::VioletLogData;
use crate::request::VioletRequest;
use crate::request::DEFAULT_TIMEOUT_MS;

verus! {

/// The process-wide slot that holds at most one initialized transport
/// client: empty at start, set exactly once, read-only thereafter.
pub struct CattleyaState {
    violet_request: Option<VioletRequest>,
}

impl View for CattleyaState {
    type V = Option<ClientModel>;

    closed spec fn view(&self) -> Option<ClientModel> {
        match self.violet_request {
            Some(c) => Some(c@),
            None => None,
        }
    }
}

/// What installing a client in the slot comes to: the first install fills an
/// empty slot and is accepted; any later install leaves the slot as it was
/// and is refused.
pub open spec fn slot_set(slot: Option<ClientModel>, c: ClientModel) -> (
    Option<ClientModel>,
    bool,
) {
    match slot {
        Some(_) => (slot, false),
        None => (Some(c), true),
    }
}

impl CattleyaState {
    /// An empty slot, not yet initialized.
    pub fn new() -> (s: CattleyaState)
        ensures
            s@ is None,
    {
        CattleyaState { violet_request: None }
    }

    /// Whether a client has been installed.
    pub fn is_initialized(&self) -> (b: bool)
        ensures
            b == (self@ is Some),
    {
        self.violet_request.is_some()
    }

    /// The installed client.
    pub fn client(&self) -> (c: &VioletRequest)
        requires
            self@ is Some,
        ensures
            Some(c@) == self@,
    {
        match &self.violet_request {
            Some(c) => c,
            None => vstd::pervasive::unreached(),
        }
    }

    /// Installs a client: the first writer wins, every later one is refused
    /// as already initialized and changes nothing.
    pub fn set_client(&mut self, client: VioletRequest) -> (r: Result<(), CattleyaInitError>)
        ensures
            ({
                let (slot, accepted) = slot_set(old(self)@, client@);
                final(self)@ == slot && (r is Ok) == accepted
            }),
            r matches Err(e) ==> e is CattleyaEarlyInit,
    {
        if self.violet_request.is_some() {
            Err(CattleyaInitError::CattleyaEarlyInit)
        } else {
            self.violet_request = Some(client);
            Ok(())
        }
    }
}

/// Initializes the slot with a client bound to `base_url` and authenticated
/// by `token`, with the default timeout. A token illegal in a header value
/// is refused as `InvalidTokenValue`; a slot already holding a client leaves
/// the slot unchanged and is refused, as `CattleyaEarlyInit` unless the
/// transport engine refused first; the engine's own refusal is reported as
/// `Unspecified`.
pub fn init_cattleya(state: &mut CattleyaState, base_url: String, token: &str) -> (r: Result<
    (),
    CattleyaInitError,
>)
    ensures
        r is Ok ==> old(state)@ is None && valid_header_value(token@) && final(state)@ == Some(
            ClientModel {
                base_url: base_url@,
                auth_token: token@,
                timeout_ms: DEFAULT_TIMEOUT_MS,
            },
        ),
        !(r is Ok) ==> final(state)@ == old(state)@,
        (r matches Err(CattleyaInitError::InvalidTokenValue)) <==> !valid_header_value(token@),
        (r matches Err(CattleyaInitError::CattleyaEarlyInit)) ==> old(state)@ is Some
            && valid_header_value(token@),
        valid_header_value(token@) && old(state)@ is Some ==> (r matches Err(e) && (
        e is CattleyaEarlyInit || e is Unspecified)),
        !(r matches Err(CattleyaInitError::BaseUrlInvalid)),
{
    let client = match VioletRequest::new(token, base_url, None) {
        Ok(c) => c,
        Err(e) => {
            return Err(CattleyaInitError::from_request_error(e));
        },
    };
    state.set_client(client)
}

/// One delivery, ready for the transport layer: where to post, and the JSON
/// body to post there.
pub struct PreparedRequest {
    pub url: String,
    pub body: String,
}

/// Builds the record for one emit and the request that ships it: the URL is
/// the client's base URL with the `/errors` route, the body the record's
/// JSON object. Emitting before the state is initialized is a programming
/// error, not a runtime condition, and is ruled out here.
pub fn emit_log(state: &CattleyaState, level: String, message: String, target: String) -> (req:
    PreparedRequest)
    requires
        state@ is Some,
    ensures
        state@ matches Some(m) ==> req.url@ == m.base_url + "/errors"@,
        req.body@ == record_json(level@, message@, target@),
{
    let data = VioletLogData { error_level: level, message, stack_trace: target };
    let client = state.client();
    let url = client.request_url();
    let body = data.to_json();
    PreparedRequest { url, body }
}

/// Initialization is exactly once: on an empty slot a first install is
/// accepted and fills the slot, and a second install is refused and leaves
/// the first client in place.
pub proof fn lemma_init_exactly_once(first: ClientModel, second: ClientModel)
    ensures
        ({
            let (slot1, accepted1) = slot_set(None, first);
            let (slot2, accepted2) = slot_set(slot1, second);
            accepted1 && slot1 == Some(first) && !accepted2 && slot2 == Some(first)
        }),
{
}

/// A fresh start delivers: with a token legal in a header value, the install
/// of the first client is accepted, the first emitted record's body parses
/// back to exactly its three fields, and an endpoint that answers the first
/// post with 201 sees exactly one request for it.
pub proof fn lemma_first_emit_delivered(
    slot: Option<ClientModel>,
    c: ClientModel,
    events: Seq<SendEvent>,
    level: Seq<char>,
    message: Seq<char>,
    target: Seq<char>,
)
    requires
        slot is None,
        client_wf(c),
        events.len() >= 1,
        events[0] == SendEvent::Response(201),
    ensures
        slot_set(slot, c).1,
        run_protocol(events) == Some((1 as nat, SendVerdict::Delivered)),
        spec_parse_record(record_json(level, message, target)) == Some((level, message, target)),
{
    crate::protocol::lemma_delivered_first_attempt(events);
    crate::json::lemma_parse_record_json(level, message, target);
}

} // verus!
