use std::sync::Arc;

use tokio::sync::mpsc::Receiver;
use tokio::task::JoinHandle;
use vstd::prelude::*;

use crate::error::{Operation, TransportError};
use crate::message::{DirectMethodResponse, Message, MessageType, OutboundRequest};
use crate::token::{
    expiration_fits, now_millis, token_refresh, TokenCache, TokenSource, TokenState,
};

verus! {

#[verifier::external_type_specification]
#[verifier::external_body]
#[verifier::reject_recursive_types(T)]
pub struct ExJoinHandle<T>(JoinHandle<T>);

// JoinHandle's `Future` impl names JoinError, which Verus asks to be declared.
#[verifier::external_type_specification]
#[verifier::external_body]
pub struct ExJoinError(tokio::task::JoinError);

#[verifier::external_type_specification]
#[verifier::external_body]
#[verifier::reject_recursive_types(T)]
pub struct ExReceiver<T>(Receiver<T>);

/// Relies on tokio's JoinHandle::abort, which requests cancellation of the
/// task.
pub assume_specification<T>[ JoinHandle::<T>::abort ](h: &JoinHandle<T>);

/// Relies on std's Arc::into_inner: the inner value when `a` was the last
/// strong reference, and otherwise `None` (the reference is dropped). Of
/// several calls racing on the clones of one `Arc`, exactly one gets the value.
#[verifier::external_body]
fn into_inner_if_last<T>(a: Arc<T>) -> (r: Option<T>)
    ensures
        r matches Some(t) ==> t == *a,
{
    Arc::into_inner(a)
}

/// Aborts the keepalive task when this holder was the last one, that is when
/// `unwrapped` holds the task. Returns whether it aborted it.
pub fn abort_if_last(unwrapped: Option<JoinHandle<()>>) -> (aborted: bool)
    ensures
        aborted == unwrapped is Some,
{
    match unwrapped {
        Some(task) => {
            task.abort();
            true
        },
        None => false,
    }
}

/// The outcome of a request answered with HTTP status `status`: success
/// exactly for the 2xx codes.
pub fn response_result(status: u16) -> (r: Result<(), TransportError>)
    ensures
        r is Ok <==> 200 <= status <= 299,
        r is Err ==> r->Err_0 == TransportError::Status(status),
{
    if 200 <= status && status <= 299 {
        Ok(())
    } else {
        Err(TransportError::Status(status))
    }
}

/// The address that telemetry of device `device_id` is posted to on hub
/// `hub_name`.
pub open spec fn events_uri(hub_name: Seq<char>, device_id: Seq<char>) -> Seq<char> {
    "https://"@ + hub_name + "/devices/"@ + device_id + "/messages/events?api-version=2019-03-30"@
}

/// The request that posts `body` as telemetry with authorization `token`.
pub open spec fn telemetry_request_of(
    hub_name: Seq<char>,
    device_id: Seq<char>,
    token: Seq<char>,
    body: Seq<u8>,
) -> (Seq<char>, Seq<char>, Seq<char>, Seq<char>, Seq<u8>) {
    ("POST"@, events_uri(hub_name, device_id), "application/json"@, token, body)
}

/// The request `req` as plain values, in the order of `telemetry_request_of`.
pub open spec fn request_view(req: OutboundRequest) -> (
    Seq<char>,
    Seq<char>,
    Seq<char>,
    Seq<char>,
    Seq<u8>,
) {
    (req.method@, req.uri@, req.content_type@, req.authorization@, req.body@)
}

/// The token that the request in `r` carries, or its failure.
pub open spec fn request_token(r: Result<OutboundRequest, TransportError>) -> Result<
    String,
    TransportError,
> {
    match r {
        Ok(req) => Ok(req.authorization),
        Err(e) => Err(e),
    }
}

/// What an HTTPS transport holds, as plain values.
pub struct TransportState {
    pub hub_name: Seq<char>,
    pub device_id: Seq<char>,
    pub token: TokenState,
    pub has_keepalive: bool,
}

/// A transport that talks to the hub over HTTPS, authenticating each request
/// with a token from its cache. Clones share the credential source and the
/// keepalive task; the task is aborted when the last clone is dropped.
#[derive(Clone)]
pub struct HttpsTransport<TS> {
    token_source: Arc<TS>,
    hub_name: String,
    device_id: String,
    ping_join_handle: Option<Arc<JoinHandle<()>>>,
    token: TokenCache,
}

impl<TS> View for HttpsTransport<TS> {
    type V = TransportState;

    closed spec fn view(&self) -> TransportState {
        TransportState {
            hub_name: self.hub_name@,
            device_id: self.device_id@,
            token: self.token@,
            has_keepalive: self.ping_join_handle is Some,
        }
    }
}

impl<TS: TokenSource> HttpsTransport<TS> {
    /// A transport for device `device_id` on hub `hub_name`, with no token
    /// minted yet and no keepalive task.
    pub fn new(hub_name: &str, device_id: String, token_source: TS) -> (r: Self)
        ensures
            r@.hub_name == hub_name@,
            r@.device_id == device_id@,
            r@.token.token == Seq::<char>::empty(),
            r@.token.expires_at is None,
            !r@.has_keepalive,
    {
        HttpsTransport {
            token_source: Arc::new(token_source),
            hub_name: hub_name.to_owned(),
            device_id,
            ping_join_handle: None,
            token: TokenCache::new(),
        }
    }

    /// A transport as `new` builds it, that also owns the keepalive task
    /// `keepalive`, shared by all its clones.
    pub fn with_keepalive(
        hub_name: &str,
        device_id: String,
        token_source: TS,
        keepalive: JoinHandle<()>,
    ) -> (r: Self)
        ensures
            r@.hub_name == hub_name@,
            r@.device_id == device_id@,
            r@.token.token == Seq::<char>::empty(),
            r@.token.expires_at is None,
            r@.has_keepalive,
    {
        let mut t = Self::new(hub_name, device_id, token_source);
        t.ping_join_handle = Some(Arc::new(keepalive));
        t
    }

    /// The token to authenticate with at instant `now_ms`, reusing or
    /// refreshing the cached one.
    pub fn token_at(&mut self, now_ms: i64) -> (r: Result<String, TransportError>)
        ensures
            token_refresh(old(self).token_source(), old(self)@.token, now_ms, r, final(self)@.token),
            final(self)@.hub_name == old(self)@.hub_name,
            final(self)@.device_id == old(self)@.device_id,
            final(self)@.has_keepalive == old(self)@.has_keepalive,
    {
        let source: &TS = &self.token_source;
        self.token.current_token(source, now_ms)
    }

    /// The token to authenticate with now, by the system clock; when the
    /// clock cannot be read, `ClockUnavailable` with the transport unchanged.
    pub fn get_token(&mut self) -> (r: Result<String, TransportError>)
        ensures
            r == Err::<String, TransportError>(TransportError::ClockUnavailable) && final(self)@
                == old(self)@ || exists|now: i64|
                0 <= now && expiration_fits(now) && #[trigger] token_refresh(
                    old(self).token_source(),
                    old(self)@.token,
                    now,
                    r,
                    final(self)@.token,
                ),
            r != Err::<String, TransportError>(TransportError::ExpirationOutOfRange),
            final(self)@.hub_name == old(self)@.hub_name,
            final(self)@.device_id == old(self)@.device_id,
            final(self)@.has_keepalive == old(self)@.has_keepalive,
    {
        match now_millis() {
            None => Err(TransportError::ClockUnavailable),
            Some(now) => self.token_at(now),
        }
    }

    /// The request that posts `message` as telemetry at instant `now_ms`,
    /// authenticated with the token that the cache gives at that instant.
    /// It fails, leaving the cache as it was, exactly when the token cannot
    /// be had.
    pub fn message_request_at(&mut self, message: Message, now_ms: i64) -> (r: Result<
        OutboundRequest,
        TransportError,
    >)
        ensures
            token_refresh(
                old(self).token_source(),
                old(self)@.token,
                now_ms,
                request_token(r),
                final(self)@.token,
            ),
            r is Ok ==> request_view(r->Ok_0) == telemetry_request_of(
                old(self)@.hub_name,
                old(self)@.device_id,
                final(self)@.token.token,
                message.body@,
            ),
            final(self)@.hub_name == old(self)@.hub_name,
            final(self)@.device_id == old(self)@.device_id,
            final(self)@.has_keepalive == old(self)@.has_keepalive,
    {
        let token = match self.token_at(now_ms) {
            Ok(t) => t,
            Err(e) => return Err(e),
        };
        let mut uri = "https://".to_owned();
        uri.append(self.hub_name.as_str());
        uri.append("/devices/");
        uri.append(self.device_id.as_str());
        uri.append("/messages/events?api-version=2019-03-30");
        Ok(OutboundRequest {
            method: "POST".to_owned(),
            uri,
            content_type: "application/json".to_owned(),
            authorization: token,
            body: message.body,
        })
    }

    /// The request that posts `message` as telemetry now, by the system clock;
    /// when the clock cannot be read, `ClockUnavailable` with the transport
    /// unchanged.
    pub fn message_request(&mut self, message: Message) -> (r: Result<OutboundRequest, TransportError>)
        ensures
            r == Err::<OutboundRequest, TransportError>(TransportError::ClockUnavailable)
                && final(self)@ == old(self)@ || exists|now: i64|
                0 <= now && expiration_fits(now) && #[trigger] token_refresh(
                    old(self).token_source(),
                    old(self)@.token,
                    now,
                    request_token(r),
                    final(self)@.token,
                ),
            !(r matches Err(TransportError::ExpirationOutOfRange)),
            r is Ok ==> request_view(r->Ok_0) == telemetry_request_of(
                old(self)@.hub_name,
                old(self)@.device_id,
                final(self)@.token.token,
                message.body@,
            ),
            final(self)@.hub_name == old(self)@.hub_name,
            final(self)@.device_id == old(self)@.device_id,
            final(self)@.has_keepalive == old(self)@.has_keepalive,
    {
        match now_millis() {
            None => Err(TransportError::ClockUnavailable),
            Some(now) => self.message_request_at(message, now),
        }
    }
}

impl<TS> HttpsTransport<TS> {
    /// The credential source shared by this transport's clones.
    pub closed spec fn token_source(&self) -> &TS {
        &*self.token_source
    }

    /// The hub this transport talks to.
    pub fn hub_name(&self) -> (r: &str)
        ensures
            r@ == self@.hub_name,
    {
        self.hub_name.as_str()
    }

    /// The device this transport speaks for.
    pub fn device_id(&self) -> (r: &str)
        ensures
            r@ == self@.device_id,
    {
        self.device_id.as_str()
    }

    /// The token cache, as it stands.
    pub fn token_cache(&self) -> (r: &TokenCache)
        ensures
            r@ == self@.token,
    {
        &self.token
    }

    /// Pushing a twin-property patch is not provided over HTTPS.
    pub fn send_property_update(&mut self, request_id: &str, body: &str) -> (r: Result<(), TransportError>)
        ensures
            r == Err::<(), TransportError>(TransportError::Unsupported(Operation::SendPropertyUpdate)),
            final(self)@ == old(self)@,
    {
        Err(TransportError::Unsupported(Operation::SendPropertyUpdate))
    }

    /// Requesting the twin document is not provided over HTTPS.
    pub fn request_twin_properties(&mut self, request_id: &str) -> (r: Result<(), TransportError>)
        ensures
            r == Err::<(), TransportError>(TransportError::Unsupported(Operation::RequestTwinProperties)),
            final(self)@ == old(self)@,
    {
        Err(TransportError::Unsupported(Operation::RequestTwinProperties))
    }

    /// Answering a direct method is not provided over HTTPS.
    pub fn respond_to_direct_method(&mut self, response: DirectMethodResponse) -> (r: Result<
        (),
        TransportError,
    >)
        ensures
            r == Err::<(), TransportError>(TransportError::Unsupported(Operation::RespondToDirectMethod)),
            final(self)@ == old(self)@,
    {
        Err(TransportError::Unsupported(Operation::RespondToDirectMethod))
    }

    /// A liveness probe is not provided over HTTPS.
    pub fn ping(&mut self) -> (r: Result<(), TransportError>)
        ensures
            r == Err::<(), TransportError>(TransportError::Unsupported(Operation::Ping)),
            final(self)@ == old(self)@,
    {
        Err(TransportError::Unsupported(Operation::Ping))
    }

    /// An inbound message channel is not provided over HTTPS.
    pub fn get_receiver(&mut self) -> (r: Result<Receiver<MessageType>, TransportError>)
        ensures
            r is Err,
            r->Err_0 == TransportError::Unsupported(Operation::GetReceiver),
            final(self)@ == old(self)@,
    {
        Err(TransportError::Unsupported(Operation::GetReceiver))
    }

    /// Gives up this transport's share of the keepalive task, and aborts the
    /// task when no other clone holds a share. Returns whether it aborted it.
    pub fn release_keepalive(&mut self) -> (aborted: bool)
        ensures
            !final(self)@.has_keepalive,
            aborted ==> old(self)@.has_keepalive,
            final(self)@.hub_name == old(self)@.hub_name,
            final(self)@.device_id == old(self)@.device_id,
            final(self)@.token == old(self)@.token,
    {
        match self.ping_join_handle.take() {
            None => false,
            Some(shared) => abort_if_last(into_inner_if_last(shared)),
        }
    }
}

} // verus!
