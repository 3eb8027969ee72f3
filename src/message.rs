use vstd::prelude::*;

verus! {

/// A telemetry message: an opaque payload sent as it is.
#[derive(Clone, Debug, PartialEq, Eq)]
pub struct Message {
    pub body: Vec<u8>,
}

/// The reply to a direct-method invocation, correlated by its request id.
#[derive(Clone, Debug, PartialEq, Eq)]
pub struct DirectMethodResponse {
    pub request_id: String,
    pub status: i32,
    pub body: String,
}

/// A direct-method invocation sent by the hub to the device.
#[derive(Clone, Debug, PartialEq, Eq)]
pub struct DirectMethodInvocation {
    pub method_name: String,
    pub request_id: String,
    pub body: String,
}

/// An inbound message, tagged with its kind.
#[derive(Clone, Debug, PartialEq, Eq)]
pub enum MessageType {
    /// A cloud-to-device message.
    C2DMessage(Message),
    /// A twin-property document or acknowledgement, tagged with the request id
    /// it answers.
    TwinProperties { request_id: String, body: String },
    /// A direct-method invocation awaiting a response.
    DirectMethod(DirectMethodInvocation),
}

/// An HTTP request to be sent as it stands: method, target, the two headers
/// the hub needs, and the body.
#[derive(Clone, Debug, PartialEq, Eq)]
pub struct OutboundRequest {
    pub method: String,
    pub uri: String,
    pub content_type: String,
    pub authorization: String,
    pub body: Vec<u8>,
}

} // verus!
