//! The webhook endpoint and the requests that post and edit messages on it.
use crate::edit::{edit_json, EditMessagePacket};
use crate::json::{decimal_string, decimal_text};
use crate::message::{message_json, MessagePacket};
use vstd::prelude::*;

verus! {

/// The HTTP method of a request.
#[derive(Clone, Copy, Debug, PartialEq, Eq, Structural)]
pub enum HttpMethod {
    Post,
    Patch,
}

/// One request to the webhook, for a transport to perform: the method, the
/// address, the `Content-Type` header's value and the body.
#[derive(Clone)]
pub struct WebhookRequest {
    pub method: HttpMethod,
    pub url: String,
    pub content_type: String,
    pub body: String,
}

/// A webhook, known by its address.
#[derive(Clone)]
pub struct WebhookBuilder {
    url: String,
}

impl View for WebhookBuilder {
    type V = Seq<char>;

    closed spec fn view(&self) -> Seq<char> {
        self.url@
    }
}

/// The address at which the message with this id is edited.
pub open spec fn edit_url(base: Seq<char>, id: nat) -> Seq<char> {
    base + "/messages/"@ + decimal_text(id)
}

impl WebhookBuilder {
    pub fn new(url: &str) -> (r: Self)
        ensures
            r@ == url@,
    {
        WebhookBuilder { url: String::from_str(url) }
    }

    /// The request that posts `packet` as a new message: a POST to the
    /// webhook's address with the message's JSON as body.
    pub fn send_message(&self, packet: &MessagePacket) -> (r: WebhookRequest)
        ensures
            r.method == HttpMethod::Post,
            r.url@ == self@,
            r.content_type@ == "application/json"@,
            r.body@ == message_json(packet@),
    {
        WebhookRequest {
            method: HttpMethod::Post,
            url: self.url.clone(),
            content_type: String::from_str("application/json"),
            body: packet.serialize_packet(),
        }
    }

    /// The request that edits the message `id` to match `packet`: a PATCH
    /// to `<address>/messages/<id>` with the edit's JSON as body.
    pub fn edit_message(&self, packet: &EditMessagePacket, id: usize) -> (r: WebhookRequest)
        ensures
            r.method == HttpMethod::Patch,
            r.url@ == edit_url(self@, id as nat),
            r.content_type@ == "application/json"@,
            r.body@ == edit_json(packet@),
    {
        let url = self.url.clone().concat("/messages/").concat(decimal_string(id as u64).as_str());
        WebhookRequest {
            method: HttpMethod::Patch,
            url,
            content_type: String::from_str("application/json"),
            body: packet.serialize_packet(),
        }
    }
}

} // verus!
