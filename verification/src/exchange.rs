//! The per-request state machine of a forwarding exchange.
//!
//! One [`Exchange`] is created for each request dispatched to a forwarding
//! endpoint. The caller feeds it the events of the request's life — body
//! chunks, the parse outcome, the upstream outcome — and performs the actions
//! it returns: send a response, or issue the single outbound call. The
//! machine decides everything; the caller only moves bytes.
//!
//! The invariant [`Exchange::inv`] pins the outbound-call discipline: no call
//! has been issued while the body is still being read, exactly one once the
//! request was forwarded, and never more than one in any state. A finished
//! exchange accepts no further event, so no outcome is ever retried.

use vstd::prelude::*;
use vstd::string::*;
use crate::model::{
    ChatCompletionRequest, ChatCompletionResponse, CompletionRequest, CompletionResponse,
    GatewayResponse, ResponseBody, Settings,
};
use crate::numfmt::{dec_digits, u16_to_dec};
use crate::routing::Endpoint;

verus! {

/// Inbound bodies larger than this are rejected with a 413, to cap memory use
/// against unbounded or malicious bodies.
pub const MAX_BODY_BYTES: usize = 10_000_000;

/// The single outbound attempt waits at most this long for the upstream
/// service.
pub const UPSTREAM_TIMEOUT_SECS: u64 = 30;

/// Where an exchange stands in its life.
#[derive(Debug, Clone, Copy, PartialEq, Eq, Structural)]
pub enum Phase {
    /// The inbound body is still being read.
    Reading,
    /// The request was forwarded; the upstream outcome is awaited.
    AwaitingUpstream,
    /// Upstream answered with a success status; its body is being decoded.
    Decoding,
    /// A response was produced; the exchange accepts no further event.
    Done,
}

/// The typed body of the single outbound call.
#[derive(Debug, Clone, PartialEq)]
pub enum RequestPayload {
    Chat(ChatCompletionRequest),
    Completion(CompletionRequest),
}

/// Everything the single outbound call consists of: the upstream URL, the
/// two headers, the timeout, and the request to re-serialize as its body.
#[derive(Debug, Clone, PartialEq)]
pub struct OutboundCall {
    /// The upstream base URL with the endpoint's suffix appended.
    pub url: String,
    /// The value of the `Authorization` header.
    pub bearer: String,
    /// The value of the `Content-Type` header.
    pub content_type: String,
    /// The timeout of the one attempt, in seconds.
    pub timeout_secs: u64,
    /// The inbound request, forwarded verbatim.
    pub payload: RequestPayload,
}

/// What the caller must do next after handing the machine a parse outcome.
#[derive(Debug, Clone, PartialEq)]
pub enum Step {
    /// Send this response to the caller; the exchange is over.
    Respond(GatewayResponse),
    /// Issue this one outbound call, then report its outcome.
    Forward(OutboundCall),
}

/// Whether an upstream status code counts as success.
pub open spec fn status_is_success(status: u16) -> bool {
    200 <= status < 300
}

/// The state of one inbound request being forwarded.
pub struct Exchange {
    /// Which endpoint the request was routed to.
    pub endpoint: Endpoint,
    /// Where the exchange stands.
    pub phase: Phase,
    /// The accumulated inbound body.
    pub buf: Vec<u8>,
    /// How many outbound calls have been issued; never more than one.
    pub calls: u32,
}

impl Exchange {
    /// The state invariant: the accumulated body never exceeds the cap, no
    /// outbound call is issued before the request is forwarded, and exactly
    /// one has been issued from then on.
    pub open spec fn inv(self) -> bool {
        &&& self.buf@.len() <= MAX_BODY_BYTES
        &&& match self.phase {
            Phase::Reading => self.calls == 0,
            Phase::AwaitingUpstream => self.calls == 1,
            Phase::Decoding => self.calls == 1,
            Phase::Done => self.calls <= 1,
        }
    }

    /// Begin an exchange for a request routed to `endpoint`.
    pub fn new(endpoint: Endpoint) -> (r: Exchange)
        ensures
            r.inv(),
            r.endpoint == endpoint,
            r.phase == Phase::Reading,
            r.buf@ =~= Seq::<u8>::empty(),
            r.calls == 0,
    {
        Exchange { endpoint, phase: Phase::Reading, buf: Vec::new(), calls: 0 }
    }

    /// Accumulate one chunk of the inbound body. Once the accumulated size
    /// would exceed [`MAX_BODY_BYTES`], the request is rejected with a 413 —
    /// before any outbound call was issued — and the exchange is over.
    pub fn push_chunk(&mut self, chunk: Vec<u8>) -> (r: Option<GatewayResponse>)
        requires
            old(self).inv(),
            old(self).phase == Phase::Reading,
        ensures
            final(self).inv(),
            final(self).endpoint == old(self).endpoint,
            final(self).calls == 0,
            old(self).buf@.len() + chunk@.len() > MAX_BODY_BYTES ==> (r matches Some(resp)
                && resp.status == 413
                && (resp.body matches ResponseBody::Text(t) && t@ == "Request body too large"@)
                && final(self).phase == Phase::Done
                && final(self).buf@ == old(self).buf@),
            old(self).buf@.len() + chunk@.len() <= MAX_BODY_BYTES ==> (r is None
                && final(self).phase == Phase::Reading
                && final(self).buf@ == old(self).buf@ + chunk@),
    {
        if chunk.len() > MAX_BODY_BYTES - self.buf.len() {
            self.phase = Phase::Done;
            Some(
                GatewayResponse {
                    status: 413,
                    body: ResponseBody::Text(String::from_str("Request body too large")),
                },
            )
        } else {
            let mut c = chunk;
            self.buf.append(&mut c);
            None
        }
    }

    /// The inbound body could not be read to its end: the request is answered
    /// with a 400, and no outbound call was or will be issued.
    pub fn read_failed(&mut self) -> (r: GatewayResponse)
        requires
            old(self).inv(),
            old(self).phase == Phase::Reading,
        ensures
            final(self).inv(),
            final(self).endpoint == old(self).endpoint,
            final(self).phase == Phase::Done,
            final(self).calls == 0,
            r.status == 400,
            r.body is Empty,
    {
        self.phase = Phase::Done;
        GatewayResponse { status: 400, body: ResponseBody::Empty }
    }

    /// Decide on the parse outcome of a chat-completion body. A body that was
    /// not valid JSON for [`ChatCompletionRequest`] is answered with a 400 and
    /// no outbound call; a valid one is forwarded verbatim, in the one
    /// outbound call of the exchange, to the configured upstream URL with the
    /// bearer credential and a 30-second timeout.
    pub fn on_chat_parse(
        &mut self,
        parsed: Option<ChatCompletionRequest>,
        settings: &Settings,
    ) -> (r: Step)
        requires
            old(self).inv(),
            old(self).phase == Phase::Reading,
            old(self).endpoint == Endpoint::Chat,
        ensures
            final(self).inv(),
            final(self).endpoint == old(self).endpoint,
            parsed is None ==> (r matches Step::Respond(resp)
                && resp.status == 400
                && (resp.body matches ResponseBody::Text(t) && t@ == "Invalid request format"@)
                && final(self).phase == Phase::Done
                && final(self).calls == 0),
            parsed matches Some(req) ==> (r matches Step::Forward(c)
                && c.url@ == settings.ai_service.url@ + "/v1/chat/completions"@
                && c.bearer@ == "Bearer "@ + settings.ai_service.api_key@
                && c.content_type@ == "application/json"@
                && c.timeout_secs == UPSTREAM_TIMEOUT_SECS
                && c.payload == RequestPayload::Chat(req)
                && final(self).phase == Phase::AwaitingUpstream
                && final(self).calls == 1),
    {
        match parsed {
            None => {
                self.phase = Phase::Done;
                Step::Respond(
                    GatewayResponse {
                        status: 400,
                        body: ResponseBody::Text(String::from_str("Invalid request format")),
                    },
                )
            },
            Some(req) => {
                self.phase = Phase::AwaitingUpstream;
                self.calls = self.calls + 1;
                Step::Forward(
                    OutboundCall {
                        url: settings.ai_service.url.clone().concat("/v1/chat/completions"),
                        bearer: String::from_str("Bearer ").concat(
                            settings.ai_service.api_key.as_str(),
                        ),
                        content_type: String::from_str("application/json"),
                        timeout_secs: UPSTREAM_TIMEOUT_SECS,
                        payload: RequestPayload::Chat(req),
                    },
                )
            },
        }
    }

    /// Decide on the parse outcome of a text-completion body, exactly as
    /// [`Exchange::on_chat_parse`] does for chat bodies; the outbound call
    /// goes to the text-completion suffix of the upstream URL.
    pub fn on_completion_parse(
        &mut self,
        parsed: Option<CompletionRequest>,
        settings: &Settings,
    ) -> (r: Step)
        requires
            old(self).inv(),
            old(self).phase == Phase::Reading,
            old(self).endpoint == Endpoint::Completion,
        ensures
            final(self).inv(),
            final(self).endpoint == old(self).endpoint,
            parsed is None ==> (r matches Step::Respond(resp)
                && resp.status == 400
                && (resp.body matches ResponseBody::Text(t) && t@ == "Invalid request format"@)
                && final(self).phase == Phase::Done
                && final(self).calls == 0),
            parsed matches Some(req) ==> (r matches Step::Forward(c)
                && c.url@ == settings.ai_service.url@ + "/v1/api/completions"@
                && c.bearer@ == "Bearer "@ + settings.ai_service.api_key@
                && c.content_type@ == "application/json"@
                && c.timeout_secs == UPSTREAM_TIMEOUT_SECS
                && c.payload == RequestPayload::Completion(req)
                && final(self).phase == Phase::AwaitingUpstream
                && final(self).calls == 1),
    {
        match parsed {
            None => {
                self.phase = Phase::Done;
                Step::Respond(
                    GatewayResponse {
                        status: 400,
                        body: ResponseBody::Text(String::from_str("Invalid request format")),
                    },
                )
            },
            Some(req) => {
                self.phase = Phase::AwaitingUpstream;
                self.calls = self.calls + 1;
                Step::Forward(
                    OutboundCall {
                        url: settings.ai_service.url.clone().concat("/v1/api/completions"),
                        bearer: String::from_str("Bearer ").concat(
                            settings.ai_service.api_key.as_str(),
                        ),
                        content_type: String::from_str("application/json"),
                        timeout_secs: UPSTREAM_TIMEOUT_SECS,
                        payload: RequestPayload::Completion(req),
                    },
                )
            },
        }
    }

    /// The one outbound call failed at the transport level (connection or
    /// timeout): the caller gets a 500 with a generic message, exactly once,
    /// and no retry is possible — the exchange is over.
    pub fn on_transport_failure(&mut self) -> (r: GatewayResponse)
        requires
            old(self).inv(),
            old(self).phase == Phase::AwaitingUpstream,
        ensures
            final(self).inv(),
            final(self).endpoint == old(self).endpoint,
            final(self).phase == Phase::Done,
            final(self).calls == 1,
            r.status == 500,
            (r.body matches ResponseBody::Text(t)
                && t@ == "Failed to communicate with AI service"@),
    {
        self.phase = Phase::Done;
        GatewayResponse {
            status: 500,
            body: ResponseBody::Text(String::from_str("Failed to communicate with AI service")),
        }
    }

    /// Upstream answered with `status`. A success status moves the exchange
    /// on to decoding the upstream body; any other status is propagated to
    /// the caller as-is, with the synthetic body `"AI service error: <status>"`,
    /// and the exchange is over.
    pub fn on_upstream_status(&mut self, status: u16) -> (r: Option<GatewayResponse>)
        requires
            old(self).inv(),
            old(self).phase == Phase::AwaitingUpstream,
        ensures
            final(self).inv(),
            final(self).endpoint == old(self).endpoint,
            final(self).calls == 1,
            status_is_success(status) ==> r is None && final(self).phase == Phase::Decoding,
            !status_is_success(status) ==> (r matches Some(resp)
                && resp.status == status
                && (resp.body matches ResponseBody::Text(t)
                    && t@ == "AI service error: "@ + dec_digits(status as nat))
                && final(self).phase == Phase::Done),
    {
        if 200 <= status && status < 300 {
            self.phase = Phase::Decoding;
            None
        } else {
            self.phase = Phase::Done;
            let mut text = String::from_str("AI service error: ");
            let numeral = u16_to_dec(status);
            text.append(numeral.as_str());
            Some(GatewayResponse { status, body: ResponseBody::Text(text) })
        }
    }

    /// Decide on the decode outcome of a successful upstream chat reply: a
    /// well-formed reply is relayed to the caller unchanged, with status 200
    /// and a JSON body; an undecodable one is answered with a 500 and a
    /// generic message. Either way the exchange is over.
    pub fn on_chat_reply(&mut self, decoded: Option<ChatCompletionResponse>) -> (r:
        GatewayResponse)
        requires
            old(self).inv(),
            old(self).phase == Phase::Decoding,
            old(self).endpoint == Endpoint::Chat,
        ensures
            final(self).inv(),
            final(self).endpoint == old(self).endpoint,
            final(self).phase == Phase::Done,
            final(self).calls == 1,
            decoded matches Some(reply) ==> r.status == 200 && r.body
                == ResponseBody::ChatJson(reply),
            decoded is None ==> r.status == 500 && (r.body matches ResponseBody::Text(t)
                && t@ == "Failed to process AI service response"@),
    {
        self.phase = Phase::Done;
        match decoded {
            Some(reply) => GatewayResponse { status: 200, body: ResponseBody::ChatJson(reply) },
            None => GatewayResponse {
                status: 500,
                body: ResponseBody::Text(String::from_str("Failed to process AI service response")),
            },
        }
    }

    /// Decide on the decode outcome of a successful upstream text-completion
    /// reply, exactly as [`Exchange::on_chat_reply`] does for chat replies.
    pub fn on_completion_reply(&mut self, decoded: Option<CompletionResponse>) -> (r:
        GatewayResponse)
        requires
            old(self).inv(),
            old(self).phase == Phase::Decoding,
            old(self).endpoint == Endpoint::Completion,
        ensures
            final(self).inv(),
            final(self).endpoint == old(self).endpoint,
            final(self).phase == Phase::Done,
            final(self).calls == 1,
            decoded matches Some(reply) ==> r.status == 200 && r.body
                == ResponseBody::CompletionJson(reply),
            decoded is None ==> r.status == 500 && (r.body matches ResponseBody::Text(t)
                && t@ == "Failed to process AI service response"@),
    {
        self.phase = Phase::Done;
        match decoded {
            Some(reply) => GatewayResponse {
                status: 200,
                body: ResponseBody::CompletionJson(reply),
            },
            None => GatewayResponse {
                status: 500,
                body: ResponseBody::Text(String::from_str("Failed to process AI service response")),
            },
        }
    }
}

/// In every state an exchange can be in, at most one outbound call has been
/// issued: there is no retry, whatever sequence of events drove the machine.
pub proof fn lemma_at_most_one_call(ex: Exchange)
    requires
        ex.inv(),
    ensures
        ex.calls <= 1,
{
}

/// Once a request has been forwarded — while the upstream outcome is awaited
/// or its reply is being decoded — exactly one outbound call has been issued,
/// and no transition of the machine can issue another.
pub proof fn lemma_forwarded_exactly_one_call(ex: Exchange)
    requires
        ex.inv(),
        ex.phase == Phase::AwaitingUpstream || ex.phase == Phase::Decoding,
    ensures
        ex.calls == 1,
{
}

/// While the inbound body is still being read — so in particular when it is
/// rejected as oversize, unreadable, or unparseable — no outbound call has
/// been issued.
pub proof fn lemma_no_call_while_reading(ex: Exchange)
    requires
        ex.inv(),
        ex.phase == Phase::Reading,
    ensures
        ex.calls == 0,
{
}

} // verus!
