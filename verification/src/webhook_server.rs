//! The answers of the webhook server: the Instagram verification handshake and health.
use vstd::prelude::*;

use crate::json::JsonValue;
use crate::state::State;
use crate::text::{signed_decimal, signed_decimal_text};

verus! {

/// Status code of a request that succeeded.
pub const STATUS_OK: u16 = 200;

/// Status code of a request to a route that is not served.
pub const STATUS_METHOD_NOT_ALLOWED: u16 = 405;

/// Status code of a request that could not be handed on.
pub const STATUS_INTERNAL_SERVER_ERROR: u16 = 500;

/// The query of Instagram's verification request (`hub.mode`, `hub.verify_token`,
/// `hub.challenge`).
#[derive(Debug, PartialEq, Eq)]
pub struct InstagramWebhookParams {
    pub hub_mode: String,
    pub hub_verify_token: String,
    pub hub_challenge: i32,
}

/// An HTTP answer: a status code and a text body.
#[derive(Debug, PartialEq, Eq)]
pub struct WebhookResponse {
    pub status: u16,
    pub body: String,
}

/// The answer to a verification request: the challenge, echoed, when the token is
/// the expected one; an empty body otherwise.
pub open spec fn verification_answer(params: InstagramWebhookParams, expected_token: Seq<char>) -> (
    u16,
    Seq<char>,
) {
    if params.hub_verify_token@ == expected_token {
        (STATUS_OK, signed_decimal(params.hub_challenge as int))
    } else {
        (STATUS_OK, Seq::<char>::empty())
    }
}

/// The handshake echoes the challenge when, and only when, the token is the
/// expected one; the configured token is always accepted.
pub proof fn lemma_challenge_only_for_expected_token(
    params: InstagramWebhookParams,
    expected_token: Seq<char>,
)
    ensures
        (verification_answer(params, expected_token).1 == signed_decimal(params.hub_challenge as int))
            <==> params.hub_verify_token@ == expected_token,
        verification_answer(params, expected_token).0 == STATUS_OK,
{
    let n = params.hub_challenge as int;
    if n < 0 {
        crate::text::lemma_decimal_reads_back((-n) as nat);
    } else {
        crate::text::lemma_decimal_reads_back(n as nat);
    }
}

/// Answers `GET /instagram`, Instagram's verification request.
pub fn instagram_get(state: &State, params: &InstagramWebhookParams) -> (r: WebhookResponse)
    ensures
        (r.status, r.body@) == verification_answer(*params, state.engine.webhook_token@),
{
    if state.engine.is_webhook_token_valid(params.hub_verify_token.as_str()) {
        WebhookResponse {
            status: STATUS_OK,
            body: signed_decimal_text(params.hub_challenge as i64),
        }
    } else {
        WebhookResponse { status: STATUS_OK, body: String::new() }
    }
}

/// Answers `POST /instagram`, an event notification: it is acknowledged.
pub fn instagram_post(state: &State, body: &JsonValue) -> (r: WebhookResponse)
    ensures
        r.status == STATUS_OK,
        r.body@ == Seq::<char>::empty(),
{
    WebhookResponse { status: STATUS_OK, body: String::new() }
}

/// Answers `GET /health`.
pub fn health() -> (r: WebhookResponse)
    ensures
        r.status == STATUS_OK,
        r.body@ == "HEALTHY"@,
{
    WebhookResponse { status: STATUS_OK, body: String::from_str("HEALTHY") }
}

} // verus!
