//! The answers of the platform-routed webhook server (`/{platform}`), which hands
//! Instagram events to the command handler.
use vstd::prelude::*;

use crate::constants::INSTAGRAM_PLATFORM;
use crate::text::{signed_decimal, signed_decimal_text};
pub use crate::webhook_server::InstagramWebhookParams;
use crate::webhook_server::{
    WebhookResponse,
    STATUS_INTERNAL_SERVER_ERROR,
    STATUS_METHOD_NOT_ALLOWED,
    STATUS_OK,
};

verus! {

/// What to do with an event posted to `/{platform}`.
#[derive(Debug, PartialEq, Eq)]
pub enum PostAction {
    /// Answer at once with this.
    Reject(WebhookResponse),
    /// Hand the event to the command handler, then answer with `post_outcome`.
    Forward,
}

/// Whether the platform segment names a platform that is served.
pub fn is_supported_platform(platform: &str) -> (r: bool)
    ensures
        r == (platform@ == INSTAGRAM_PLATFORM@),
{
    let given = String::from_str(platform);
    let served = String::from_str(INSTAGRAM_PLATFORM);
    given == served
}

/// The answer to `GET /{platform}`: 405 for another platform; the challenge when
/// the token is the expected one; a health answer otherwise.
pub fn get_response(platform: &str, params: &InstagramWebhookParams, webhook_token: &str) -> (r:
    WebhookResponse)
    ensures
        platform@ != INSTAGRAM_PLATFORM@ ==> r.status == STATUS_METHOD_NOT_ALLOWED && r.body@
            == "NOT SUPPORTED"@,
        platform@ == INSTAGRAM_PLATFORM@ && params.hub_verify_token@ == webhook_token@ ==> r.status
            == STATUS_OK && r.body@ == signed_decimal(params.hub_challenge as int),
        platform@ == INSTAGRAM_PLATFORM@ && params.hub_verify_token@ != webhook_token@ ==> r.status
            == STATUS_OK && r.body@ == "HEALTHY"@,
{
    if !is_supported_platform(platform) {
        return WebhookResponse {
            status: STATUS_METHOD_NOT_ALLOWED,
            body: String::from_str("NOT SUPPORTED"),
        };
    }
    let given = String::from_str(webhook_token);
    if params.hub_verify_token == given {
        WebhookResponse { status: STATUS_OK, body: signed_decimal_text(params.hub_challenge as i64) }
    } else {
        WebhookResponse { status: STATUS_OK, body: String::from_str("HEALTHY") }
    }
}

/// What to do with `POST /{platform}`: events of another platform are refused with 405.
pub fn post_action(platform: &str) -> (r: PostAction)
    ensures
        platform@ != INSTAGRAM_PLATFORM@ ==> (r matches PostAction::Reject(resp) && resp.status
            == STATUS_METHOD_NOT_ALLOWED && resp.body@ == "NOT SUPPORTED"@),
        platform@ == INSTAGRAM_PLATFORM@ ==> r == PostAction::Forward,
{
    if is_supported_platform(platform) {
        PostAction::Forward
    } else {
        PostAction::Reject(
            WebhookResponse {
                status: STATUS_METHOD_NOT_ALLOWED,
                body: String::from_str("NOT SUPPORTED"),
            },
        )
    }
}

/// The answer once the event was, or could not be, handed to the command handler.
pub fn post_outcome(forwarded: bool) -> (r: WebhookResponse)
    ensures
        forwarded ==> r.status == STATUS_OK && r.body@ == "HEALTHY"@,
        !forwarded ==> r.status == STATUS_INTERNAL_SERVER_ERROR && r.body@ == "FAILED"@,
{
    if forwarded {
        WebhookResponse { status: STATUS_OK, body: String::from_str("HEALTHY") }
    } else {
        WebhookResponse { status: STATUS_INTERNAL_SERVER_ERROR, body: String::from_str("FAILED") }
    }
}

} // verus!
