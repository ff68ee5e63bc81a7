//! The Instagram side: the API addresses, reading API responses and building requests.
//!
//! The HTTP exchange itself belongs to the caller: it fetches the address that the
//! engine gives, decodes the JSON reply into a `JsonValue`, and hands it back.
use vstd::prelude::*;

pub mod convo;
pub mod header;

pub use convo::{Convo, ConvoParticipant};

use crate::constants::{BASE_URL, INSTAGRAM_API_VERSION, MESSAGE_FETCH_LIMIT};
use crate::error::{is_deserialize_error, Error};
use crate::json::JsonValue;
use crate::text::{joined, decimal, decimal_text};
use convo::{convo_from_json, convos_from_json, convos_view, lemma_read_all_error_persists, read_all};
use header::{header_text_allowed, header_value_from_str};

verus! {

/// The settings of one Instagram account: its tokens, the API root and its user id.
#[derive(Debug)]
pub struct Engine {
    pub access_token: String,
    pub webhook_token: String,
    pub base_url: String,
    pub user_id: String,
}

/// A message ready to be posted: where, the texts of its authorization and
/// content-type headers (each checked to stand as a header value), and the JSON body.
#[derive(Debug)]
pub struct OutgoingMessage {
    pub url: String,
    pub authorization: String,
    pub content_type: String,
    pub body: JsonValue,
}

/// The root of the versioned API: `{BASE_URL}/{INSTAGRAM_API_VERSION}`.
pub open spec fn base_url_spec() -> Seq<char> {
    BASE_URL@ + "/"@ + INSTAGRAM_API_VERSION@
}

/// The address that tells whose the access token is.
pub open spec fn me_url_spec(access_token: Seq<char>) -> Seq<char> {
    base_url_spec() + "/me?access_token="@ + access_token
}

/// The address of the conversation listing, with the participants of each.
pub open spec fn convo_list_url_spec(base_url: Seq<char>, access_token: Seq<char>) -> Seq<char> {
    base_url + "/me/conversations?platform=instagram&access_token="@ + access_token
        + "&fields=participants"@
}

/// The address of the conversation listing, ids only.
pub open spec fn convo_ids_url_spec(base_url: Seq<char>, access_token: Seq<char>) -> Seq<char> {
    base_url + "/me/conversations?platform=instagram&access_token="@ + access_token
}

/// The address of the first page of messages of a conversation.
pub open spec fn message_list_url_spec(
    base_url: Seq<char>,
    access_token: Seq<char>,
    convo_id: Seq<char>,
    limit: nat,
) -> Seq<char> {
    base_url + "/"@ + convo_id + "/messages?limit="@ + decimal(limit)
        + "&fields=from,to,message&access_token="@ + access_token
}

/// The address that messages are posted to.
pub open spec fn send_url_spec(base_url: Seq<char>, user_id: Seq<char>) -> Seq<char> {
    base_url + "/"@ + user_id + "/messages"@
}

/// The value of the authorization header.
pub open spec fn bearer_spec(access_token: Seq<char>) -> Seq<char> {
    "Bearer "@ + access_token
}

/// The page size asked for: the one given, or `MESSAGE_FETCH_LIMIT`.
pub open spec fn message_limit_spec(limit: Option<usize>) -> nat {
    match limit {
        Some(n) => n as nat,
        None => MESSAGE_FETCH_LIMIT as nat,
    }
}

/// An object with exactly one member, `key`, whose value is the string `text`.
pub open spec fn is_single_string_member(v: JsonValue, key: Seq<char>, text: Seq<char>) -> bool {
    match v {
        JsonValue::Object(entries) => {
            &&& entries@.len() == 1
            &&& entries@[0].0@ == key
            &&& match entries@[0].1 {
                JsonValue::String(s) => s@ == text,
                _ => false,
            }
        },
        _ => false,
    }
}

/// The body of a message post, exactly:
/// `{"recipient": {"id": recv_id}, "message": {"text": message}}`.
pub open spec fn is_message_body(body: JsonValue, recv_id: Seq<char>, message: Seq<char>) -> bool {
    match body {
        JsonValue::Object(entries) => {
            &&& entries@.len() == 2
            &&& entries@[0].0@ == "recipient"@
            &&& entries@[1].0@ == "message"@
            &&& is_single_string_member(entries@[0].1, "id"@, recv_id)
            &&& is_single_string_member(entries@[1].1, "text"@, message)
        },
        _ => false,
    }
}

/// Reading a message body back gives the recipient and the text it was built from.
pub proof fn lemma_message_body_reads_back(body: JsonValue, recv_id: Seq<char>, message: Seq<char>)
    requires
        is_message_body(body, recv_id, message),
    ensures
        body.field("recipient"@).field("id"@).str_spec() == Some(recv_id),
        body.field("message"@).field("text"@).str_spec() == Some(message),
{
    reveal_strlit("recipient");
    reveal_strlit("message");
    assert("recipient"@ != "message"@) by {
        assert("recipient"@.len() != "message"@.len());
    }
    if let JsonValue::Object(entries) = body {
        assert(crate::json::lookup_from(entries@, "recipient"@, 0) == Some(entries@[0].1));
        assert(crate::json::lookup_from(entries@, "message"@, 1) == Some(entries@[1].1));
        assert(crate::json::lookup_from(entries@, "message"@, 0) == Some(entries@[1].1));
        if let JsonValue::Object(inner) = entries@[0].1 {
            assert(crate::json::lookup_from(inner@, "id"@, 0) == Some(inner@[0].1));
        }
        if let JsonValue::Object(inner) = entries@[1].1 {
            assert(crate::json::lookup_from(inner@, "text"@, 0) == Some(inner@[0].1));
        }
    }
}

/// The ids of the listed conversations whose `id` is a string, in order.
pub open spec fn convo_ids_spec(items: Seq<JsonValue>) -> Seq<Seq<char>>
    decreases items.len(),
{
    if items.len() == 0 {
        seq![]
    } else {
        let rest = convo_ids_spec(items.drop_last());
        match items.last().field("id"@).str_spec() {
            Some(id) => rest.push(id),
            None => rest,
        }
    }
}

/// The ids of a listing are, in order, the `id` of every element whose `id` is a
/// string, whatever its other members; the other elements give nothing.
pub proof fn lemma_convo_ids_keep_every_string_id(items: Seq<JsonValue>)
    ensures
        convo_ids_spec(items) == items.filter_map(|v: JsonValue| v.field("id"@).str_spec()),
    decreases items.len(),
{
    if items.len() > 0 {
        lemma_convo_ids_keep_every_string_id(items.drop_last());
        let f = |v: JsonValue| v.field("id"@).str_spec();
        match f(items.last()) {
            Some(id) => {
                assert(items.drop_last().filter_map(f).push(id) =~= items.drop_last().filter_map(f)
                    + seq![id]);
            },
            None => {},
        }
    }
}

/// An object with one member, `key`, whose value is the string `text`.
fn single_string_member(key: &str, text: &str) -> (r: JsonValue)
    ensures
        is_single_string_member(r, key@, text@),
{
    let mut entries: Vec<(String, JsonValue)> = Vec::new();
    entries.push((String::from_str(key), JsonValue::String(String::from_str(text))));
    JsonValue::Object(entries)
}

/// Whether a presented webhook verification token is the expected one.
pub fn webhook_token_matches(candidate: &str, expected: &str) -> (r: bool)
    ensures
        r == (candidate@ == expected@),
{
    let candidate = String::from_str(candidate);
    let expected = String::from_str(expected);
    candidate == expected
}

impl Engine {
    /// The root of the versioned API.
    pub fn base_url() -> (r: String)
        ensures
            r@ == base_url_spec(),
    {
        let mut r = joined(BASE_URL, "/");
        r.append(INSTAGRAM_API_VERSION);
        r
    }

    /// The address to fetch before building an engine: whose the access token is.
    pub fn me_url(access_token: &str) -> (r: String)
        ensures
            r@ == me_url_spec(access_token@),
    {
        let mut r = Engine::base_url();
        r.append("/me?access_token=");
        r.append(access_token);
        r
    }

    /// Builds the engine from the reply to `me_url`: the user id is its `id`.
    pub fn new(access_token: &str, webhook_token: &str, me: &JsonValue) -> (r: Result<
        Engine,
        Error,
    >)
        ensures
            match me.field("id"@).str_spec() {
                Some(id) => r matches Ok(e) && e.user_id@ == id && e.access_token@
                    == access_token@ && e.webhook_token@ == webhook_token@ && e.base_url@
                    == base_url_spec(),
                None => r matches Err(e) && is_deserialize_error(e, "Invalid or missing user[id]"@),
            },
    {
        let user_id = match me.field_str("id") {
            Some(id) => id.clone(),
            None => {
                return Err(Error::deserialize("Invalid or missing user[id]"));
            },
        };
        Ok(
            Engine {
                access_token: String::from_str(access_token),
                webhook_token: String::from_str(webhook_token),
                base_url: Engine::base_url(),
                user_id,
            },
        )
    }

    /// Whether `token` is the webhook verification token this engine was given.
    pub fn is_webhook_token_valid(&self, token: &str) -> (r: bool)
        ensures
            r == (token@ == self.webhook_token@),
    {
        webhook_token_matches(token, self.webhook_token.as_str())
    }

    /// The address of the conversation listing, with participants.
    pub fn convo_list_url(&self) -> (r: String)
        ensures
            r@ == convo_list_url_spec(self.base_url@, self.access_token@),
    {
        let mut r = joined(self.base_url.as_str(), "/me/conversations?platform=instagram&access_token=");
        r.append(self.access_token.as_str());
        r.append("&fields=participants");
        r
    }

    /// Reads the conversation listing fetched from `convo_list_url`: the `data`
    /// array, each element a conversation.
    pub fn get_convo_list(&self, response: &JsonValue) -> (r: Result<Vec<Convo>, Error>)
        ensures
            match response.field("data"@).array_spec() {
                None => r matches Err(e) && is_deserialize_error(
                    e,
                    "Invalid or missing convo_list[data]"@,
                ),
                Some(items) => match (r, convos_from_json(items)) {
                    (Ok(cs), Ok(m)) => convos_view(cs@) == m,
                    (Err(e), Err(msg)) => is_deserialize_error(e, msg),
                    _ => false,
                },
            },
            r matches Ok(cs) ==> {
                let items = response.field("data"@).array_spec()->Some_0;
                &&& cs@.len() == items.len()
                &&& forall|k: int|
                    0 <= k < items.len() ==> #[trigger] convo_from_json(items[k]) == Ok::<
                        convo::ConvoModel,
                        Seq<char>,
                    >(cs@[k]@)
            },
    {
        let items = match response.field_array("data") {
            Some(items) => items,
            None => {
                return Err(Error::deserialize("Invalid or missing convo_list[data]"));
            },
        };
        let mut output: Vec<Convo> = Vec::new();
        let mut i: usize = 0;
        assert(items@.take(0) =~= Seq::<JsonValue>::empty());
        assert(convos_view(output@) =~= Seq::<convo::ConvoModel>::empty());
        while i < items.len()
            invariant
                i <= items.len(),
                response.field("data"@).array_spec() == Some(items@),
                convos_from_json(items@.take(i as int)) == Ok::<Seq<convo::ConvoModel>, Seq<char>>(
                    convos_view(output@),
                ),
            decreases items.len() - i,
        {
            let ghost before = output@;
            let c = Convo::try_from(&items[i]);
            proof {
                assert(items@.take(i + 1).drop_last() =~= items@.take(i as int));
                assert(items@.take(i + 1).last() == items@[i as int]);
            }
            match c {
                Ok(c) => {
                    output.push(c);
                    assert(convos_view(output@) =~= convos_view(before).push(c@));
                },
                Err(e) => {
                    proof {
                        lemma_read_all_error_persists(
                            items@,
                            |c: JsonValue| convo_from_json(c),
                            i + 1,
                            items@.len() as int,
                        );
                        assert(items@.take(items@.len() as int) =~= items@);
                    }
                    return Err(e);
                },
            }
            i = i + 1;
        }
        assert(items@.take(items@.len() as int) =~= items@);
        proof {
            convo::lemma_convo_list_reads_each_element(items@);
            assert forall|k: int| 0 <= k < items@.len() implies #[trigger] convo_from_json(items@[k])
                == Ok::<convo::ConvoModel, Seq<char>>(output@[k]@) by {
                assert(convos_view(output@)[k] == output@[k]@);
            }
        }
        Ok(output)
    }

    /// The address of the conversation listing without participants.
    pub fn convo_ids_url(&self) -> (r: String)
        ensures
            r@ == convo_ids_url_spec(self.base_url@, self.access_token@),
    {
        let mut r = joined(self.base_url.as_str(), "/me/conversations?platform=instagram&access_token=");
        r.append(self.access_token.as_str());
        r
    }

    /// Reads the ids from the listing fetched from `convo_ids_url`; conversations
    /// without a string `id` are skipped.
    pub fn get_convo_ids(&self, response: &JsonValue) -> (r: Result<Vec<String>, Error>)
        ensures
            match response.field("data"@).array_spec() {
                None => r matches Err(e) && is_deserialize_error(
                    e,
                    "Invalid or missing convo_list[data]"@,
                ),
                Some(items) => r matches Ok(ids) && ids@.map_values(|s: String| s@)
                    == convo_ids_spec(items) && ids@.map_values(|s: String| s@) == items.filter_map(
                    |v: JsonValue| v.field("id"@).str_spec(),
                ),
            },
    {
        let items = match response.field_array("data") {
            Some(items) => items,
            None => {
                return Err(Error::deserialize("Invalid or missing convo_list[data]"));
            },
        };
        let mut ids: Vec<String> = Vec::new();
        let mut i: usize = 0;
        assert(items@.take(0) =~= Seq::<JsonValue>::empty());
        assert(ids@.map_values(|s: String| s@) =~= Seq::<Seq<char>>::empty());
        while i < items.len()
            invariant
                i <= items.len(),
                response.field("data"@).array_spec() == Some(items@),
                ids@.map_values(|s: String| s@) == convo_ids_spec(items@.take(i as int)),
            decreases items.len() - i,
        {
            let ghost before = ids@;
            proof {
                assert(items@.take(i + 1).drop_last() =~= items@.take(i as int));
                assert(items@.take(i + 1).last() == items@[i as int]);
            }
            match items[i].field_str("id") {
                Some(id) => {
                    ids.push(id.clone());
                    assert(ids@.map_values(|s: String| s@) =~= before.map_values(|s: String| s@).push(
                        id@,
                    ));
                },
                None => {},
            }
            i = i + 1;
        }
        assert(items@.take(items@.len() as int) =~= items@);
        proof {
            lemma_convo_ids_keep_every_string_id(items@);
        }
        Ok(ids)
    }

    /// The address of the first page of messages of a conversation; the page size
    /// is `limit`, or `MESSAGE_FETCH_LIMIT` when none is given.
    pub fn message_list_url(&self, convo_id: &str, limit: Option<usize>) -> (r: String)
        ensures
            r@ == message_list_url_spec(
                self.base_url@,
                self.access_token@,
                convo_id@,
                message_limit_spec(limit),
            ),
    {
        let message_limit: usize = match limit {
            Some(out) => out,
            None => MESSAGE_FETCH_LIMIT,
        };
        let digits = decimal_text(message_limit as u64);
        let mut r = joined(self.base_url.as_str(), "/");
        r.append(convo_id);
        r.append("/messages?limit=");
        r.append(digits.as_str());
        r.append("&fields=from,to,message&access_token=");
        r.append(self.access_token.as_str());
        r
    }

    /// Takes in one fetched page of messages: its `data` elements go to the end of
    /// `output`. A page shorter than `MESSAGE_FETCH_LIMIT` is the last (`None`);
    /// otherwise the result is the address of the next page, `paging.next`.
    pub fn get_message_list(output: &mut Vec<JsonValue>, page: JsonValue) -> (r: Result<
        Option<String>,
        Error,
    >)
        ensures
            match page.field("data"@).array_spec() {
                None => {
                    &&& final(output)@ == old(output)@
                    &&& r matches Err(e) && is_deserialize_error(
                        e,
                        "Invalid or missing messages[data]"@,
                    )
                },
                Some(items) => {
                    &&& final(output)@ == old(output)@ + items
                    &&& if items.len() < MESSAGE_FETCH_LIMIT {
                        r matches Ok(None)
                    } else {
                        match page.field("paging"@).field("next"@).str_spec() {
                            Some(next) => r matches Ok(Some(url)) && url@ == next,
                            None => r matches Err(e) && is_deserialize_error(
                                e,
                                "Invalid or missing messages[paging][next]"@,
                            ),
                        }
                    }
                },
            },
    {
        let next: Option<String> = match page.get("paging") {
            Some(paging) => match paging.field_str("next") {
                Some(url) => Some(url.clone()),
                None => None,
            },
            None => None,
        };
        let data = page.into_field("data");
        match data {
            JsonValue::Array(mut items) => {
                let count = items.len();
                output.append(&mut items);
                if count < MESSAGE_FETCH_LIMIT {
                    return Ok(None);
                }
                match next {
                    Some(url) => Ok(Some(url)),
                    None => Err(Error::deserialize("Invalid or missing messages[paging][next]")),
                }
            },
            _ => Err(Error::deserialize("Invalid or missing messages[data]")),
        }
    }

    /// The address that messages are posted to.
    pub fn send_url(&self) -> (r: String)
        ensures
            r@ == send_url_spec(self.base_url@, self.user_id@),
    {
        let mut r = joined(self.base_url.as_str(), "/");
        r.append(self.user_id.as_str());
        r.append("/messages");
        r
    }

    /// The JSON body that sends `message` to `recv_id`.
    pub fn message_body(recv_id: &str, message: &str) -> (r: JsonValue)
        ensures
            is_message_body(r, recv_id@, message@),
    {
        let recipient = single_string_member("id", recv_id);
        let text = single_string_member("text", message);
        let mut entries: Vec<(String, JsonValue)> = Vec::new();
        entries.push((String::from_str("recipient"), recipient));
        entries.push((String::from_str("message"), text));
        JsonValue::Object(entries)
    }

    /// The request that sends `message` to the user `recv_id`: posted to
    /// `send_url`, authorized by the access token, with a JSON body. It fails when
    /// the access token cannot stand in a header.
    pub fn send_message(&self, recv_id: &str, message: &str) -> (r: Result<OutgoingMessage, Error>)
        ensures
            r is Ok <==> header_text_allowed(bearer_spec(self.access_token@)),
            r matches Ok(m) ==> {
                &&& m.url@ == send_url_spec(self.base_url@, self.user_id@)
                &&& m.authorization@ == bearer_spec(self.access_token@)
                &&& m.content_type@ == "application/json"@
                &&& is_message_body(m.body, recv_id@, message@)
            },
            r matches Err(e) ==> e == Error::InvalidHeaderValue,
    {
        proof {
            header::lemma_json_content_type_allowed();
        }
        let url = self.send_url();
        let authorization = joined("Bearer ", self.access_token.as_str());
        match header_value_from_str(authorization.as_str()) {
            Ok(_) => {},
            Err(_) => {
                return Err(Error::InvalidHeaderValue);
            },
        }
        let content_type = String::from_str("application/json");
        match header_value_from_str(content_type.as_str()) {
            Ok(_) => {},
            Err(_) => {
                return Err(Error::InvalidHeaderValue);
            },
        }
        let body = Engine::message_body(recv_id, message);
        Ok(OutgoingMessage { url, authorization, content_type, body })
    }
}

} // verus!
