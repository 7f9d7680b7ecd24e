use crate::challenge::ActionType;
use crate::client::{Body, BodyView, Client, Header, HeaderView, Method, Request, headers_view};
use crate::json::json_string_literal;
use crate::text::{decimal, push_decimal};
use crate::wire::push_quoted;
use vstd::prelude::*;
use vstd::string::*;

verus! {

pub const URL: &'static str = "https://twostepverification.roblox.com/v1";

/// Answers a two-step challenge with the code of an authenticator. The
/// response carries the verification token that resolves the challenge.
pub fn authenticator_verify(
    client: &Client,
    user_id: u64,
    code: &str,
    action_type: ActionType,
    server_challenge_id: &str,
) -> (r: Request)
    ensures
        r@.method == Method::Post,
        r@.url == URL@
            + "/users/"@
            + decimal(user_id as nat)
            + "/challenges/authenticator/verify"@,
        r@.query == Seq::<HeaderView>::empty(),
        r@.headers == client@.default_headers(),
        r@.body == BodyView::Json(
            "{\"actionType\":\""@
                + action_type.name_spec()
                + "\",\"challengeId\":"@
                + json_string_literal(server_challenge_id@)
                + ",\"code\":"@
                + json_string_literal(code@)
                + "}"@,
        ),
{
    let mut url = String::from_str(URL);
    url.append("/users/");
    push_decimal(&mut url, user_id as u64);
    url.append("/challenges/authenticator/verify");
    let mut text = String::from_str("{\"actionType\":\"");
    text.append(action_type.name());
    text.append("\",\"challengeId\":");
    push_quoted(&mut text, server_challenge_id);
    text.append(",\"code\":");
    push_quoted(&mut text, code);
    text.append("}");
    let query: Vec<Header> = Vec::new();
    assert(headers_view(query@) =~= Seq::<HeaderView>::empty());
    client.request_with(Method::Post, url, query, Body::Json(text))
}

} // verus!
