use crate::client::{Body, BodyView, Client, Header, HeaderView, Method, Request, headers_view};
use crate::text::{decimal, push_decimal};
use crate::wire::{json_numbers, push_json_numbers};
use vstd::prelude::*;
use vstd::string::*;

verus! {

pub const URL: &'static str = "https://apis.roblox.com/user-blocking-api/v1";

#[derive(Clone, Debug, PartialEq, Eq)]
pub struct UserBlockStatus {
    pub id: u64,
    pub is_blocked: bool,
    pub is_blocking_viewer: bool,
}

/// Asks whether a user is blocked.
pub fn is_blocked(client: &Client, id: u64) -> (r: Request)
    ensures
        r@.method == Method::Get,
        r@.url == URL@ + "/users/"@ + decimal(id as nat) + "/is-blocked"@,
        r@.query == Seq::<HeaderView>::empty(),
        r@.headers == client@.default_headers(),
        r@.body == BodyView::Empty,
{
    let mut url = String::from_str(URL);
    url.append("/users/");
    push_decimal(&mut url, id as u64);
    url.append("/is-blocked");
    let query: Vec<Header> = Vec::new();
    assert(headers_view(query@) =~= Seq::<HeaderView>::empty());
    client.request_with(Method::Get, url, query, Body::Empty)
}

/// Asks, for each of the given users, whether that user and the requester
/// block each other.
pub fn batch_check_reciprocal_block(
    client: &Client,
    requester_id: u64,
    ids: &[u64],
) -> (r: Request)
    ensures
        r@.method == Method::Post,
        r@.url == URL@ + "/users/batch-check-reciprocal-block"@,
        r@.query == Seq::<HeaderView>::empty(),
        r@.headers == client@.default_headers(),
        r@.body == BodyView::Json(
            "{\"requesterUserId\":"@
                + decimal(requester_id as nat)
                + ",\"userIds\":"@
                + json_numbers(ids@)
                + "}"@,
        ),
{
    let mut url = String::from_str(URL);
    url.append("/users/batch-check-reciprocal-block");
    let mut text = String::from_str("{\"requesterUserId\":");
    push_decimal(&mut text, requester_id as u64);
    text.append(",\"userIds\":");
    push_json_numbers(&mut text, ids);
    text.append("}");
    let query: Vec<Header> = Vec::new();
    assert(headers_view(query@) =~= Seq::<HeaderView>::empty());
    client.request_with(Method::Post, url, query, Body::Json(text))
}

} // verus!
