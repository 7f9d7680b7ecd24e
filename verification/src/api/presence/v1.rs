use crate::client::{Body, BodyView, Client, Header, HeaderView, Method, Request, headers_view};
use crate::wire::{json_numbers, push_json_numbers};
use vstd::prelude::*;
use vstd::string::*;

verus! {

pub const URL: &'static str = "https://presence.roblox.com/v1";

#[derive(Clone, Debug, PartialEq, Eq)]
pub struct UserPresence {
    pub id: u64,
    pub kind: u8,
    pub status: String,
    pub place_id: Option<u64>,
    pub root_place_id: Option<u64>,
    pub universe_id: Option<u64>,
    pub job_id: Option<String>,
}

/// Asks where each of the given users is.
pub fn presence(client: &Client, ids: &[u64]) -> (r: Request)
    ensures
        r@.method == Method::Post,
        r@.url == URL@ + "/presence/users"@,
        r@.query == Seq::<HeaderView>::empty(),
        r@.headers == client@.default_headers(),
        r@.body == BodyView::Json(
            "{\"userIds\":"@ + json_numbers(ids@) + "}"@,
        ),
{
    let mut url = String::from_str(URL);
    url.append("/presence/users");
    let mut text = String::from_str("{\"userIds\":");
    push_json_numbers(&mut text, ids);
    text.append("}");
    let query: Vec<Header> = Vec::new();
    assert(headers_view(query@) =~= Seq::<HeaderView>::empty());
    client.request_with(Method::Post, url, query, Body::Json(text))
}

} // verus!
