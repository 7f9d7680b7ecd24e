use crate::client::{Body, BodyView, Client, Header, HeaderView, Method, Request, headers_view};
use crate::text::{decimal, push_decimal};
use vstd::prelude::*;
use vstd::string::*;

verus! {

pub const URL: &'static str = "https://accountinformation.roblox.com/v1";

#[derive(Clone, Debug, PartialEq, Eq)]
pub struct RobloxBadge {
    pub id: u8,
    pub name: String,
    pub description: String,
    pub image_url: String,
}

/// Asks for the badges that the platform itself gave to a user.
pub fn roblox_badges(client: &Client, id: u64) -> (r: Request)
    ensures
        r@.method == Method::Get,
        r@.url == URL@ + "/users/"@ + decimal(id as nat) + "/roblox-badges"@,
        r@.query == Seq::<HeaderView>::empty(),
        r@.headers == client@.default_headers(),
        r@.body == BodyView::Empty,
{
    let mut url = String::from_str(URL);
    url.append("/users/");
    push_decimal(&mut url, id as u64);
    url.append("/roblox-badges");
    let query: Vec<Header> = Vec::new();
    assert(headers_view(query@) =~= Seq::<HeaderView>::empty());
    client.request_with(Method::Get, url, query, Body::Empty)
}

} // verus!
