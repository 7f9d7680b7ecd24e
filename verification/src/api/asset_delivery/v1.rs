use crate::client::{Body, BodyView, Client, Header, HeaderView, Method, Request, headers_view};
use crate::text::{decimal, decimal_string, push_decimal};
use vstd::prelude::*;
use vstd::string::*;

verus! {

pub const URL: &'static str = "https://assetdelivery.roblox.com/v1";

pub const SECONDARY_URL: &'static str = "https://apis.roblox.com/asset-delivery-api/v1";

#[derive(Clone, Debug)]
pub enum PermissionContext {
    IgnoreUniverse,
}

/// Asks for the bytes of an asset.
pub fn asset(client: &Client, id: u64) -> (r: Request)
    ensures
        r@.method == Method::Get,
        r@.url == URL@ + "/asset?id="@ + decimal(id as nat),
        r@.query == seq![
            HeaderView { name: "id"@, value: decimal(id as nat) },
        ],
        r@.headers == client@.default_headers(),
        r@.body == BodyView::Empty,
{
    let mut url = String::from_str(URL);
    url.append("/asset?id=");
    push_decimal(&mut url, id as u64);
    let id_text = decimal_string(id as u64);
    let mut query: Vec<Header> = Vec::new();
    query.push(Header::new("id", id_text.as_str()));
    assert(headers_view(query@) =~= seq![
        HeaderView { name: "id"@, value: decimal(id as nat) },
    ]);
    client.request_with(Method::Get, url, query, Body::Empty)
}

} // verus!
