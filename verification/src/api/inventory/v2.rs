use crate::client::{Body, BodyView, Client, Header, HeaderView, Method, Request, headers_view};
use crate::text::{decimal, decimal_string, push_decimal};
use crate::wire::{limit_or, limit_text, order_or_default, order_text, text_or};
use crate::{AssetTypeId, DateTime, Paging};
use vstd::prelude::*;
use vstd::string::*;

verus! {

pub const URL: &'static str = "https://inventory.roblox.com/v2";

#[derive(Clone, Debug)]
pub struct FromOwnerAssetOwner {
    pub id: u64,
    pub kind: u64,
    pub name: String,
}

#[derive(Clone, Debug)]
pub struct FromOwnerAssetInfo {
    pub id: u64,
    pub serial: u64,
    pub collectible_instance_id: Option<String>,
    pub owner: UserOwnedAssetOwner,
    pub created: DateTime,
    pub updated: DateTime,
}

#[derive(Clone, Debug)]
pub struct UserOwnedAssetOwner {
    pub id: u64,
    pub name: String,
    pub premium_membership_type: String,
}

#[derive(Clone, Debug)]
pub struct UserOwnedAssetInfo {
    pub id: u64,
    pub instance_id: u64,
    pub name: String,
    pub owner: UserOwnedAssetOwner,
    pub collectible_id: Option<String>,
    pub collectible_instance_id: Option<String>,
    pub serial: Option<u64>,
    pub created: DateTime,
    pub updated: DateTime,
}

#[derive(Clone, Debug)]
pub struct UserOwnedAssets {
    pub next_cursor: Option<String>,
    pub previous_cursor: Option<String>,
    pub assets: Vec<UserOwnedAssetInfo>,
}

#[derive(Clone, Debug)]
pub struct AssetOwners {
    pub next_cursor: String,
    pub previous_cursor: String,
    pub assets: Vec<FromOwnerAssetInfo>,
}

/// Asks for the owners of an asset, one page of them.
pub fn asset_owners(client: &Client, id: u64, paging: Paging<'_>) -> (r: Request)
    ensures
        r@.method == Method::Get,
        r@.url == URL@ + "/assets/"@ + decimal(id as nat) + "/owners"@,
        r@.query == seq![
            HeaderView { name: "limit"@, value: limit_text(paging.limit, 10) },
            HeaderView { name: "sortOrder"@, value: order_text(paging.order) },
            HeaderView { name: "cursor"@, value: text_or(paging.cursor, ""@) },
        ],
        r@.headers == client@.default_headers(),
        r@.body == BodyView::Empty,
{
    let mut url = String::from_str(URL);
    url.append("/assets/");
    push_decimal(&mut url, id as u64);
    url.append("/owners");
    let limit = decimal_string(limit_or(paging.limit, 10) as u64);
    let cursor = match paging.cursor {
        Some(text) => text,
        None => "",
    };
    let mut query: Vec<Header> = Vec::new();
    query.push(Header::new("limit", limit.as_str()));
    query.push(Header::new("sortOrder", order_or_default(paging.order).name()));
    query.push(Header::new("cursor", cursor));
    assert(headers_view(query@) =~= seq![
        HeaderView { name: "limit"@, value: limit_text(paging.limit, 10) },
        HeaderView { name: "sortOrder"@, value: order_text(paging.order) },
        HeaderView { name: "cursor"@, value: text_or(paging.cursor, ""@) },
    ]);
    client.request_with(Method::Get, url, query, Body::Empty)
}

/// Asks for the assets of one type that a user owns, one page of them.
pub fn user_owned_assets(
    client: &Client,
    user_id: u64,
    asset_type_id: AssetTypeId,
    paging: Paging<'_>,
) -> (r: Request)
    ensures
        r@.method == Method::Get,
        r@.url == URL@
            + "/users/"@
            + decimal(user_id as nat)
            + "/inventory/"@
            + decimal(asset_type_id.id_spec() as nat),
        r@.query == seq![
            HeaderView { name: "limit"@, value: limit_text(paging.limit, 10) },
            HeaderView { name: "sortOrder"@, value: order_text(paging.order) },
            HeaderView { name: "cursor"@, value: text_or(paging.cursor, ""@) },
        ],
        r@.headers == client@.default_headers(),
        r@.body == BodyView::Empty,
{
    let mut url = String::from_str(URL);
    url.append("/users/");
    push_decimal(&mut url, user_id as u64);
    url.append("/inventory/");
    push_decimal(&mut url, asset_type_id.id() as u64);
    let limit = decimal_string(limit_or(paging.limit, 10) as u64);
    let cursor = match paging.cursor {
        Some(text) => text,
        None => "",
    };
    let mut query: Vec<Header> = Vec::new();
    query.push(Header::new("limit", limit.as_str()));
    query.push(Header::new("sortOrder", order_or_default(paging.order).name()));
    query.push(Header::new("cursor", cursor));
    assert(headers_view(query@) =~= seq![
        HeaderView { name: "limit"@, value: limit_text(paging.limit, 10) },
        HeaderView { name: "sortOrder"@, value: order_text(paging.order) },
        HeaderView { name: "cursor"@, value: text_or(paging.cursor, ""@) },
    ]);
    client.request_with(Method::Get, url, query, Body::Empty)
}

} // verus!
