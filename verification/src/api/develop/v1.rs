use crate::client::{Body, BodyView, Client, Header, HeaderView, Method, Request, headers_view};
use crate::text::{decimal, decimal_string, push_decimal};
use crate::wire::{
    join_decimal, limit_or, limit_text, order_or_default, order_text, push_decimal_list, text_or,
};
use crate::{DateTime, Paging};
use vstd::prelude::*;
use vstd::string::*;

verus! {

pub const URL: &'static str = "https://develop.roblox.com/v1";

#[derive(Clone, Debug, PartialEq, Eq)]
pub struct PublishedAssetVersion {
    pub id: u64,
    pub asset_id: u64,
    pub asset_version: u64,
    pub creator_id: u64,
    pub creator_type: String,
    pub created: DateTime,
    pub is_published: bool,
    pub is_current_published_version: bool,
}

#[derive(Clone, Debug, PartialEq, Eq)]
pub struct PublishedAssetVersions {
    pub assets: Vec<PublishedAssetVersion>,
    pub next_cursor: Option<String>,
    pub previous_cursor: Option<String>,
}

#[derive(Clone, Debug, PartialEq, Eq)]
pub struct AssetCreator {
    pub id: u64,
    pub kind: String,
    pub type_id: u32,
}

#[derive(Clone, Debug, PartialEq, Eq)]
pub struct Asset {
    pub id: u64,
    pub name: String,
    pub description: String,
    pub kind: String,
    pub type_id: u32,
    pub comments_enabled: bool,
    pub is_copying_allowed: bool,
    pub is_public_domain: bool,
    pub is_moderated: bool,
    pub is_archivable: bool,
    pub thumbnails_allowed: bool,
    pub is_versioning_enabled: bool,
    pub moderation_status: Option<String>,
    pub review_status: String,
    pub created: DateTime,
    pub updated: DateTime,
    pub genres: Vec<String>,
    pub creator: AssetCreator,
}

/// Asks for what is known of several assets.
pub fn assets(client: &Client, ids: &[u64]) -> (r: Request)
    ensures
        r@.method == Method::Get,
        r@.url == URL@ + "/assets?assetIds="@ + join_decimal(ids@, ","@),
        r@.query == Seq::<HeaderView>::empty(),
        r@.headers == client@.default_headers(),
        r@.body == BodyView::Empty,
{
    let mut url = String::from_str(URL);
    url.append("/assets?assetIds=");
    push_decimal_list(&mut url, ids, ",");
    let query: Vec<Header> = Vec::new();
    assert(headers_view(query@) =~= Seq::<HeaderView>::empty());
    client.request_with(Method::Get, url, query, Body::Empty)
}

/// Asks for the published versions of an asset, one page of them.
pub fn published_asset_versions(client: &Client, id: u64, paging: Paging<'_>) -> (r: Request)
    ensures
        r@.method == Method::Get,
        r@.url == URL@ + "/assets/"@ + decimal(id as nat) + "/published-versions"@,
        r@.query == seq![
            HeaderView { name: "limit"@, value: limit_text(paging.limit, 10) },
            HeaderView { name: "sortOrder"@, value: order_text(paging.order) },
            HeaderView { name: "cursor"@, value: text_or(paging.cursor, ""@) },
        ],
        r@.headers == client@.default_headers(),
        r@.body == BodyView::Empty,
{
    let mut url = String::from_str(URL);
    url.append("/assets/");
    push_decimal(&mut url, id as u64);
    url.append("/published-versions");
    let limit = decimal_string(limit_or(paging.limit, 10) as u64);
    let cursor = match paging.cursor {
        Some(text) => text,
        None => "",
    };
    let mut query: Vec<Header> = Vec::new();
    query.push(Header::new("limit", limit.as_str()));
    query.push(Header::new("sortOrder", order_or_default(paging.order).name()));
    query.push(Header::new("cursor", cursor));
    assert(headers_view(query@) =~= seq![
        HeaderView { name: "limit"@, value: limit_text(paging.limit, 10) },
        HeaderView { name: "sortOrder"@, value: order_text(paging.order) },
        HeaderView { name: "cursor"@, value: text_or(paging.cursor, ""@) },
    ]);
    client.request_with(Method::Get, url, query, Body::Empty)
}

/// Makes an earlier version of an asset the current one.
pub fn revert_asset_version(client: &Client, id: u64, version: u64) -> (r: Request)
    ensures
        r@.method == Method::Post,
        r@.url == URL@
            + "/assets/"@
            + decimal(id as nat)
            + "/revert-version?assetVersionNumber="@
            + decimal(version as nat),
        r@.query == Seq::<HeaderView>::empty(),
        r@.headers == client@.default_headers(),
        r@.body == BodyView::Empty,
{
    let mut url = String::from_str(URL);
    url.append("/assets/");
    push_decimal(&mut url, id as u64);
    url.append("/revert-version?assetVersionNumber=");
    push_decimal(&mut url, version as u64);
    let query: Vec<Header> = Vec::new();
    assert(headers_view(query@) =~= Seq::<HeaderView>::empty());
    client.request_with(Method::Post, url, query, Body::Empty)
}

} // verus!
