use crate::client::{Body, BodyView, Client, Header, HeaderView, Method, Request, headers_view};
use crate::text::{decimal, push_decimal};
use crate::wire::{join_decimal, limit_or, limit_text, prefixed, push_decimal_list, push_prefixed};
use crate::{AssetTypeId, DateTime, Paging};
use vstd::prelude::*;
use vstd::string::*;

verus! {

pub const URL: &'static str = "https://apis.roblox.com/toolbox-service/v1";

#[derive(Clone, Debug, PartialEq, Eq)]
pub struct CreationObject {
    pub id: u64,
    pub name: String,
}

#[derive(Clone, Debug, PartialEq, Eq)]
pub struct Creations {
    pub results: u16,
    pub filtered_keyword: String,
    pub objects: Vec<CreationObject>,
}

#[derive(Clone, Debug, PartialEq, Eq)]
pub struct ItemDetailAsset {
    pub id: u64,
    pub name: String,
    pub description: String,
    pub type_id: u32,
    pub duration: u32,
    pub visibility: u32,
    pub is_endorsed: bool,
    pub has_scripts: bool,
    pub is_asset_hash_approved: bool,
    pub created: DateTime,
    pub updated: DateTime,
    pub genres: Vec<String>,
}

#[derive(Clone, Debug, PartialEq, Eq)]
pub struct ItemDetailCreator {
    pub id: u64,
    pub name: String,
    pub kind: u64,
    pub is_verified: bool,
}

#[derive(Clone, Debug, PartialEq, Eq)]
pub struct FiatProductPriceQuantity {
    pub significand: u32,
    pub exponent: u32,
}

#[derive(Clone, Debug, PartialEq, Eq)]
pub struct FiatProductPrice {
    pub currency_code: String,
    pub quantity: FiatProductPriceQuantity,
}

#[derive(Clone, Debug, PartialEq, Eq)]
pub struct FiatProduct {
    pub price: FiatProductPrice,
    pub published: bool,
    pub purchasable: bool,
}

/// Asks for what the toolbox knows of several assets.
pub fn item_details(client: &Client, ids: &[u64]) -> (r: Request)
    ensures
        r@.method == Method::Get,
        r@.url == URL@ + "/items/details?assetIds="@ + join_decimal(ids@, ","@),
        r@.query == Seq::<HeaderView>::empty(),
        r@.headers == client@.default_headers(),
        r@.body == BodyView::Empty,
{
    let mut url = String::from_str(URL);
    url.append("/items/details?assetIds=");
    push_decimal_list(&mut url, ids, ",");
    let query: Vec<Header> = Vec::new();
    assert(headers_view(query@) =~= Seq::<HeaderView>::empty());
    client.request_with(Method::Get, url, query, Body::Empty)
}

/// Asks for the assets of one type that a user made, one page of them.
pub fn creations(
    client: &Client,
    id: u64,
    asset_type: AssetTypeId,
    paging: Paging<'_>,
) -> (r: Request)
    ensures
        r@.method == Method::Get,
        r@.url == URL@
            + "/creations/user/"@
            + decimal(id as nat)
            + "/"@
            + decimal(asset_type.id_spec() as nat)
            + "?limit="@
            + limit_text(paging.limit, 30)
            + prefixed("&cursor="@, paging.cursor),
        r@.query == Seq::<HeaderView>::empty(),
        r@.headers == client@.default_headers(),
        r@.body == BodyView::Empty,
{
    let mut url = String::from_str(URL);
    url.append("/creations/user/");
    push_decimal(&mut url, id as u64);
    url.append("/");
    push_decimal(&mut url, asset_type.id() as u64);
    url.append("?limit=");
    push_decimal(&mut url, limit_or(paging.limit, 30) as u64);
    push_prefixed(&mut url, "&cursor=", paging.cursor);
    let query: Vec<Header> = Vec::new();
    assert(headers_view(query@) =~= Seq::<HeaderView>::empty());
    client.request_with(Method::Get, url, query, Body::Empty)
}

} // verus!
