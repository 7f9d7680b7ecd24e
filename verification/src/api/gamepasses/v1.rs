use crate::client::{Body, BodyView, Client, Header, HeaderView, Method, Request, headers_view};
use crate::text::{decimal, decimal_string, push_decimal};
use crate::wire::{limit_or, limit_text, text_or};
use crate::{DateTime, Paging};
use vstd::prelude::*;
use vstd::string::*;

verus! {

pub const URL: &'static str = "https://apis.roblox.com/game-passes/v1";

#[derive(Copy, Clone, Debug, PartialEq, Eq, Structural)]
pub enum CreatorType {
    User,
    Group,
}

#[derive(Clone, Debug, PartialEq, Eq)]
pub struct Creator {
    pub id: u64,
    pub name: String,
    pub kind: CreatorType,
    pub target_id: u64,
}

#[derive(Clone, Debug, PartialEq, Eq)]
pub struct GamepassCreator {
    pub id: u64,
    pub name: String,
    pub kind: CreatorType,
}

#[derive(Clone, Debug, PartialEq, Eq)]
pub struct Gamepass {
    pub id: u64,
    pub name: String,
    pub description: String,
    pub icon_image_id: Option<u64>,
    pub price: Option<u64>,
    pub on_sale: bool,
    pub creator: GamepassCreator,
}

#[derive(Clone, Debug, PartialEq, Eq)]
pub struct PriceInformation {
    pub price_in_robux: u64,
    pub enabled_features: Vec<String>,
}

#[derive(Clone, Debug, PartialEq, Eq)]
pub struct GamepassDetails {
    pub id: u64,
    pub name: String,
    pub description: String,
    pub place_id: u64,
    pub icon_image_id: u64,
    pub created: DateTime,
    pub updated: DateTime,
    pub on_sale: bool,
    pub price_information: Option<PriceInformation>,
}

#[derive(Clone, Debug, PartialEq, Eq)]
pub struct GamepassProductInformation {
    pub id: u64,
    pub asset_id: u64,
    pub product_id: u64,
    pub name: String,
    pub description: String,
    pub product_type: String,
    pub asset_type_id: u8,
    pub creator: Creator,
    pub icon_image_id: u64,
    pub created: DateTime,
    pub updated: DateTime,
    pub robux_price: Option<u64>,
    pub tickets_price: Option<u64>,
    pub sales: u64,
    pub remaining: Option<u64>,
    pub on_sale: bool,
    pub is_new: bool,
    pub is_public_domain: bool,
    pub is_limited: bool,
    pub is_limited_unique: bool,
    pub minimum_membership_level: u8,
}

/// Asks for what is known of a game pass.
pub fn details(client: &Client, id: u64) -> (r: Request)
    ensures
        r@.method == Method::Get,
        r@.url == URL@ + "/game-passes/"@ + decimal(id as nat) + "/details"@,
        r@.query == Seq::<HeaderView>::empty(),
        r@.headers == client@.default_headers(),
        r@.body == BodyView::Empty,
{
    let mut url = String::from_str(URL);
    url.append("/game-passes/");
    push_decimal(&mut url, id as u64);
    url.append("/details");
    let query: Vec<Header> = Vec::new();
    assert(headers_view(query@) =~= Seq::<HeaderView>::empty());
    client.request_with(Method::Get, url, query, Body::Empty)
}

/// Asks for what a game pass costs.
pub fn product_information(client: &Client, id: u64) -> (r: Request)
    ensures
        r@.method == Method::Get,
        r@.url == URL@ + "/game-passes/"@ + decimal(id as nat) + "/product-info"@,
        r@.query == Seq::<HeaderView>::empty(),
        r@.headers == client@.default_headers(),
        r@.body == BodyView::Empty,
{
    let mut url = String::from_str(URL);
    url.append("/game-passes/");
    push_decimal(&mut url, id as u64);
    url.append("/product-info");
    let query: Vec<Header> = Vec::new();
    assert(headers_view(query@) =~= Seq::<HeaderView>::empty());
    client.request_with(Method::Get, url, query, Body::Empty)
}

/// Asks for the game passes of a user, one page of them.
pub fn user_gamepasses(client: &Client, id: u64, paging: Paging<'_>) -> (r: Request)
    ensures
        r@.method == Method::Get,
        r@.url == URL@ + "/users/"@ + decimal(id as nat) + "/game-passes"@,
        r@.query == seq![
            HeaderView { name: "count"@, value: limit_text(paging.limit, 100) },
            HeaderView { name: "exclusiveStartId"@, value: text_or(paging.cursor, ""@) },
        ],
        r@.headers == client@.default_headers(),
        r@.body == BodyView::Empty,
{
    let mut url = String::from_str(URL);
    url.append("/users/");
    push_decimal(&mut url, id as u64);
    url.append("/game-passes");
    let count = decimal_string(limit_or(paging.limit, 100) as u64);
    let exclusive_start_id = match paging.cursor {
        Some(text) => text,
        None => "",
    };
    let mut query: Vec<Header> = Vec::new();
    query.push(Header::new("count", count.as_str()));
    query.push(Header::new("exclusiveStartId", exclusive_start_id));
    assert(headers_view(query@) =~= seq![
        HeaderView { name: "count"@, value: limit_text(paging.limit, 100) },
        HeaderView { name: "exclusiveStartId"@, value: text_or(paging.cursor, ""@) },
    ]);
    client.request_with(Method::Get, url, query, Body::Empty)
}

} // verus!
