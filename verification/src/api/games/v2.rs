use crate::challenge::bool_text;
use crate::client::{Body, BodyView, Client, Header, HeaderView, Method, Request, headers_view};
use crate::text::{decimal, decimal_string, push_decimal};
use crate::wire::{bool_name, limit_or, limit_text, order_or_default, order_text, text_or};
use crate::{AssetTypeId, DateTime, Paging};
use vstd::prelude::*;
use vstd::string::*;

verus! {

pub const URL: &'static str = "https://games.roblox.com/v2";

#[derive(Clone, Debug, PartialEq, Eq)]
pub struct UniverseMedia {
    pub asset_type: AssetTypeId,
    pub asset_type_id: u8,
    pub approved: bool,
    pub alt_text: Option<String>,
    pub image_id: Option<u64>,
    pub video_id: Option<String>,
    pub video_hash: Option<String>,
    pub video_title: Option<String>,
}

#[derive(Clone, Debug, PartialEq, Eq)]
pub struct GameCreator {
    pub id: u64,
    pub kind: String,
    pub name: Option<String>,
}

#[derive(Clone, Debug, PartialEq, Eq)]
pub struct GameRootPlace {
    pub id: u64,
    pub kind: String,
}

#[derive(Clone, Debug, PartialEq, Eq)]
pub struct Game {
    pub id: u64,
    pub name: String,
    pub description: Option<String>,
    pub creator: GameCreator,
    pub root_place: GameRootPlace,
    pub created: DateTime,
    pub updated: DateTime,
    pub price: Option<u64>,
    pub place_visits: u64,
}

#[derive(Clone, Debug, PartialEq, Eq)]
pub struct GamesResponse {
    pub games: Vec<Game>,
    pub next_cursor: Option<String>,
    pub previous_cursor: Option<String>,
}

/// Asks for the pictures and films of a universe.
pub fn universe_media(client: &Client, id: u64, all_experiences: bool) -> (r: Request)
    ensures
        r@.method == Method::Get,
        r@.url == URL@ + "/games/"@ + decimal(id as nat) + "/media"@,
        r@.query == seq![
            HeaderView {
                name: "fetchAllExperienceRelatedMedia"@,
                value: bool_text(all_experiences),
            },
        ],
        r@.headers == client@.default_headers(),
        r@.body == BodyView::Empty,
{
    let mut url = String::from_str(URL);
    url.append("/games/");
    push_decimal(&mut url, id as u64);
    url.append("/media");
    let mut query: Vec<Header> = Vec::new();
    query.push(Header::new("fetchAllExperienceRelatedMedia", bool_name(all_experiences)));
    assert(headers_view(query@) =~= seq![
        HeaderView { name: "fetchAllExperienceRelatedMedia"@, value: bool_text(all_experiences) },
    ]);
    client.request_with(Method::Get, url, query, Body::Empty)
}

/// Asks for the games of a group, one page of them.
pub fn group_games(
    client: &Client,
    id: u64,
    access_filter: u8,
    paging: Paging<'_>,
) -> (r: Request)
    ensures
        r@.method == Method::Get,
        r@.url == URL@ + "/groups/"@ + decimal(id as nat) + "/games"@,
        r@.query == seq![
            HeaderView { name: "accessFilter"@, value: decimal(access_filter as nat) },
            HeaderView { name: "limit"@, value: limit_text(paging.limit, 10) },
            HeaderView { name: "sortOrder"@, value: order_text(paging.order) },
            HeaderView { name: "cursor"@, value: text_or(paging.cursor, ""@) },
        ],
        r@.headers == client@.default_headers(),
        r@.body == BodyView::Empty,
{
    let mut url = String::from_str(URL);
    url.append("/groups/");
    push_decimal(&mut url, id as u64);
    url.append("/games");
    let access_filter_text = decimal_string(access_filter as u64);
    let limit = decimal_string(limit_or(paging.limit, 10) as u64);
    let cursor = match paging.cursor {
        Some(text) => text,
        None => "",
    };
    let mut query: Vec<Header> = Vec::new();
    query.push(Header::new("accessFilter", access_filter_text.as_str()));
    query.push(Header::new("limit", limit.as_str()));
    query.push(Header::new("sortOrder", order_or_default(paging.order).name()));
    query.push(Header::new("cursor", cursor));
    assert(headers_view(query@) =~= seq![
        HeaderView { name: "accessFilter"@, value: decimal(access_filter as nat) },
        HeaderView { name: "limit"@, value: limit_text(paging.limit, 10) },
        HeaderView { name: "sortOrder"@, value: order_text(paging.order) },
        HeaderView { name: "cursor"@, value: text_or(paging.cursor, ""@) },
    ]);
    client.request_with(Method::Get, url, query, Body::Empty)
}

/// Asks for the games of a group in the newer form, one page of them.
pub fn group_games_v2(
    client: &Client,
    id: u64,
    access_filter: u8,
    paging: Paging<'_>,
) -> (r: Request)
    ensures
        r@.method == Method::Get,
        r@.url == URL@ + "/groups/"@ + decimal(id as nat) + "/gamesV2"@,
        r@.query == seq![
            HeaderView { name: "accessFilter"@, value: decimal(access_filter as nat) },
            HeaderView { name: "limit"@, value: limit_text(paging.limit, 10) },
            HeaderView { name: "sortOrder"@, value: order_text(paging.order) },
            HeaderView { name: "cursor"@, value: text_or(paging.cursor, ""@) },
        ],
        r@.headers == client@.default_headers(),
        r@.body == BodyView::Empty,
{
    let mut url = String::from_str(URL);
    url.append("/groups/");
    push_decimal(&mut url, id as u64);
    url.append("/gamesV2");
    let access_filter_text = decimal_string(access_filter as u64);
    let limit = decimal_string(limit_or(paging.limit, 10) as u64);
    let cursor = match paging.cursor {
        Some(text) => text,
        None => "",
    };
    let mut query: Vec<Header> = Vec::new();
    query.push(Header::new("accessFilter", access_filter_text.as_str()));
    query.push(Header::new("limit", limit.as_str()));
    query.push(Header::new("sortOrder", order_or_default(paging.order).name()));
    query.push(Header::new("cursor", cursor));
    assert(headers_view(query@) =~= seq![
        HeaderView { name: "accessFilter"@, value: decimal(access_filter as nat) },
        HeaderView { name: "limit"@, value: limit_text(paging.limit, 10) },
        HeaderView { name: "sortOrder"@, value: order_text(paging.order) },
        HeaderView { name: "cursor"@, value: text_or(paging.cursor, ""@) },
    ]);
    client.request_with(Method::Get, url, query, Body::Empty)
}

/// Asks for the games of a user, one page of them.
pub fn user_games(
    client: &Client,
    id: u64,
    access_filter: u8,
    paging: Paging<'_>,
) -> (r: Request)
    ensures
        r@.method == Method::Get,
        r@.url == URL@ + "/users/"@ + decimal(id as nat) + "/games"@,
        r@.query == seq![
            HeaderView { name: "accessFilter"@, value: decimal(access_filter as nat) },
            HeaderView { name: "limit"@, value: limit_text(paging.limit, 10) },
            HeaderView { name: "sortOrder"@, value: order_text(paging.order) },
            HeaderView { name: "cursor"@, value: text_or(paging.cursor, ""@) },
        ],
        r@.headers == client@.default_headers(),
        r@.body == BodyView::Empty,
{
    let mut url = String::from_str(URL);
    url.append("/users/");
    push_decimal(&mut url, id as u64);
    url.append("/games");
    let access_filter_text = decimal_string(access_filter as u64);
    let limit = decimal_string(limit_or(paging.limit, 10) as u64);
    let cursor = match paging.cursor {
        Some(text) => text,
        None => "",
    };
    let mut query: Vec<Header> = Vec::new();
    query.push(Header::new("accessFilter", access_filter_text.as_str()));
    query.push(Header::new("limit", limit.as_str()));
    query.push(Header::new("sortOrder", order_or_default(paging.order).name()));
    query.push(Header::new("cursor", cursor));
    assert(headers_view(query@) =~= seq![
        HeaderView { name: "accessFilter"@, value: decimal(access_filter as nat) },
        HeaderView { name: "limit"@, value: limit_text(paging.limit, 10) },
        HeaderView { name: "sortOrder"@, value: order_text(paging.order) },
        HeaderView { name: "cursor"@, value: text_or(paging.cursor, ""@) },
    ]);
    client.request_with(Method::Get, url, query, Body::Empty)
}

/// Asks for the games that a user marked as favourites, one page of them.
pub fn user_favorited_games(
    client: &Client,
    id: u64,
    access_filter: u8,
    paging: Paging<'_>,
) -> (r: Request)
    ensures
        r@.method == Method::Get,
        r@.url == URL@ + "/users/"@ + decimal(id as nat) + "/favorite/games"@,
        r@.query == seq![
            HeaderView { name: "accessFilter"@, value: decimal(access_filter as nat) },
            HeaderView { name: "limit"@, value: limit_text(paging.limit, 10) },
            HeaderView { name: "sortOrder"@, value: order_text(paging.order) },
            HeaderView { name: "cursor"@, value: text_or(paging.cursor, ""@) },
        ],
        r@.headers == client@.default_headers(),
        r@.body == BodyView::Empty,
{
    let mut url = String::from_str(URL);
    url.append("/users/");
    push_decimal(&mut url, id as u64);
    url.append("/favorite/games");
    let access_filter_text = decimal_string(access_filter as u64);
    let limit = decimal_string(limit_or(paging.limit, 10) as u64);
    let cursor = match paging.cursor {
        Some(text) => text,
        None => "",
    };
    let mut query: Vec<Header> = Vec::new();
    query.push(Header::new("accessFilter", access_filter_text.as_str()));
    query.push(Header::new("limit", limit.as_str()));
    query.push(Header::new("sortOrder", order_or_default(paging.order).name()));
    query.push(Header::new("cursor", cursor));
    assert(headers_view(query@) =~= seq![
        HeaderView { name: "accessFilter"@, value: decimal(access_filter as nat) },
        HeaderView { name: "limit"@, value: limit_text(paging.limit, 10) },
        HeaderView { name: "sortOrder"@, value: order_text(paging.order) },
        HeaderView { name: "cursor"@, value: text_or(paging.cursor, ""@) },
    ]);
    client.request_with(Method::Get, url, query, Body::Empty)
}

} // verus!
