use crate::challenge::bool_text;
use crate::client::{Body, BodyView, Client, Header, HeaderView, Method, Request, headers_view};
use crate::text::{decimal, decimal_string, push_decimal};
use crate::wire::{
    bool_name, join_decimal, limit_or, limit_text, order_or_default, order_text,
    push_decimal_list, text_or,
};
use crate::{DateTime, Paging};
use vstd::prelude::*;
use vstd::string::*;

verus! {

pub const URL: &'static str = "https://games.roblox.com/v1";

#[derive(Clone, Debug, PartialEq, Eq)]
pub struct PlaceDetails {
    pub id: u64,
    pub name: String,
    pub description: String,
    pub source_name: String,
    pub source_description: String,
    pub universe_id: u64,
    pub universe_root_place_id: u64,
    pub url: String,
    pub image_token: String,
    pub reason_prohibited: String,
    pub builder: String,
    pub builder_id: u64,
    pub price: u64,
    pub is_playable: bool,
    pub is_verified: bool,
}

#[derive(Clone, Debug, PartialEq, Eq)]
pub struct PrivateServerInfoGameRootPlace {
    pub id: u64,
    pub name: String,
}

#[derive(Clone, Debug, PartialEq, Eq)]
pub struct PrivateServerInfoGame {
    pub id: u64,
    pub name: String,
    pub root_place: PrivateServerInfoGameRootPlace,
}

#[derive(Clone, Debug, PartialEq, Eq)]
pub struct PrivateServerInfoSubscription {
    pub price: u64,
    pub active: bool,
    pub expired: bool,
    pub can_renew: bool,
    pub has_price_changed: bool,
    pub has_recurring_profile: bool,
    pub has_insufficient_funds: bool,
    pub expiration_date: DateTime,
}

#[derive(Clone, Debug, PartialEq, Eq)]
pub struct PrivateServerInfoPermissions {
    pub enemy_clan_id: Option<u64>,
    pub clan_allowed: bool,
    pub friends_allowed: bool,
}

#[derive(Clone, Debug, PartialEq, Eq)]
pub struct PrivateServerInfoVoiceSettings {
    pub enabled: bool,
}

#[derive(Clone, Debug, PartialEq, Eq)]
pub struct PrivateServerInfo {
    pub id: u64,
    pub name: String,
    pub active: bool,
    pub link_url: String,
    pub join_code: String,
    pub game: PrivateServerInfoGame,
    pub subscription: PrivateServerInfoSubscription,
    pub permissions: PrivateServerInfoPermissions,
    pub voice_settings: PrivateServerInfoVoiceSettings,
}

#[derive(Clone, Debug, PartialEq, Eq)]
pub struct PrivateServerOwner {
    pub id: u64,
    pub name: String,
    pub display_name: String,
    pub is_verified: bool,
}

#[derive(Clone, Debug, PartialEq, Eq)]
pub struct PrivateServer {
    pub name: String,
    pub id: u64,
    pub max_players: u16,
    pub owner: PrivateServerOwner,
    pub player_tokens: Vec<String>,
}

#[derive(Clone, Debug, PartialEq, Eq)]
pub struct PrivateServersResponse {
    pub servers: Vec<PrivateServer>,
    pub join_restricted: bool,
    pub next_cursor: Option<String>,
    pub previous_cursor: Option<String>,
}

#[derive(Clone, Debug, PartialEq, Eq)]
pub struct UniverseVotes {
    pub id: u64,
    pub likes: u32,
    pub dislikes: u32,
}

#[derive(Clone, Debug, PartialEq, Eq)]
pub struct UniverseGamepass {
    pub id: u64,
    pub name: String,
    pub display_name: String,
    pub price: Option<u64>,
    pub product_id: Option<u64>,
    pub owned: bool,
    pub seller_id: Option<u64>,
    pub seller_name: String,
}

#[derive(Clone, Debug, PartialEq, Eq)]
pub struct UniverseGamepassesResponse {
    pub servers: Vec<UniverseGamepass>,
    pub next_cursor: Option<String>,
    pub previous_cursor: Option<String>,
}

/// Asks for what is known of several places.
pub fn batch_place_details(client: &Client, ids: &[u64]) -> (r: Request)
    ensures
        r@.method == Method::Get,
        r@.url == URL@ + "/games/multiget-place-details"@,
        r@.query == seq![
            HeaderView { name: "placeIds"@, value: join_decimal(ids@, ","@) },
        ],
        r@.headers == client@.default_headers(),
        r@.body == BodyView::Empty,
{
    let mut url = String::from_str(URL);
    url.append("/games/multiget-place-details");
    let mut place_ids = String::new();
    push_decimal_list(&mut place_ids, ids, ",");
    assert(place_ids@ =~= join_decimal(ids@, ","@));
    let mut query: Vec<Header> = Vec::new();
    query.push(Header::new("placeIds", place_ids.as_str()));
    assert(headers_view(query@) =~= seq![
        HeaderView { name: "placeIds"@, value: join_decimal(ids@, ","@) },
    ]);
    client.request_with(Method::Get, url, query, Body::Empty)
}

/// Asks for the servers of a place, one page of them.
pub fn servers(
    client: &Client,
    id: u64,
    server_kind: u8,
    exclude_full_games: bool,
    paging: Paging<'_>,
) -> (r: Request)
    ensures
        r@.method == Method::Get,
        r@.url == URL@
            + "/games/"@
            + decimal(id as nat)
            + "/servers/"@
            + decimal(server_kind as nat),
        r@.query == seq![
            HeaderView { name: "excludeFullGames"@, value: bool_text(exclude_full_games) },
            HeaderView { name: "limit"@, value: limit_text(paging.limit, 10) },
            HeaderView { name: "sortOrder"@, value: order_text(paging.order) },
            HeaderView { name: "cursor"@, value: text_or(paging.cursor, ""@) },
        ],
        r@.headers == client@.default_headers(),
        r@.body == BodyView::Empty,
{
    let mut url = String::from_str(URL);
    url.append("/games/");
    push_decimal(&mut url, id as u64);
    url.append("/servers/");
    push_decimal(&mut url, server_kind as u64);
    let limit = decimal_string(limit_or(paging.limit, 10) as u64);
    let cursor = match paging.cursor {
        Some(text) => text,
        None => "",
    };
    let mut query: Vec<Header> = Vec::new();
    query.push(Header::new("excludeFullGames", bool_name(exclude_full_games)));
    query.push(Header::new("limit", limit.as_str()));
    query.push(Header::new("sortOrder", order_or_default(paging.order).name()));
    query.push(Header::new("cursor", cursor));
    assert(headers_view(query@) =~= seq![
        HeaderView { name: "excludeFullGames"@, value: bool_text(exclude_full_games) },
        HeaderView { name: "limit"@, value: limit_text(paging.limit, 10) },
        HeaderView { name: "sortOrder"@, value: order_text(paging.order) },
        HeaderView { name: "cursor"@, value: text_or(paging.cursor, ""@) },
    ]);
    client.request_with(Method::Get, url, query, Body::Empty)
}

/// Asks for the private servers of a place, one page of them.
pub fn private_servers(
    client: &Client,
    id: u64,
    exclude_friend_servers: bool,
    paging: Paging<'_>,
) -> (r: Request)
    ensures
        r@.method == Method::Get,
        r@.url == URL@ + "/games/"@ + decimal(id as nat) + "/private-servers"@,
        r@.query == seq![
            HeaderView { name: "excludeFriendServers"@, value: bool_text(exclude_friend_servers) },
            HeaderView { name: "limit"@, value: limit_text(paging.limit, 10) },
            HeaderView { name: "sortOrder"@, value: order_text(paging.order) },
            HeaderView { name: "cursor"@, value: text_or(paging.cursor, ""@) },
        ],
        r@.headers == client@.default_headers(),
        r@.body == BodyView::Empty,
{
    let mut url = String::from_str(URL);
    url.append("/games/");
    push_decimal(&mut url, id as u64);
    url.append("/private-servers");
    let limit = decimal_string(limit_or(paging.limit, 10) as u64);
    let cursor = match paging.cursor {
        Some(text) => text,
        None => "",
    };
    let mut query: Vec<Header> = Vec::new();
    query.push(Header::new("excludeFriendServers", bool_name(exclude_friend_servers)));
    query.push(Header::new("limit", limit.as_str()));
    query.push(Header::new("sortOrder", order_or_default(paging.order).name()));
    query.push(Header::new("cursor", cursor));
    assert(headers_view(query@) =~= seq![
        HeaderView { name: "excludeFriendServers"@, value: bool_text(exclude_friend_servers) },
        HeaderView { name: "limit"@, value: limit_text(paging.limit, 10) },
        HeaderView { name: "sortOrder"@, value: order_text(paging.order) },
        HeaderView { name: "cursor"@, value: text_or(paging.cursor, ""@) },
    ]);
    client.request_with(Method::Get, url, query, Body::Empty)
}

/// Asks for what is known of a private server.
pub fn private_server_info(client: &Client, id: u64) -> (r: Request)
    ensures
        r@.method == Method::Get,
        r@.url == URL@ + "/vip-servers/"@ + decimal(id as nat),
        r@.query == Seq::<HeaderView>::empty(),
        r@.headers == client@.default_headers(),
        r@.body == BodyView::Empty,
{
    let mut url = String::from_str(URL);
    url.append("/vip-servers/");
    push_decimal(&mut url, id as u64);
    let query: Vec<Header> = Vec::new();
    assert(headers_view(query@) =~= Seq::<HeaderView>::empty());
    client.request_with(Method::Get, url, query, Body::Empty)
}

/// Asks how many users marked a universe as a favourite.
pub fn universe_favorite_count(client: &Client, id: u64) -> (r: Request)
    ensures
        r@.method == Method::Get,
        r@.url == URL@ + "/games/"@ + decimal(id as nat) + "/favorites/count"@,
        r@.query == Seq::<HeaderView>::empty(),
        r@.headers == client@.default_headers(),
        r@.body == BodyView::Empty,
{
    let mut url = String::from_str(URL);
    url.append("/games/");
    push_decimal(&mut url, id as u64);
    url.append("/favorites/count");
    let query: Vec<Header> = Vec::new();
    assert(headers_view(query@) =~= Seq::<HeaderView>::empty());
    client.request_with(Method::Get, url, query, Body::Empty)
}

/// Asks for the votes on several universes.
pub fn universe_votes(client: &Client, ids: &[u64]) -> (r: Request)
    ensures
        r@.method == Method::Get,
        r@.url == URL@ + "/games/votes"@,
        r@.query == seq![
            HeaderView { name: "universeIds"@, value: join_decimal(ids@, ","@) },
        ],
        r@.headers == client@.default_headers(),
        r@.body == BodyView::Empty,
{
    let mut url = String::from_str(URL);
    url.append("/games/votes");
    let mut universe_ids = String::new();
    push_decimal_list(&mut universe_ids, ids, ",");
    assert(universe_ids@ =~= join_decimal(ids@, ","@));
    let mut query: Vec<Header> = Vec::new();
    query.push(Header::new("universeIds", universe_ids.as_str()));
    assert(headers_view(query@) =~= seq![
        HeaderView { name: "universeIds"@, value: join_decimal(ids@, ","@) },
    ]);
    client.request_with(Method::Get, url, query, Body::Empty)
}

/// Asks for the game passes of a universe, one page of them.
pub fn universe_gamepasses(client: &Client, id: u64, paging: Paging<'_>) -> (r: Request)
    ensures
        r@.method == Method::Get,
        r@.url == URL@ + "/games/"@ + decimal(id as nat) + "/game-passes"@,
        r@.query == seq![
            HeaderView { name: "limit"@, value: limit_text(paging.limit, 10) },
            HeaderView { name: "sortOrder"@, value: order_text(paging.order) },
            HeaderView { name: "cursor"@, value: text_or(paging.cursor, ""@) },
        ],
        r@.headers == client@.default_headers(),
        r@.body == BodyView::Empty,
{
    let mut url = String::from_str(URL);
    url.append("/games/");
    push_decimal(&mut url, id as u64);
    url.append("/game-passes");
    let limit = decimal_string(limit_or(paging.limit, 10) as u64);
    let cursor = match paging.cursor {
        Some(text) => text,
        None => "",
    };
    let mut query: Vec<Header> = Vec::new();
    query.push(Header::new("limit", limit.as_str()));
    query.push(Header::new("sortOrder", order_or_default(paging.order).name()));
    query.push(Header::new("cursor", cursor));
    assert(headers_view(query@) =~= seq![
        HeaderView { name: "limit"@, value: limit_text(paging.limit, 10) },
        HeaderView { name: "sortOrder"@, value: order_text(paging.order) },
        HeaderView { name: "cursor"@, value: text_or(paging.cursor, ""@) },
    ]);
    client.request_with(Method::Get, url, query, Body::Empty)
}

} // verus!
