use crate::client::{Body, BodyView, Client, Header, HeaderView, Method, Request, headers_view};
use crate::text::{decimal, decimal_string, push_decimal};
use crate::wire::{
    join_decimal, json_numbers, limit_or, limit_text, push_decimal_list, push_json_numbers,
    text_or,
};
use crate::{DateTime, Paging};
use vstd::prelude::*;
use vstd::string::*;

verus! {

pub const URL: &'static str = "https://friends.roblox.com/v1";

#[derive(Clone, Debug, PartialEq, Eq)]
pub struct FollowingStatus {
    pub id: u64,
    pub is_following: bool,
    pub is_followed: bool,
}

#[derive(Clone, Debug, PartialEq, Eq)]
pub struct FriendStatus {
    pub id: u64,
    pub status: String,
}

#[derive(Copy, Clone, Debug, PartialEq, Eq, Structural)]
pub enum FriendRequestSourceType {
    InGame,
    UserProfile,
    PlayerSearch,
    FriendRecommendations,
}

#[derive(Clone, Debug, PartialEq, Eq)]
pub struct FriendRequester {
    pub id: u64,
    pub display_name: String,
    pub contact_name: Option<String>,
    pub source_universe_id: u64,
    pub origin_source_type: FriendRequestSourceType,
    pub sent_at: DateTime,
}

#[derive(Clone, Debug, PartialEq, Eq)]
pub struct FriendRequest {
    pub id: u64,
    pub mutual_friends_list: Vec<String>,
    pub requester: FriendRequester,
}

#[derive(Clone, Debug, PartialEq, Eq)]
pub struct FriendRequests {
    pub requests: Vec<FriendRequest>,
    pub next_cursor: Option<String>,
    pub previous_cursor: Option<String>,
}

#[derive(Clone, Debug, PartialEq, Eq)]
pub struct User {
    pub id: u64,
    pub is_verified: Option<bool>,
}

#[derive(Clone, Debug, PartialEq, Eq)]
pub struct Followers {
    pub users: Vec<User>,
    pub next_cursor: Option<String>,
    pub previous_cursor: Option<String>,
}

#[derive(Clone, Debug, PartialEq, Eq)]
pub struct FriendsFind {
    pub users: Vec<User>,
    pub next_cursor: Option<String>,
    pub previous_cursor: Option<String>,
    pub has_more: Option<bool>,
}

#[derive(Clone, Debug, PartialEq, Eq)]
pub struct UserPresence {
    pub kind: String,
    pub location_kind: String,
    pub status: String,
    pub last_online: DateTime,
    pub place_id: Option<u64>,
    pub root_place_id: Option<u64>,
    pub universe_id: Option<u64>,
    pub job_id: Option<String>,
}

#[derive(Clone, Debug, PartialEq, Eq)]
pub struct FriendOnlineStatus {
    pub id: u64,
    pub presence: UserPresence,
}

/// Asks how many friend requests wait.
pub fn friend_requests_count(client: &Client) -> (r: Request)
    ensures
        r@.method == Method::Get,
        r@.url == URL@ + "/user/friend-requests/count"@,
        r@.query == Seq::<HeaderView>::empty(),
        r@.headers == client@.default_headers(),
        r@.body == BodyView::Empty,
{
    let mut url = String::from_str(URL);
    url.append("/user/friend-requests/count");
    let query: Vec<Header> = Vec::new();
    assert(headers_view(query@) =~= Seq::<HeaderView>::empty());
    client.request_with(Method::Get, url, query, Body::Empty)
}

/// Asks how many friend requests are new.
pub fn new_friend_requests_count(client: &Client) -> (r: Request)
    ensures
        r@.method == Method::Get,
        r@.url == URL@ + "/my/new-friend-requests/count"@,
        r@.query == Seq::<HeaderView>::empty(),
        r@.headers == client@.default_headers(),
        r@.body == BodyView::Empty,
{
    let mut url = String::from_str(URL);
    url.append("/my/new-friend-requests/count");
    let query: Vec<Header> = Vec::new();
    assert(headers_view(query@) =~= Seq::<HeaderView>::empty());
    client.request_with(Method::Get, url, query, Body::Empty)
}

/// Asks how many friends a user has.
pub fn user_friends_count(client: &Client, id: u64) -> (r: Request)
    ensures
        r@.method == Method::Get,
        r@.url == URL@ + "/users/"@ + decimal(id as nat) + "/friends/count"@,
        r@.query == Seq::<HeaderView>::empty(),
        r@.headers == client@.default_headers(),
        r@.body == BodyView::Empty,
{
    let mut url = String::from_str(URL);
    url.append("/users/");
    push_decimal(&mut url, id as u64);
    url.append("/friends/count");
    let query: Vec<Header> = Vec::new();
    assert(headers_view(query@) =~= Seq::<HeaderView>::empty());
    client.request_with(Method::Get, url, query, Body::Empty)
}

/// Asks how many users a user follows.
pub fn user_followings_count(client: &Client, id: u64) -> (r: Request)
    ensures
        r@.method == Method::Get,
        r@.url == URL@ + "/users/"@ + decimal(id as nat) + "/followings/count"@,
        r@.query == Seq::<HeaderView>::empty(),
        r@.headers == client@.default_headers(),
        r@.body == BodyView::Empty,
{
    let mut url = String::from_str(URL);
    url.append("/users/");
    push_decimal(&mut url, id as u64);
    url.append("/followings/count");
    let query: Vec<Header> = Vec::new();
    assert(headers_view(query@) =~= Seq::<HeaderView>::empty());
    client.request_with(Method::Get, url, query, Body::Empty)
}

/// Asks how many users follow a user.
pub fn user_followers_count(client: &Client, id: u64) -> (r: Request)
    ensures
        r@.method == Method::Get,
        r@.url == URL@ + "/users/"@ + decimal(id as nat) + "/followers/count"@,
        r@.query == Seq::<HeaderView>::empty(),
        r@.headers == client@.default_headers(),
        r@.body == BodyView::Empty,
{
    let mut url = String::from_str(URL);
    url.append("/users/");
    push_decimal(&mut url, id as u64);
    url.append("/followers/count");
    let query: Vec<Header> = Vec::new();
    assert(headers_view(query@) =~= Seq::<HeaderView>::empty());
    client.request_with(Method::Get, url, query, Body::Empty)
}

/// Asks which of the given users the user of the session follows.
pub fn following_status(client: &Client, ids: &[u64]) -> (r: Request)
    ensures
        r@.method == Method::Post,
        r@.url == URL@ + "/user/following-exists"@,
        r@.query == Seq::<HeaderView>::empty(),
        r@.headers == client@.default_headers(),
        r@.body == BodyView::Json(
            "{\"targetUserIds\":"@ + json_numbers(ids@) + "}"@,
        ),
{
    let mut url = String::from_str(URL);
    url.append("/user/following-exists");
    let mut text = String::from_str("{\"targetUserIds\":");
    push_json_numbers(&mut text, ids);
    text.append("}");
    let query: Vec<Header> = Vec::new();
    assert(headers_view(query@) =~= Seq::<HeaderView>::empty());
    client.request_with(Method::Post, url, query, Body::Json(text))
}

/// Asks for the friend requests that wait, one page of them.
pub fn friend_requests(client: &Client, paging: Paging<'_>) -> (r: Request)
    ensures
        r@.method == Method::Get,
        r@.url == URL@ + "/my/friends/requests"@,
        r@.query == seq![
            HeaderView { name: "cursor"@, value: text_or(paging.cursor, ""@) },
            HeaderView { name: "limit"@, value: limit_text(paging.limit, 18) },
        ],
        r@.headers == client@.default_headers(),
        r@.body == BodyView::Empty,
{
    let mut url = String::from_str(URL);
    url.append("/my/friends/requests");
    let cursor = match paging.cursor {
        Some(text) => text,
        None => "",
    };
    let limit = decimal_string(limit_or(paging.limit, 18) as u64);
    let mut query: Vec<Header> = Vec::new();
    query.push(Header::new("cursor", cursor));
    query.push(Header::new("limit", limit.as_str()));
    assert(headers_view(query@) =~= seq![
        HeaderView { name: "cursor"@, value: text_or(paging.cursor, ""@) },
        HeaderView { name: "limit"@, value: limit_text(paging.limit, 18) },
    ]);
    client.request_with(Method::Get, url, query, Body::Empty)
}

/// Asks for the users that follow a user.
pub fn user_followers(client: &Client, id: u64) -> (r: Request)
    ensures
        r@.method == Method::Get,
        r@.url == URL@ + "/users/"@ + decimal(id as nat) + "/followers"@,
        r@.query == Seq::<HeaderView>::empty(),
        r@.headers == client@.default_headers(),
        r@.body == BodyView::Empty,
{
    let mut url = String::from_str(URL);
    url.append("/users/");
    push_decimal(&mut url, id as u64);
    url.append("/followers");
    let query: Vec<Header> = Vec::new();
    assert(headers_view(query@) =~= Seq::<HeaderView>::empty());
    client.request_with(Method::Get, url, query, Body::Empty)
}

/// Asks for the users that a user follows.
pub fn user_followings(client: &Client, id: u64) -> (r: Request)
    ensures
        r@.method == Method::Get,
        r@.url == URL@ + "/users/"@ + decimal(id as nat) + "/followings"@,
        r@.query == Seq::<HeaderView>::empty(),
        r@.headers == client@.default_headers(),
        r@.body == BodyView::Empty,
{
    let mut url = String::from_str(URL);
    url.append("/users/");
    push_decimal(&mut url, id as u64);
    url.append("/followings");
    let query: Vec<Header> = Vec::new();
    assert(headers_view(query@) =~= Seq::<HeaderView>::empty());
    client.request_with(Method::Get, url, query, Body::Empty)
}

/// Asks which friends of a user are online.
pub fn user_friends_online(client: &Client, id: u64) -> (r: Request)
    ensures
        r@.method == Method::Get,
        r@.url == URL@ + "/users/"@ + decimal(id as nat) + "/friends/online"@,
        r@.query == Seq::<HeaderView>::empty(),
        r@.headers == client@.default_headers(),
        r@.body == BodyView::Empty,
{
    let mut url = String::from_str(URL);
    url.append("/users/");
    push_decimal(&mut url, id as u64);
    url.append("/friends/online");
    let query: Vec<Header> = Vec::new();
    assert(headers_view(query@) =~= Seq::<HeaderView>::empty());
    client.request_with(Method::Get, url, query, Body::Empty)
}

/// Asks for the friends of a user, one page of them.
pub fn user_friends_find(client: &Client, id: u64, paging: Paging<'_>) -> (r: Request)
    ensures
        r@.method == Method::Get,
        r@.url == URL@ + "/users/"@ + decimal(id as nat) + "/friends/find"@,
        r@.query == seq![
            HeaderView { name: "cursor"@, value: text_or(paging.cursor, ""@) },
            HeaderView { name: "limit"@, value: limit_text(paging.limit, 18) },
            HeaderView { name: "userSort"@, value: "1"@ },
        ],
        r@.headers == client@.default_headers(),
        r@.body == BodyView::Empty,
{
    let mut url = String::from_str(URL);
    url.append("/users/");
    push_decimal(&mut url, id as u64);
    url.append("/friends/find");
    let cursor = match paging.cursor {
        Some(text) => text,
        None => "",
    };
    let limit = decimal_string(limit_or(paging.limit, 18) as u64);
    let mut query: Vec<Header> = Vec::new();
    query.push(Header::new("cursor", cursor));
    query.push(Header::new("limit", limit.as_str()));
    query.push(Header::new("userSort", "1"));
    assert(headers_view(query@) =~= seq![
        HeaderView { name: "cursor"@, value: text_or(paging.cursor, ""@) },
        HeaderView { name: "limit"@, value: limit_text(paging.limit, 18) },
        HeaderView { name: "userSort"@, value: "1"@ },
    ]);
    client.request_with(Method::Get, url, query, Body::Empty)
}

/// Searches the friends of a user.
pub fn user_friends_search(
    client: &Client,
    id: u64,
    query_text: &str,
    paging: Paging<'_>,
) -> (r: Request)
    ensures
        r@.method == Method::Get,
        r@.url == URL@ + "/users/"@ + decimal(id as nat) + "/friends/search"@,
        r@.query == seq![
            HeaderView { name: "cursor"@, value: text_or(paging.cursor, ""@) },
            HeaderView { name: "limit"@, value: limit_text(paging.limit, 36) },
            HeaderView { name: "query"@, value: query_text@ },
        ],
        r@.headers == client@.default_headers(),
        r@.body == BodyView::Empty,
{
    let mut url = String::from_str(URL);
    url.append("/users/");
    push_decimal(&mut url, id as u64);
    url.append("/friends/search");
    let cursor = match paging.cursor {
        Some(text) => text,
        None => "",
    };
    let limit = decimal_string(limit_or(paging.limit, 36) as u64);
    let mut query: Vec<Header> = Vec::new();
    query.push(Header::new("cursor", cursor));
    query.push(Header::new("limit", limit.as_str()));
    query.push(Header::new("query", query_text));
    assert(headers_view(query@) =~= seq![
        HeaderView { name: "cursor"@, value: text_or(paging.cursor, ""@) },
        HeaderView { name: "limit"@, value: limit_text(paging.limit, 36) },
        HeaderView { name: "query"@, value: query_text@ },
    ]);
    client.request_with(Method::Get, url, query, Body::Empty)
}

/// Asks how a user stands with each of the given users.
pub fn user_friend_statuses(client: &Client, id: u64, friends: &[u64]) -> (r: Request)
    ensures
        r@.method == Method::Get,
        r@.url == URL@ + "/users/"@ + decimal(id as nat) + "/friends/statuses"@,
        r@.query == seq![
            HeaderView { name: "userIds"@, value: join_decimal(friends@, ","@) },
        ],
        r@.headers == client@.default_headers(),
        r@.body == BodyView::Empty,
{
    let mut url = String::from_str(URL);
    url.append("/users/");
    push_decimal(&mut url, id as u64);
    url.append("/friends/statuses");
    let mut user_ids = String::new();
    push_decimal_list(&mut user_ids, friends, ",");
    assert(user_ids@ =~= join_decimal(friends@, ","@));
    let mut query: Vec<Header> = Vec::new();
    query.push(Header::new("userIds", user_ids.as_str()));
    assert(headers_view(query@) =~= seq![
        HeaderView { name: "userIds"@, value: join_decimal(friends@, ","@) },
    ]);
    client.request_with(Method::Get, url, query, Body::Empty)
}

} // verus!
