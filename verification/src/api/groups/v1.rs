use crate::challenge::bool_text;
use crate::client::{Body, BodyView, Client, Header, HeaderView, Method, Request, headers_view};
use crate::text::{decimal, decimal_string, push_decimal};
use crate::wire::{bool_name, limit_or, limit_text, order_or_default, order_text, text_or};
use crate::{DateTime, Paging};
use vstd::prelude::*;
use vstd::string::*;

verus! {

pub const URL: &'static str = "https://groups.roblox.com/v1";

#[derive(Clone, Debug, PartialEq, Eq)]
pub struct GroupUser {
    pub id: u64,
    pub name: String,
    pub display_name: String,
    pub is_verified: bool,
}

#[derive(Clone, Debug, PartialEq, Eq)]
pub struct GroupRole {
    pub id: u64,
    pub name: String,
    pub rank: u8,
    pub member_count: Option<u64>,
    pub description: Option<String>,
}

#[derive(Clone, Debug, PartialEq, Eq)]
pub struct UserRole {
    pub user: GroupUser,
    pub role: GroupRole,
}

#[derive(Clone, Debug, PartialEq, Eq)]
pub struct GroupShout {
    pub body: String,
    pub poster: GroupUser,
    pub created: DateTime,
    pub updated: DateTime,
}

#[derive(Clone, Debug, PartialEq, Eq)]
pub struct NameHistory {
    pub names: Vec<(String, DateTime)>,
    pub next_cursor: Option<String>,
    pub previous_cursor: Option<String>,
}

#[derive(Clone, Debug, PartialEq, Eq)]
pub struct WallPost {
    pub id: u64,
    pub body: String,
    pub created: DateTime,
    pub updated: DateTime,
    pub poster: GroupUser,
}

#[derive(Clone, Debug, PartialEq, Eq)]
pub struct WallPosts {
    pub posts: Vec<WallPost>,
    pub next_cursor: Option<String>,
    pub previous_cursor: Option<String>,
}

#[derive(Clone, Debug, PartialEq, Eq)]
pub struct PostPermissions {
    pub view_wall: bool,
    pub post_to_wall: bool,
    pub delete_from_wall: bool,
    pub view_status: bool,
    pub post_to_status: bool,
}

#[derive(Clone, Debug, PartialEq, Eq)]
pub struct ForumsPermissions {
    pub pin_posts: bool,
    pub lock_posts: bool,
    pub create_posts: bool,
    pub remove_posts: bool,
    pub create_comments: bool,
    pub remove_comments: bool,
    pub manage_categories: bool,
}

#[derive(Clone, Debug, PartialEq, Eq)]
pub struct ContentModerationPermissions {
    pub manage_keyword_block_list: bool,
    pub view_keyword_block_list: bool,
}

#[derive(Clone, Debug, PartialEq, Eq)]
pub struct MembershipPermissions {
    pub change_rank: bool,
    pub ban_members: bool,
    pub invite_members: bool,
    pub remove_members: bool,
}

#[derive(Clone, Debug, PartialEq, Eq)]
pub struct ManagementPermissions {
    pub manage_clan: bool,
    pub manage_relationships: bool,
    pub view_audit_logs: bool,
}

#[derive(Clone, Debug, PartialEq, Eq)]
pub struct EconomyPermissions {
    pub create_items: bool,
    pub manage_items: bool,
    pub advertise_group: bool,
    pub add_group_places: bool,
    pub spend_group_funds: bool,
    pub manage_group_games: bool,
    pub view_group_payouts: bool,
    pub view_analytics: bool,
}

#[derive(Clone, Debug, PartialEq, Eq)]
pub struct OpenCloudPermissions {
    pub use_cloud_authentication: bool,
    pub administer_cloud_authentication: bool,
}

#[derive(Clone, Debug, PartialEq, Eq)]
pub struct Permissions {
    pub posts: PostPermissions,
    pub forums: ForumsPermissions,
    pub content_moderation: ContentModerationPermissions,
    pub membership: MembershipPermissions,
    pub management: ManagementPermissions,
    pub economy: EconomyPermissions,
    pub open_cloud: OpenCloudPermissions,
}

#[derive(Clone, Debug, PartialEq, Eq)]
pub struct GroupInformation {
    pub id: u64,
    pub name: String,
    pub description: String,
    pub owner: Option<GroupUser>,
    pub shout: Option<GroupShout>,
    pub member_count: Option<u64>,
    pub premium_only: bool,
    pub is_public: bool,
    pub is_verified: bool,
}

#[derive(Clone, Debug, PartialEq, Eq)]
pub struct NotificationPreference {
    pub name: String,
    pub description: String,
    pub kind: String,
    pub enabled: bool,
}

#[derive(Clone, Debug, PartialEq, Eq)]
pub struct Membership {
    pub id: u64,
    pub user_role: UserRole,
    pub permissions: Permissions,
    pub is_primary: bool,
    pub is_pending_join: bool,
    pub are_enemies_allowed: bool,
    pub are_group_games_visible: bool,
    pub are_group_funds_visible: bool,
    pub can_configure: bool,
    pub notification_preferences: Option<Vec<NotificationPreference>>,
}

#[derive(Clone, Debug, PartialEq, Eq)]
pub struct RolePermissions {
    pub id: u64,
    pub role: GroupRole,
    pub permissions: Permissions,
}

#[derive(Clone, Debug, PartialEq, Eq)]
pub struct GroupUsers {
    pub users: Vec<(GroupUser, GroupRole)>,
    pub next_cursor: Option<String>,
    pub previous_cursor: Option<String>,
}

/// Asks for what is known of a group.
pub fn information(client: &Client, id: u64) -> (r: Request)
    ensures
        r@.method == Method::Get,
        r@.url == URL@ + "/groups/"@ + decimal(id as nat),
        r@.query == Seq::<HeaderView>::empty(),
        r@.headers == client@.default_headers(),
        r@.body == BodyView::Empty,
{
    let mut url = String::from_str(URL);
    url.append("/groups/");
    push_decimal(&mut url, id as u64);
    let query: Vec<Header> = Vec::new();
    assert(headers_view(query@) =~= Seq::<HeaderView>::empty());
    client.request_with(Method::Get, url, query, Body::Empty)
}

/// Asks how the user of the session stands with a group.
pub fn membership(client: &Client, id: u64, notification_preferences: bool) -> (r: Request)
    ensures
        r@.method == Method::Get,
        r@.url == URL@ + "/groups/"@ + decimal(id as nat) + "/membership"@,
        r@.query == seq![
            HeaderView {
                name: "includeNotificationPreferences"@,
                value: bool_text(notification_preferences),
            },
        ],
        r@.headers == client@.default_headers(),
        r@.body == BodyView::Empty,
{
    let mut url = String::from_str(URL);
    url.append("/groups/");
    push_decimal(&mut url, id as u64);
    url.append("/membership");
    let mut query: Vec<Header> = Vec::new();
    query.push(Header::new("includeNotificationPreferences", bool_name(notification_preferences)));
    assert(headers_view(query@) =~= seq![
        HeaderView {
            name: "includeNotificationPreferences"@,
            value: bool_text(notification_preferences),
        },
    ]);
    client.request_with(Method::Get, url, query, Body::Empty)
}

/// Asks for the names that a group has had.
pub fn name_history(client: &Client, id: u64) -> (r: Request)
    ensures
        r@.method == Method::Get,
        r@.url == URL@ + "/groups/"@ + decimal(id as nat) + "/name-history"@,
        r@.query == Seq::<HeaderView>::empty(),
        r@.headers == client@.default_headers(),
        r@.body == BodyView::Empty,
{
    let mut url = String::from_str(URL);
    url.append("/groups/");
    push_decimal(&mut url, id as u64);
    url.append("/name-history");
    let query: Vec<Header> = Vec::new();
    assert(headers_view(query@) =~= Seq::<HeaderView>::empty());
    client.request_with(Method::Get, url, query, Body::Empty)
}

/// Asks for the groups that the user of the session asked to join.
pub fn pending_join_requests(client: &Client) -> (r: Request)
    ensures
        r@.method == Method::Get,
        r@.url == URL@ + "/user/groups/pending"@,
        r@.query == Seq::<HeaderView>::empty(),
        r@.headers == client@.default_headers(),
        r@.body == BodyView::Empty,
{
    let mut url = String::from_str(URL);
    url.append("/user/groups/pending");
    let query: Vec<Header> = Vec::new();
    assert(headers_view(query@) =~= Seq::<HeaderView>::empty());
    client.request_with(Method::Get, url, query, Body::Empty)
}

/// Asks for the roles of a group.
pub fn roles(client: &Client, id: u64) -> (r: Request)
    ensures
        r@.method == Method::Get,
        r@.url == URL@ + "/groups/"@ + decimal(id as nat) + "/roles"@,
        r@.query == Seq::<HeaderView>::empty(),
        r@.headers == client@.default_headers(),
        r@.body == BodyView::Empty,
{
    let mut url = String::from_str(URL);
    url.append("/groups/");
    push_decimal(&mut url, id as u64);
    url.append("/roles");
    let query: Vec<Header> = Vec::new();
    assert(headers_view(query@) =~= Seq::<HeaderView>::empty());
    client.request_with(Method::Get, url, query, Body::Empty)
}

/// Asks for the groups of a user and the role in each.
pub fn user_roles(client: &Client, id: u64) -> (r: Request)
    ensures
        r@.method == Method::Get,
        r@.url == URL@ + "/users/"@ + decimal(id as nat) + "/groups/roles"@,
        r@.query == Seq::<HeaderView>::empty(),
        r@.headers == client@.default_headers(),
        r@.body == BodyView::Empty,
{
    let mut url = String::from_str(URL);
    url.append("/users/");
    push_decimal(&mut url, id as u64);
    url.append("/groups/roles");
    let query: Vec<Header> = Vec::new();
    assert(headers_view(query@) =~= Seq::<HeaderView>::empty());
    client.request_with(Method::Get, url, query, Body::Empty)
}

/// Asks for what one role of a group may do.
pub fn roleset_permissions(client: &Client, id: u64, roleset_id: u64) -> (r: Request)
    ensures
        r@.method == Method::Get,
        r@.url == URL@
            + "/groups/"@
            + decimal(id as nat)
            + "/roles/"@
            + decimal(roleset_id as nat)
            + "/permissions"@,
        r@.query == Seq::<HeaderView>::empty(),
        r@.headers == client@.default_headers(),
        r@.body == BodyView::Empty,
{
    let mut url = String::from_str(URL);
    url.append("/groups/");
    push_decimal(&mut url, id as u64);
    url.append("/roles/");
    push_decimal(&mut url, roleset_id as u64);
    url.append("/permissions");
    let query: Vec<Header> = Vec::new();
    assert(headers_view(query@) =~= Seq::<HeaderView>::empty());
    client.request_with(Method::Get, url, query, Body::Empty)
}

/// Asks for what each role of a group may do.
pub fn role_permissions(client: &Client, id: u64) -> (r: Request)
    ensures
        r@.method == Method::Get,
        r@.url == URL@ + "/groups/"@ + decimal(id as nat) + "/roles/permissions"@,
        r@.query == Seq::<HeaderView>::empty(),
        r@.headers == client@.default_headers(),
        r@.body == BodyView::Empty,
{
    let mut url = String::from_str(URL);
    url.append("/groups/");
    push_decimal(&mut url, id as u64);
    url.append("/roles/permissions");
    let query: Vec<Header> = Vec::new();
    assert(headers_view(query@) =~= Seq::<HeaderView>::empty());
    client.request_with(Method::Get, url, query, Body::Empty)
}

/// Asks for the members of a group, one page of them.
pub fn users(client: &Client, id: u64, paging: Paging<'_>) -> (r: Request)
    ensures
        r@.method == Method::Get,
        r@.url == URL@ + "/groups/"@ + decimal(id as nat) + "/users"@,
        r@.query == seq![
            HeaderView { name: "limit"@, value: limit_text(paging.limit, 10) },
            HeaderView { name: "sortOrder"@, value: order_text(paging.order) },
            HeaderView { name: "cursor"@, value: text_or(paging.cursor, ""@) },
        ],
        r@.headers == client@.default_headers(),
        r@.body == BodyView::Empty,
{
    let mut url = String::from_str(URL);
    url.append("/groups/");
    push_decimal(&mut url, id as u64);
    url.append("/users");
    let limit = decimal_string(limit_or(paging.limit, 10) as u64);
    let cursor = match paging.cursor {
        Some(text) => text,
        None => "",
    };
    let mut query: Vec<Header> = Vec::new();
    query.push(Header::new("limit", limit.as_str()));
    query.push(Header::new("sortOrder", order_or_default(paging.order).name()));
    query.push(Header::new("cursor", cursor));
    assert(headers_view(query@) =~= seq![
        HeaderView { name: "limit"@, value: limit_text(paging.limit, 10) },
        HeaderView { name: "sortOrder"@, value: order_text(paging.order) },
        HeaderView { name: "cursor"@, value: text_or(paging.cursor, ""@) },
    ]);
    client.request_with(Method::Get, url, query, Body::Empty)
}

/// Asks for the posts on the wall of a group, one page of them.
pub fn wall_posts(client: &Client, id: u64, paging: Paging<'_>) -> (r: Request)
    ensures
        r@.method == Method::Get,
        r@.url == URL@ + "/groups/"@ + decimal(id as nat) + "/wall/posts"@,
        r@.query == seq![
            HeaderView { name: "limit"@, value: limit_text(paging.limit, 10) },
            HeaderView { name: "sortOrder"@, value: order_text(paging.order) },
            HeaderView { name: "cursor"@, value: text_or(paging.cursor, ""@) },
        ],
        r@.headers == client@.default_headers(),
        r@.body == BodyView::Empty,
{
    let mut url = String::from_str(URL);
    url.append("/groups/");
    push_decimal(&mut url, id as u64);
    url.append("/wall/posts");
    let limit = decimal_string(limit_or(paging.limit, 10) as u64);
    let cursor = match paging.cursor {
        Some(text) => text,
        None => "",
    };
    let mut query: Vec<Header> = Vec::new();
    query.push(Header::new("limit", limit.as_str()));
    query.push(Header::new("sortOrder", order_or_default(paging.order).name()));
    query.push(Header::new("cursor", cursor));
    assert(headers_view(query@) =~= seq![
        HeaderView { name: "limit"@, value: limit_text(paging.limit, 10) },
        HeaderView { name: "sortOrder"@, value: order_text(paging.order) },
        HeaderView { name: "cursor"@, value: text_or(paging.cursor, ""@) },
    ]);
    client.request_with(Method::Get, url, query, Body::Empty)
}

/// Joins a group, or asks to.
pub fn join(client: &Client, id: u64) -> (r: Request)
    ensures
        r@.method == Method::Post,
        r@.url == URL@ + "/groups/"@ + decimal(id as nat) + "/users"@,
        r@.query == Seq::<HeaderView>::empty(),
        r@.headers == client@.default_headers(),
        r@.body == BodyView::Json(
            "{\"sessionId\":\"\",\"redemptionToken\":\"\"}"@,
        ),
{
    let mut url = String::from_str(URL);
    url.append("/groups/");
    push_decimal(&mut url, id as u64);
    url.append("/users");
    let mut text = String::from_str("{\"sessionId\":\"\",\"redemptionToken\":\"\"}");
    let query: Vec<Header> = Vec::new();
    assert(headers_view(query@) =~= Seq::<HeaderView>::empty());
    client.request_with(Method::Post, url, query, Body::Json(text))
}

/// Turns down the request of a user to join a group.
pub fn remove_join_request(client: &Client, id: u64, user_id: u64) -> (r: Request)
    ensures
        r@.method == Method::Delete,
        r@.url == URL@
            + "/groups/"@
            + decimal(id as nat)
            + "/join-requests/users/"@
            + decimal(user_id as nat),
        r@.query == Seq::<HeaderView>::empty(),
        r@.headers == client@.default_headers(),
        r@.body == BodyView::Json(
            "{}"@,
        ),
{
    let mut url = String::from_str(URL);
    url.append("/groups/");
    push_decimal(&mut url, id as u64);
    url.append("/join-requests/users/");
    push_decimal(&mut url, user_id as u64);
    let mut text = String::from_str("{}");
    let query: Vec<Header> = Vec::new();
    assert(headers_view(query@) =~= Seq::<HeaderView>::empty());
    client.request_with(Method::Delete, url, query, Body::Json(text))
}

/// Removes a member from a group.
pub fn remove(client: &Client, id: u64, user_id: u64) -> (r: Request)
    ensures
        r@.method == Method::Delete,
        r@.url == URL@ + "/groups/"@ + decimal(id as nat) + "/users/"@ + decimal(user_id as nat),
        r@.query == Seq::<HeaderView>::empty(),
        r@.headers == client@.default_headers(),
        r@.body == BodyView::Json(
            "{}"@,
        ),
{
    let mut url = String::from_str(URL);
    url.append("/groups/");
    push_decimal(&mut url, id as u64);
    url.append("/users/");
    push_decimal(&mut url, user_id as u64);
    let mut text = String::from_str("{}");
    let query: Vec<Header> = Vec::new();
    assert(headers_view(query@) =~= Seq::<HeaderView>::empty());
    client.request_with(Method::Delete, url, query, Body::Json(text))
}

} // verus!
