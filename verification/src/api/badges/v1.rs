use crate::Paging;
use crate::client::{Body, BodyView, Client, Header, HeaderView, Method, Request, headers_view};
use crate::text::{decimal, decimal_string, push_decimal};
use crate::wire::{limit_or, limit_text, order_or_default, order_text, text_or};
use vstd::prelude::*;
use vstd::string::*;

verus! {

pub const URL: &'static str = "https://badges.roblox.com/v1";

#[derive(Copy, Clone, Debug, PartialEq, Eq, Structural)]
pub enum BadgeSortBy {
    Rank,
    DateCreated,
}

impl BadgeSortBy {
    /// The variant's name, as it is written on the wire.
    pub open spec fn name_spec(self) -> Seq<char> {
        match self {
            BadgeSortBy::Rank => "Rank"@,
            BadgeSortBy::DateCreated => "DateCreated"@,
        }
    }

    pub fn name(&self) -> (r: &'static str)
        ensures
            r@ == self.name_spec(),
    {
        match self {
            BadgeSortBy::Rank => "Rank",
            BadgeSortBy::DateCreated => "DateCreated",
        }
    }
}

#[derive(Copy, Clone, Debug, PartialEq, Eq, Structural)]
pub enum BadgeCreatorType {
    User,
    Group,
}

impl BadgeCreatorType {
    /// The variant's name, as it is written on the wire.
    pub open spec fn name_spec(self) -> Seq<char> {
        match self {
            BadgeCreatorType::User => "User"@,
            BadgeCreatorType::Group => "Group"@,
        }
    }

    pub fn name(&self) -> (r: &'static str)
        ensures
            r@ == self.name_spec(),
    {
        match self {
            BadgeCreatorType::User => "User",
            BadgeCreatorType::Group => "Group",
        }
    }
}

#[derive(Copy, Clone, Debug, PartialEq, Eq, Structural)]
pub enum BadgeAwarderType {
    Place,
}

impl BadgeAwarderType {
    /// The variant's name, as it is written on the wire.
    pub open spec fn name_spec(self) -> Seq<char> {
        match self {
            BadgeAwarderType::Place => "Place"@,
        }
    }

    pub fn name(&self) -> (r: &'static str)
        ensures
            r@ == self.name_spec(),
    {
        match self {
            BadgeAwarderType::Place => "Place",
        }
    }
}

#[derive(Clone, Debug, PartialEq)]
pub struct BadgeCreator {
    pub id: u64,
    pub name: String,
    pub kind: BadgeCreatorType,
}

#[derive(Clone, Debug, PartialEq)]
pub struct BadgeAwarder {
    pub id: u64,
    pub kind: BadgeAwarderType,
}

#[derive(Clone, Debug, PartialEq, Eq)]
pub struct BadgeUniverse {
    pub id: u64,
    pub name: String,
    pub root_place_id: u64,
}

/// The name of the order, or nothing where none was asked for.
pub open spec fn sort_text(sort_by: Option<BadgeSortBy>) -> Seq<char> {
    match sort_by {
        Some(s) => s.name_spec(),
        None => ""@,
    }
}

/// Asks for what is known of a badge.
pub fn information(client: &Client, id: u64) -> (r: Request)
    ensures
        r@.method == Method::Get,
        r@.url == URL@ + "/badges/"@ + decimal(id as nat),
        r@.query == Seq::<HeaderView>::empty(),
        r@.headers == client@.default_headers(),
        r@.body == BodyView::Empty,
{
    let mut url = String::from_str(URL);
    url.append("/badges/");
    push_decimal(&mut url, id as u64);
    let query: Vec<Header> = Vec::new();
    assert(headers_view(query@) =~= Seq::<HeaderView>::empty());
    client.request_with(Method::Get, url, query, Body::Empty)
}

/// Asks for the badges of a universe, one page of them.
pub fn universe_badges(
    client: &Client,
    id: u64,
    sort_by: Option<BadgeSortBy>,
    paging: Paging<'_>,
) -> (r: Request)
    ensures
        r@.method == Method::Get,
        r@.url == URL@ + "/universes/"@ + decimal(id as nat) + "/badges"@,
        r@.query == seq![
            HeaderView { name: "sortBy"@, value: sort_text(sort_by) },
            HeaderView { name: "limit"@, value: limit_text(paging.limit, 10) },
            HeaderView { name: "sortOrder"@, value: order_text(paging.order) },
            HeaderView { name: "cursor"@, value: text_or(paging.cursor, ""@) },
        ],
        r@.headers == client@.default_headers(),
        r@.body == BodyView::Empty,
{
    let mut url = String::from_str(URL);
    url.append("/universes/");
    push_decimal(&mut url, id as u64);
    url.append("/badges");
    let sort_by_text = match sort_by {
        Some(s) => s.name(),
        None => "",
    };
    let limit = decimal_string(limit_or(paging.limit, 10) as u64);
    let cursor = match paging.cursor {
        Some(text) => text,
        None => "",
    };
    let mut query: Vec<Header> = Vec::new();
    query.push(Header::new("sortBy", sort_by_text));
    query.push(Header::new("limit", limit.as_str()));
    query.push(Header::new("sortOrder", order_or_default(paging.order).name()));
    query.push(Header::new("cursor", cursor));
    assert(headers_view(query@) =~= seq![
        HeaderView { name: "sortBy"@, value: sort_text(sort_by) },
        HeaderView { name: "limit"@, value: limit_text(paging.limit, 10) },
        HeaderView { name: "sortOrder"@, value: order_text(paging.order) },
        HeaderView { name: "cursor"@, value: text_or(paging.cursor, ""@) },
    ]);
    client.request_with(Method::Get, url, query, Body::Empty)
}

/// Asks for the badges of a user, one page of them.
pub fn user_badges(client: &Client, id: u64, paging: Paging<'_>) -> (r: Request)
    ensures
        r@.method == Method::Get,
        r@.url == URL@ + "/users/"@ + decimal(id as nat) + "/badges"@,
        r@.query == seq![
            HeaderView { name: "sortBy"@, value: ""@ },
            HeaderView { name: "limit"@, value: limit_text(paging.limit, 10) },
            HeaderView { name: "sortOrder"@, value: order_text(paging.order) },
            HeaderView { name: "cursor"@, value: text_or(paging.cursor, ""@) },
        ],
        r@.headers == client@.default_headers(),
        r@.body == BodyView::Empty,
{
    let mut url = String::from_str(URL);
    url.append("/users/");
    push_decimal(&mut url, id as u64);
    url.append("/badges");
    let limit = decimal_string(limit_or(paging.limit, 10) as u64);
    let cursor = match paging.cursor {
        Some(text) => text,
        None => "",
    };
    let mut query: Vec<Header> = Vec::new();
    query.push(Header::new("sortBy", ""));
    query.push(Header::new("limit", limit.as_str()));
    query.push(Header::new("sortOrder", order_or_default(paging.order).name()));
    query.push(Header::new("cursor", cursor));
    assert(headers_view(query@) =~= seq![
        HeaderView { name: "sortBy"@, value: ""@ },
        HeaderView { name: "limit"@, value: limit_text(paging.limit, 10) },
        HeaderView { name: "sortOrder"@, value: order_text(paging.order) },
        HeaderView { name: "cursor"@, value: text_or(paging.cursor, ""@) },
    ]);
    client.request_with(Method::Get, url, query, Body::Empty)
}

/// Takes a badge away from a user.
pub fn remove(client: &Client, id: u64, user_id: u64) -> (r: Request)
    ensures
        r@.method == Method::Delete,
        r@.url == URL@ + "/user/"@ + decimal(user_id as nat) + "/badges/"@ + decimal(id as nat),
        r@.query == Seq::<HeaderView>::empty(),
        r@.headers == client@.default_headers(),
        r@.body == BodyView::Empty,
{
    let mut url = String::from_str(URL);
    url.append("/user/");
    push_decimal(&mut url, user_id as u64);
    url.append("/badges/");
    push_decimal(&mut url, id as u64);
    let query: Vec<Header> = Vec::new();
    assert(headers_view(query@) =~= Seq::<HeaderView>::empty());
    client.request_with(Method::Delete, url, query, Body::Empty)
}

/// Takes a badge away from the user of the session.
pub fn authenticated_remove(client: &Client, id: u64) -> (r: Request)
    ensures
        r@.method == Method::Delete,
        r@.url == URL@ + "/user/badges/"@ + decimal(id as nat),
        r@.query == Seq::<HeaderView>::empty(),
        r@.headers == client@.default_headers(),
        r@.body == BodyView::Empty,
{
    let mut url = String::from_str(URL);
    url.append("/user/badges/");
    push_decimal(&mut url, id as u64);
    let query: Vec<Header> = Vec::new();
    assert(headers_view(query@) =~= Seq::<HeaderView>::empty());
    client.request_with(Method::Delete, url, query, Body::Empty)
}

} // verus!
