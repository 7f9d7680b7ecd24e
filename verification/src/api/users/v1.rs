use crate::challenge::bool_text;
use crate::client::{Body, BodyView, Client, Header, HeaderView, Method, Request, headers_view};
use crate::json::json_string_literal;
use crate::text::{decimal, push_decimal};
use crate::wire::{
    json_numbers, json_strings, limit_or, limit_text, order_or_default, order_text, prefixed,
    push_bool, push_json_numbers, push_json_strings, push_prefixed, push_quoted, push_signed,
    signed_decimal, slice_texts,
};
use crate::{DateTime, Paging};
use crate::{rfc3339_day, Ymd};
use vstd::prelude::*;
use vstd::string::*;

verus! {

pub const URL: &'static str = "https://users.roblox.com/v1";

/// The gender that a user gave.
#[derive(Clone, Copy, Debug, PartialEq, Eq, Structural)]
pub enum Gender {
    Unspecified,
    Male,
    Female,
}

impl Gender {
    /// The number that stands for the variant on the wire.
    pub open spec fn id_spec(self) -> u8 {
        match self {
            Gender::Unspecified => 1,
            Gender::Male => 2,
            Gender::Female => 3,
        }
    }

    pub fn id(self) -> (r: u8)
        ensures
            r == self.id_spec(),
    {
        match self {
            Gender::Unspecified => 1,
            Gender::Male => 2,
            Gender::Female => 3,
        }
    }

    /// The variant that a number stands for, if it stands for one.
    pub fn from_repr(value: u8) -> (r: Option<Gender>)
        ensures
            match r {
                Some(v) => v.id_spec() == value,
                None => forall|v: Gender| v.id_spec() != value,
            },
    {
        if value == 1 {
            Some(Gender::Unspecified)
        } else if value == 2 {
            Some(Gender::Male)
        } else if value == 3 {
            Some(Gender::Female)
        } else {
            None
        }
    }
}

impl Gender {
    /// The gender that a number stands for. A number that stands for none
    /// counts as `Unspecified`.
    pub open spec fn from_u8_spec(value: u8) -> Gender {
        if value == 2 {
            Gender::Male
        } else if value == 3 {
            Gender::Female
        } else {
            Gender::Unspecified
        }
    }

    pub fn from_u8(value: u8) -> (r: Self)
        ensures
            r == Self::from_u8_spec(value),
    {
        match value {
            2 => Gender::Male,
            3 => Gender::Female,
            _ => Gender::Unspecified,
        }
    }
}

#[derive(Clone, Debug, PartialEq, Eq)]
pub struct ClientDetails {
    pub id: u64,
    pub name: String,
    pub display_name: String,
}

#[derive(Clone, Debug, PartialEq, Eq)]
pub struct ClientAppLaunchInfo {
    pub id: u64,
    pub name: String,
    pub display_name: String,
    pub is_premium: bool,
    pub country_code: String,
    pub age_bracket: u64,
}

#[derive(Clone, Debug, PartialEq, Eq)]
pub struct UserDetails {
    pub id: u64,
    pub name: String,
    pub display_name: String,
    pub description: String,
    pub created_date: DateTime,
    pub is_terminated: bool,
    pub is_verified: bool,
}

#[derive(Clone, Debug, PartialEq, Eq)]
pub struct UserById {
    pub id: u64,
    pub name: String,
    pub display_name: String,
    pub is_verified: bool,
}

#[derive(Clone, Debug, PartialEq, Eq)]
pub struct UserByName {
    pub id: u64,
    pub name: String,
    pub requested_name: String,
    pub display_name: String,
    pub is_verified: bool,
}

#[derive(Clone, Debug, PartialEq, Eq)]
pub struct UserByKeyword {
    pub id: u64,
    pub name: String,
    pub display_name: String,
    pub previous_names: Vec<String>,
    pub is_verified: bool,
}

#[derive(Clone, Debug, PartialEq, Eq)]
pub struct NameHistory {
    pub names: Vec<String>,
    pub next_cursor: Option<String>,
    pub previous_cursor: Option<String>,
}

#[derive(Clone, Debug, PartialEq, Eq)]
pub struct UserSearchByKeyword {
    pub users: Vec<UserByKeyword>,
    pub next_cursor: Option<String>,
    pub previous_cursor: Option<String>,
}

/// Asks for what is known of a user.
pub fn user_details(client: &Client, id: u64) -> (r: Request)
    ensures
        r@.method == Method::Get,
        r@.url == URL@ + "/users/"@ + decimal(id as nat),
        r@.query == Seq::<HeaderView>::empty(),
        r@.headers == client@.default_headers(),
        r@.body == BodyView::Empty,
{
    let mut url = String::from_str(URL);
    url.append("/users/");
    push_decimal(&mut url, id as u64);
    let query: Vec<Header> = Vec::new();
    assert(headers_view(query@) =~= Seq::<HeaderView>::empty());
    client.request_with(Method::Get, url, query, Body::Empty)
}

/// Asks for the names that a user has had, one page of them.
pub fn user_username_history(client: &Client, id: u64, paging: Paging<'_>) -> (r: Request)
    ensures
        r@.method == Method::Get,
        r@.url == URL@
            + "/users/"@
            + decimal(id as nat)
            + "/username-history?limit="@
            + limit_text(paging.limit, 10)
            + "&sortOrder="@
            + order_text(paging.order)
            + prefixed("&cursor="@, paging.cursor),
        r@.query == Seq::<HeaderView>::empty(),
        r@.headers == client@.default_headers(),
        r@.body == BodyView::Empty,
{
    let mut url = String::from_str(URL);
    url.append("/users/");
    push_decimal(&mut url, id as u64);
    url.append("/username-history?limit=");
    push_decimal(&mut url, limit_or(paging.limit, 10) as u64);
    url.append("&sortOrder=");
    url.append(order_or_default(paging.order).name());
    push_prefixed(&mut url, "&cursor=", paging.cursor);
    let query: Vec<Header> = Vec::new();
    assert(headers_view(query@) =~= Seq::<HeaderView>::empty());
    client.request_with(Method::Get, url, query, Body::Empty)
}

/// Asks for the users with the given identifiers.
pub fn users_by_id(client: &Client, ids: &[u64], exclude_terminated: bool) -> (r: Request)
    ensures
        r@.method == Method::Post,
        r@.url == URL@ + "/users"@,
        r@.query == Seq::<HeaderView>::empty(),
        r@.headers == client@.default_headers(),
        r@.body == BodyView::Json(
            "{\"userIds\":"@
                + json_numbers(ids@)
                + ",\"excludeBannedUsers\":"@
                + bool_text(exclude_terminated)
                + "}"@,
        ),
{
    let mut url = String::from_str(URL);
    url.append("/users");
    let mut text = String::from_str("{\"userIds\":");
    push_json_numbers(&mut text, ids);
    text.append(",\"excludeBannedUsers\":");
    push_bool(&mut text, exclude_terminated);
    text.append("}");
    let query: Vec<Header> = Vec::new();
    assert(headers_view(query@) =~= Seq::<HeaderView>::empty());
    client.request_with(Method::Post, url, query, Body::Json(text))
}

/// Asks for the users with the given names.
pub fn users_by_name(client: &Client, names: &[&str], exclude_terminated: bool) -> (r: Request)
    ensures
        r@.method == Method::Post,
        r@.url == URL@ + "/usernames/users"@,
        r@.query == Seq::<HeaderView>::empty(),
        r@.headers == client@.default_headers(),
        r@.body == BodyView::Json(
            "{\"usernames\":"@
                + json_strings(slice_texts(names@))
                + ",\"excludeBannedUsers\":"@
                + bool_text(exclude_terminated)
                + "}"@,
        ),
{
    let mut url = String::from_str(URL);
    url.append("/usernames/users");
    let mut text = String::from_str("{\"usernames\":");
    push_json_strings(&mut text, names);
    text.append(",\"excludeBannedUsers\":");
    push_bool(&mut text, exclude_terminated);
    text.append("}");
    let query: Vec<Header> = Vec::new();
    assert(headers_view(query@) =~= Seq::<HeaderView>::empty());
    client.request_with(Method::Post, url, query, Body::Json(text))
}

/// Searches users by a keyword, one page of them.
pub fn search_by_keyword(
    client: &Client,
    keyword: &str,
    session_id: Option<&str>,
    paging: Paging<'_>,
) -> (r: Request)
    ensures
        r@.method == Method::Get,
        r@.url == URL@
            + "/users/search?keyword="@
            + keyword@
            + "&limit="@
            + limit_text(paging.limit, 10)
            + prefixed("&cursor="@, paging.cursor)
            + prefixed("&session_id="@, session_id),
        r@.query == Seq::<HeaderView>::empty(),
        r@.headers == client@.default_headers(),
        r@.body == BodyView::Empty,
{
    let mut url = String::from_str(URL);
    url.append("/users/search?keyword=");
    url.append(keyword);
    url.append("&limit=");
    push_decimal(&mut url, limit_or(paging.limit, 10) as u64);
    push_prefixed(&mut url, "&cursor=", paging.cursor);
    push_prefixed(&mut url, "&session_id=", session_id);
    let query: Vec<Header> = Vec::new();
    assert(headers_view(query@) =~= Seq::<HeaderView>::empty());
    client.request_with(Method::Get, url, query, Body::Empty)
}

/// Asks who the user of the session is.
pub fn authenticated_details(client: &Client) -> (r: Request)
    ensures
        r@.method == Method::Get,
        r@.url == URL@ + "/users/authenticated"@,
        r@.query == Seq::<HeaderView>::empty(),
        r@.headers == client@.default_headers(),
        r@.body == BodyView::Empty,
{
    let mut url = String::from_str(URL);
    url.append("/users/authenticated");
    let query: Vec<Header> = Vec::new();
    assert(headers_view(query@) =~= Seq::<HeaderView>::empty());
    client.request_with(Method::Get, url, query, Body::Empty)
}

/// Asks for the age bracket of the user of the session.
pub fn authenticated_age_bracket(client: &Client) -> (r: Request)
    ensures
        r@.method == Method::Get,
        r@.url == URL@ + "/users/authenticated/age-bracket"@,
        r@.query == Seq::<HeaderView>::empty(),
        r@.headers == client@.default_headers(),
        r@.body == BodyView::Empty,
{
    let mut url = String::from_str(URL);
    url.append("/users/authenticated/age-bracket");
    let query: Vec<Header> = Vec::new();
    assert(headers_view(query@) =~= Seq::<HeaderView>::empty());
    client.request_with(Method::Get, url, query, Body::Empty)
}

/// Asks for the country of the user of the session.
pub fn authenticated_country_code(client: &Client) -> (r: Request)
    ensures
        r@.method == Method::Get,
        r@.url == URL@ + "/users/authenticated/country-code"@,
        r@.query == Seq::<HeaderView>::empty(),
        r@.headers == client@.default_headers(),
        r@.body == BodyView::Empty,
{
    let mut url = String::from_str(URL);
    url.append("/users/authenticated/country-code");
    let query: Vec<Header> = Vec::new();
    assert(headers_view(query@) =~= Seq::<HeaderView>::empty());
    client.request_with(Method::Get, url, query, Body::Empty)
}

/// Asks for the roles of the user of the session.
pub fn authenticated_roles(client: &Client) -> (r: Request)
    ensures
        r@.method == Method::Get,
        r@.url == URL@ + "/users/authenticated/roles"@,
        r@.query == Seq::<HeaderView>::empty(),
        r@.headers == client@.default_headers(),
        r@.body == BodyView::Empty,
{
    let mut url = String::from_str(URL);
    url.append("/users/authenticated/roles");
    let query: Vec<Header> = Vec::new();
    assert(headers_view(query@) =~= Seq::<HeaderView>::empty());
    client.request_with(Method::Get, url, query, Body::Empty)
}

/// Asks for what an app needs to know of the user of the session at launch.
pub fn authenticated_app_launch_info(client: &Client) -> (r: Request)
    ensures
        r@.method == Method::Get,
        r@.url == URL@ + "/users/authenticated/app-launch-info"@,
        r@.query == Seq::<HeaderView>::empty(),
        r@.headers == client@.default_headers(),
        r@.body == BodyView::Empty,
{
    let mut url = String::from_str(URL);
    url.append("/users/authenticated/app-launch-info");
    let query: Vec<Header> = Vec::new();
    assert(headers_view(query@) =~= Seq::<HeaderView>::empty());
    client.request_with(Method::Get, url, query, Body::Empty)
}

/// Asks for the birthdate of the user of the session.
pub fn birthdate(client: &Client) -> (r: Request)
    ensures
        r@.method == Method::Get,
        r@.url == URL@ + "/birthdate"@,
        r@.query == Seq::<HeaderView>::empty(),
        r@.headers == client@.default_headers(),
        r@.body == BodyView::Empty,
{
    let mut url = String::from_str(URL);
    url.append("/birthdate");
    let query: Vec<Header> = Vec::new();
    assert(headers_view(query@) =~= Seq::<HeaderView>::empty());
    client.request_with(Method::Get, url, query, Body::Empty)
}

/// The JSON body that sets a birthdate.
pub open spec fn birthdate_text(date: Ymd) -> Seq<char> {
    "{\"birthDay\":"@ + decimal(date.day as nat) + ",\"birthMonth\":"@ + decimal(date.month as nat)
        + ",\"birthYear\":"@ + signed_decimal(date.year as int) + "}"@
}

/// Sets the birthdate of the user of the session to the day of `birthdate`.
/// `None` where the text of `birthdate` is not RFC 3339, and only then.
pub fn set_birthdate(client: &Client, birthdate: &DateTime) -> (r: Option<Request>)
    ensures
        match r {
            Some(request) => {
                &&& rfc3339_day(birthdate@) is Some
                &&& request@.method == Method::Post
                &&& request@.url == URL@ + "/birthdate"@
                &&& request@.query == Seq::<HeaderView>::empty()
                &&& request@.headers == client@.default_headers()
                &&& request@.body == BodyView::Json(birthdate_text(rfc3339_day(birthdate@)->0))
            },
            None => rfc3339_day(birthdate@) is None,
        },
{
    match birthdate.ymd() {
        Some(date) => {
            let mut url = String::from_str(URL);
            url.append("/birthdate");
            let mut text = String::from_str("{\"birthDay\":");
            push_decimal(&mut text, date.day as u64);
            text.append(",\"birthMonth\":");
            push_decimal(&mut text, date.month as u64);
            text.append(",\"birthYear\":");
            push_signed(&mut text, date.year);
            text.append("}");
            Some(client.request(Method::Post, url, Body::Json(text)))
        },
        None => None,
    }
}

/// Asks for the description of the user of the session.
pub fn description(client: &Client) -> (r: Request)
    ensures
        r@.method == Method::Get,
        r@.url == URL@ + "/description"@,
        r@.query == Seq::<HeaderView>::empty(),
        r@.headers == client@.default_headers(),
        r@.body == BodyView::Empty,
{
    let mut url = String::from_str(URL);
    url.append("/description");
    let query: Vec<Header> = Vec::new();
    assert(headers_view(query@) =~= Seq::<HeaderView>::empty());
    client.request_with(Method::Get, url, query, Body::Empty)
}

/// Sets the description of the user of the session.
pub fn set_description(client: &Client, description_text: &str) -> (r: Request)
    ensures
        r@.method == Method::Post,
        r@.url == URL@ + "/description"@,
        r@.query == Seq::<HeaderView>::empty(),
        r@.headers == client@.default_headers(),
        r@.body == BodyView::Json(
            "{\"description\":"@ + json_string_literal(description_text@) + "}"@,
        ),
{
    let mut url = String::from_str(URL);
    url.append("/description");
    let mut text = String::from_str("{\"description\":");
    push_quoted(&mut text, description_text);
    text.append("}");
    let query: Vec<Header> = Vec::new();
    assert(headers_view(query@) =~= Seq::<HeaderView>::empty());
    client.request_with(Method::Post, url, query, Body::Json(text))
}

/// Asks for the gender of the user of the session.
pub fn gender(client: &Client) -> (r: Request)
    ensures
        r@.method == Method::Get,
        r@.url == URL@ + "/gender"@,
        r@.query == Seq::<HeaderView>::empty(),
        r@.headers == client@.default_headers(),
        r@.body == BodyView::Empty,
{
    let mut url = String::from_str(URL);
    url.append("/gender");
    let query: Vec<Header> = Vec::new();
    assert(headers_view(query@) =~= Seq::<HeaderView>::empty());
    client.request_with(Method::Get, url, query, Body::Empty)
}

/// Sets the gender of the user of the session.
pub fn set_gender(client: &Client, value: Gender) -> (r: Request)
    ensures
        r@.method == Method::Post,
        r@.url == URL@ + "/gender"@,
        r@.query == Seq::<HeaderView>::empty(),
        r@.headers == client@.default_headers(),
        r@.body == BodyView::Json(
            "{\"gender\":"@ + decimal(value.id_spec() as nat) + "}"@,
        ),
{
    let mut url = String::from_str(URL);
    url.append("/gender");
    let mut text = String::from_str("{\"gender\":");
    push_decimal(&mut text, value.id() as u64);
    text.append("}");
    let query: Vec<Header> = Vec::new();
    assert(headers_view(query@) =~= Seq::<HeaderView>::empty());
    client.request_with(Method::Post, url, query, Body::Json(text))
}

/// Asks whether a display name would do for a user born on the given day.
pub fn validate_display_name(
    client: &Client,
    display_name: &str,
    birthdate: &DateTime,
) -> (r: Request)
    ensures
        r@.method == Method::Get,
        r@.url == URL@
            + "/display-names/validate?displayName="@
            + display_name@
            + "&birthdate="@
            + birthdate.0@,
        r@.query == Seq::<HeaderView>::empty(),
        r@.headers == client@.default_headers(),
        r@.body == BodyView::Empty,
{
    let mut url = String::from_str(URL);
    url.append("/display-names/validate?displayName=");
    url.append(display_name);
    url.append("&birthdate=");
    url.append(birthdate.0.as_str());
    let query: Vec<Header> = Vec::new();
    assert(headers_view(query@) =~= Seq::<HeaderView>::empty());
    client.request_with(Method::Get, url, query, Body::Empty)
}

/// Asks whether a display name would do for a user.
pub fn validate_display_name_by_id(
    client: &Client,
    id: u64,
    display_name: &str,
) -> (r: Request)
    ensures
        r@.method == Method::Get,
        r@.url == URL@
            + "/users/"@
            + decimal(id as nat)
            + "/display-names/validate?displayName="@
            + display_name@,
        r@.query == Seq::<HeaderView>::empty(),
        r@.headers == client@.default_headers(),
        r@.body == BodyView::Empty,
{
    let mut url = String::from_str(URL);
    url.append("/users/");
    push_decimal(&mut url, id as u64);
    url.append("/display-names/validate?displayName=");
    url.append(display_name);
    let query: Vec<Header> = Vec::new();
    assert(headers_view(query@) =~= Seq::<HeaderView>::empty());
    client.request_with(Method::Get, url, query, Body::Empty)
}

/// Sets the display name of a user.
pub fn set_display_name(client: &Client, id: u64, display_name: &str) -> (r: Request)
    ensures
        r@.method == Method::Patch,
        r@.url == URL@
            + "/users/"@
            + decimal(id as nat)
            + "/display-names?displayName="@
            + display_name@,
        r@.query == Seq::<HeaderView>::empty(),
        r@.headers == client@.default_headers(),
        r@.body == BodyView::Json(
            "{\"newDisplayName\":"@ + json_string_literal(display_name@) + "}"@,
        ),
{
    let mut url = String::from_str(URL);
    url.append("/users/");
    push_decimal(&mut url, id as u64);
    url.append("/display-names?displayName=");
    url.append(display_name);
    let mut text = String::from_str("{\"newDisplayName\":");
    push_quoted(&mut text, display_name);
    text.append("}");
    let query: Vec<Header> = Vec::new();
    assert(headers_view(query@) =~= Seq::<HeaderView>::empty());
    client.request_with(Method::Patch, url, query, Body::Json(text))
}

} // verus!
