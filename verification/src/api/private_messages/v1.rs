use crate::client::{Body, BodyView, Client, Header, HeaderView, Method, Request, headers_view};
use crate::text::decimal_string;
use crate::wire::{json_numbers, limit_or, limit_text, push_json_numbers, text_or};
use crate::{DateTime, Paging};
use vstd::prelude::*;
use vstd::string::*;

verus! {

pub const URL: &'static str = "https://privatemessages.roblox.com/v1";

#[derive(Copy, Clone, Debug, PartialEq, Eq, Structural)]
pub enum MessageTab {
    Inbox,
    Sent,
    Archive,
}

impl Default for MessageTab {
    fn default() -> (r: Self)
        ensures
            r == MessageTab::Inbox,
    {
        MessageTab::Inbox
    }
}

impl MessageTab {
    /// The variant's name, as it is written on the wire.
    pub open spec fn name_spec(self) -> Seq<char> {
        match self {
            MessageTab::Inbox => "inbox"@,
            MessageTab::Sent => "sent"@,
            MessageTab::Archive => "archive"@,
        }
    }

    pub fn name(&self) -> (r: &'static str)
        ensures
            r@ == self.name_spec(),
    {
        match self {
            MessageTab::Inbox => "inbox",
            MessageTab::Sent => "sent",
            MessageTab::Archive => "archive",
        }
    }
}

#[derive(Clone, Debug, PartialEq, Eq)]
pub struct User {
    pub id: u64,
    pub name: String,
    pub display_name: String,
    pub is_verified: bool,
}

#[derive(Clone, Debug, PartialEq, Eq)]
pub struct Message {
    pub id: u64,
    pub subject: String,
    pub body: String,
    pub sender: User,
    pub recipient: User,
    pub created: DateTime,
    pub updated: DateTime,
    pub is_read: bool,
    pub is_system_message: bool,
    pub is_report_abuse_displayed: bool,
}

#[derive(Clone, Debug, PartialEq, Eq)]
pub struct Announcement {
    pub id: u64,
    pub subject: String,
    pub body: String,
    pub sender: User,
    pub created: DateTime,
    pub updated: DateTime,
}

#[derive(Clone, Debug, PartialEq, Eq)]
pub struct Announcements {
    pub collection: Vec<Announcement>,
    pub total_collection_size: u64,
}

#[derive(Clone, Debug, PartialEq, Eq)]
pub struct Messages {
    pub collection: Vec<Message>,
    pub total_collection_size: u64,
    pub total_pages: u64,
    pub current_page: u64,
}

/// Asks how many messages are unread.
pub fn unread_count(client: &Client) -> (r: Request)
    ensures
        r@.method == Method::Get,
        r@.url == URL@ + "/messages/unread/count"@,
        r@.query == Seq::<HeaderView>::empty(),
        r@.headers == client@.default_headers(),
        r@.body == BodyView::Empty,
{
    let mut url = String::from_str(URL);
    url.append("/messages/unread/count");
    let query: Vec<Header> = Vec::new();
    assert(headers_view(query@) =~= Seq::<HeaderView>::empty());
    client.request_with(Method::Get, url, query, Body::Empty)
}

/// Asks for the messages of one tab, one page of them.
pub fn messages(client: &Client, tab: MessageTab, paging: Paging<'_>) -> (r: Request)
    ensures
        r@.method == Method::Get,
        r@.url == URL@ + "/messages"@,
        r@.query == seq![
            HeaderView { name: "messageTab"@, value: tab.name_spec() },
            HeaderView { name: "pageNumber"@, value: text_or(paging.cursor, ""@) },
            HeaderView { name: "pageSize"@, value: limit_text(paging.limit, 100) },
        ],
        r@.headers == client@.default_headers(),
        r@.body == BodyView::Empty,
{
    let mut url = String::from_str(URL);
    url.append("/messages");
    let page_number = match paging.cursor {
        Some(text) => text,
        None => "",
    };
    let page_size = decimal_string(limit_or(paging.limit, 100) as u64);
    let mut query: Vec<Header> = Vec::new();
    query.push(Header::new("messageTab", tab.name()));
    query.push(Header::new("pageNumber", page_number));
    query.push(Header::new("pageSize", page_size.as_str()));
    assert(headers_view(query@) =~= seq![
        HeaderView { name: "messageTab"@, value: tab.name_spec() },
        HeaderView { name: "pageNumber"@, value: text_or(paging.cursor, ""@) },
        HeaderView { name: "pageSize"@, value: limit_text(paging.limit, 100) },
    ]);
    client.request_with(Method::Get, url, query, Body::Empty)
}

/// Asks for the announcements of the platform.
pub fn announcements(client: &Client) -> (r: Request)
    ensures
        r@.method == Method::Get,
        r@.url == URL@ + "/announcements"@,
        r@.query == Seq::<HeaderView>::empty(),
        r@.headers == client@.default_headers(),
        r@.body == BodyView::Empty,
{
    let mut url = String::from_str(URL);
    url.append("/announcements");
    let query: Vec<Header> = Vec::new();
    assert(headers_view(query@) =~= Seq::<HeaderView>::empty());
    client.request_with(Method::Get, url, query, Body::Empty)
}

/// Moves messages to the archive.
pub fn archive(client: &Client, ids: &[u64]) -> (r: Request)
    ensures
        r@.method == Method::Post,
        r@.url == URL@ + "/messages/archive"@,
        r@.query == Seq::<HeaderView>::empty(),
        r@.headers == client@.default_headers(),
        r@.body == BodyView::Json(
            "{\"messageIds\":"@ + json_numbers(ids@) + "}"@,
        ),
{
    let mut url = String::from_str(URL);
    url.append("/messages/archive");
    let mut text = String::from_str("{\"messageIds\":");
    push_json_numbers(&mut text, ids);
    text.append("}");
    let query: Vec<Header> = Vec::new();
    assert(headers_view(query@) =~= Seq::<HeaderView>::empty());
    client.request_with(Method::Post, url, query, Body::Json(text))
}

/// Moves messages out of the archive.
pub fn unarchive(client: &Client, ids: &[u64]) -> (r: Request)
    ensures
        r@.method == Method::Post,
        r@.url == URL@ + "/messages/unarchive"@,
        r@.query == Seq::<HeaderView>::empty(),
        r@.headers == client@.default_headers(),
        r@.body == BodyView::Json(
            "{\"messageIds\":"@ + json_numbers(ids@) + "}"@,
        ),
{
    let mut url = String::from_str(URL);
    url.append("/messages/unarchive");
    let mut text = String::from_str("{\"messageIds\":");
    push_json_numbers(&mut text, ids);
    text.append("}");
    let query: Vec<Header> = Vec::new();
    assert(headers_view(query@) =~= Seq::<HeaderView>::empty());
    client.request_with(Method::Post, url, query, Body::Json(text))
}

/// Marks messages as read.
pub fn mark_as_read(client: &Client, ids: &[u64]) -> (r: Request)
    ensures
        r@.method == Method::Post,
        r@.url == URL@ + "/messages/mark-read"@,
        r@.query == Seq::<HeaderView>::empty(),
        r@.headers == client@.default_headers(),
        r@.body == BodyView::Json(
            "{\"messageIds\":"@ + json_numbers(ids@) + "}"@,
        ),
{
    let mut url = String::from_str(URL);
    url.append("/messages/mark-read");
    let mut text = String::from_str("{\"messageIds\":");
    push_json_numbers(&mut text, ids);
    text.append("}");
    let query: Vec<Header> = Vec::new();
    assert(headers_view(query@) =~= Seq::<HeaderView>::empty());
    client.request_with(Method::Post, url, query, Body::Json(text))
}

/// Marks messages as unread.
pub fn mark_as_unread(client: &Client, ids: &[u64]) -> (r: Request)
    ensures
        r@.method == Method::Post,
        r@.url == URL@ + "/messages/mark-unread"@,
        r@.query == Seq::<HeaderView>::empty(),
        r@.headers == client@.default_headers(),
        r@.body == BodyView::Json(
            "{\"messageIds\":"@ + json_numbers(ids@) + "}"@,
        ),
{
    let mut url = String::from_str(URL);
    url.append("/messages/mark-unread");
    let mut text = String::from_str("{\"messageIds\":");
    push_json_numbers(&mut text, ids);
    text.append("}");
    let query: Vec<Header> = Vec::new();
    assert(headers_view(query@) =~= Seq::<HeaderView>::empty());
    client.request_with(Method::Post, url, query, Body::Json(text))
}

} // verus!
