use crate::client::{Body, BodyView, Client, Header, HeaderView, Method, Request, headers_view};
use crate::text::decimal_string;
use crate::wire::{limit_or, limit_text, text_or};
use crate::{DateTime, Paging};
use std::collections::HashMap;
use vstd::prelude::*;
use vstd::string::*;

verus! {

pub const URL: &'static str = "https://notifications.roblox.com/v2";

#[derive(Clone, Debug, PartialEq, Eq)]
pub struct NotificationUnreadCount {
    pub count: u64,
    pub status_message: Option<String>,
}

#[derive(Clone, Debug, PartialEq, Eq)]
pub struct ClientEventsPayload {
    pub sender_user_id: Option<String>,
    pub place_id: Option<String>,
    pub root_place_id: Option<String>,
    pub universe_id: Option<String>,
    pub trigger: Option<String>,
}

#[derive(Copy, Clone, Debug, PartialEq, Eq, Structural)]
pub enum VisualItemType {
    Button,
    TextBody,
    Thumbnail,
    MetaAction,
}

#[derive(Clone, Debug, PartialEq, Eq)]
pub struct VisualItemAction {
    pub path: String,
    pub next_state: String,
    pub action_type: String,
    pub fallback_state: String,
}

#[derive(Clone, Debug, PartialEq, Eq)]
pub struct StyledText {
    pub text: String,
    pub styled_elements: Vec<StyledElement>,
}

#[derive(Clone, Debug, PartialEq, Eq)]
pub struct StyledElement {
    pub kind: String,
    pub offset: i32,
    pub length: u32,
}

#[derive(Clone, Debug, PartialEq, Eq)]
pub struct VisualItemTextBody {
    pub kind: VisualItemType,
    pub label: StyledText,
    pub title: Option<StyledText>,
    pub actions: Vec<VisualItemAction>,
    pub event_name: String,
    pub client_events_payload: ClientEventsPayload,
}

#[derive(Clone, Debug, PartialEq, Eq)]
pub struct VisualItemButton {
    pub name: String,
    pub kind: VisualItemType,
    pub label: StyledText,
    pub actions: Vec<VisualItemAction>,
    pub button_style: String,
    pub event_name: String,
    pub client_events_payload: ClientEventsPayload,
}

#[derive(Clone, Debug, PartialEq, Eq)]
pub struct VisualItemThumbnail {
    pub id: String,
    pub id_type: String,
    pub kind: VisualItemType,
}

#[derive(Clone, Debug, PartialEq, Eq)]
pub struct VisualItemMetaAction {
    pub name: String,
    pub kind: VisualItemType,
    pub label: StyledText,
    pub actions: Vec<VisualItemAction>,
    pub action_icon: String,
    pub event_name: String,
    pub client_events_payload: ClientEventsPayload,
}

#[derive(Clone, Debug, PartialEq, Eq)]
pub struct VisualItems {
    pub button: Vec<VisualItemButton>,
    pub text_body: Vec<VisualItemTextBody>,
    pub thumbnail: Vec<VisualItemThumbnail>,
    pub meta_action: Vec<VisualItemMetaAction>,
}

#[derive(Clone, Debug, PartialEq, Eq)]
pub struct NotificationContentStateDefault {
    pub layout_key: String,
    pub visual_items: VisualItems,
}

#[derive(Clone, Debug, PartialEq, Eq)]
pub struct NotificationContent {
    pub notification_type: String,
    pub min_version: String,
    pub time_before_refresh: String,
    pub client_events_payload: ClientEventsPayload,
    pub bundle_key: String,
    pub current_state: String,
    pub states: HashMap<String, NotificationContentStateDefault>,
}

#[derive(Clone, Debug, PartialEq, Eq)]
pub struct Notification {
    pub id: String,
    pub notification_source_type: String,
    pub event_date: DateTime,
    pub timestamp: String,
    pub is_interacted: bool,
    pub metadata_collection: Vec<u64>,
    pub event_count: u64,
    pub content: NotificationContent,
}

/// Asks how many notifications are unread.
pub fn unread_count(client: &Client) -> (r: Request)
    ensures
        r@.method == Method::Get,
        r@.url == URL@ + "/stream-notifications/unread-count"@,
        r@.query == Seq::<HeaderView>::empty(),
        r@.headers == client@.default_headers(),
        r@.body == BodyView::Empty,
{
    let mut url = String::from_str(URL);
    url.append("/stream-notifications/unread-count");
    let query: Vec<Header> = Vec::new();
    assert(headers_view(query@) =~= Seq::<HeaderView>::empty());
    client.request_with(Method::Get, url, query, Body::Empty)
}

/// Asks for the latest notifications.
pub fn recent(client: &Client, paging: Paging<'_>) -> (r: Request)
    ensures
        r@.method == Method::Get,
        r@.url == URL@ + "/stream-notifications/get-recent"@,
        r@.query == seq![
            HeaderView { name: "maxRows"@, value: limit_text(paging.limit, 20) },
            HeaderView { name: "startIndex"@, value: text_or(paging.cursor, ""@) },
        ],
        r@.headers == client@.default_headers(),
        r@.body == BodyView::Empty,
{
    let mut url = String::from_str(URL);
    url.append("/stream-notifications/get-recent");
    let max_rows = decimal_string(limit_or(paging.limit, 20) as u64);
    let start_index = match paging.cursor {
        Some(text) => text,
        None => "",
    };
    let mut query: Vec<Header> = Vec::new();
    query.push(Header::new("maxRows", max_rows.as_str()));
    query.push(Header::new("startIndex", start_index));
    assert(headers_view(query@) =~= seq![
        HeaderView { name: "maxRows"@, value: limit_text(paging.limit, 20) },
        HeaderView { name: "startIndex"@, value: text_or(paging.cursor, ""@) },
    ]);
    client.request_with(Method::Get, url, query, Body::Empty)
}

/// Marks every notification as read.
pub fn clear_unread(client: &Client) -> (r: Request)
    ensures
        r@.method == Method::Post,
        r@.url == URL@ + "/stream-notifications/clear-unread"@,
        r@.query == Seq::<HeaderView>::empty(),
        r@.headers == client@.default_headers(),
        r@.body == BodyView::Empty,
{
    let mut url = String::from_str(URL);
    url.append("/stream-notifications/clear-unread");
    let query: Vec<Header> = Vec::new();
    assert(headers_view(query@) =~= Seq::<HeaderView>::empty());
    client.request_with(Method::Post, url, query, Body::Empty)
}

/// Dismisses one notification.
pub fn dismiss(client: &Client, id: &str) -> (r: Request)
    ensures
        r@.method == Method::Post,
        r@.url == URL@
            + "/stream-notifications/clear-unread/action/"@
            + id@
            + "/SpecialItemIgnoreAction"@,
        r@.query == Seq::<HeaderView>::empty(),
        r@.headers == client@.default_headers(),
        r@.body == BodyView::Empty,
{
    let mut url = String::from_str(URL);
    url.append("/stream-notifications/clear-unread/action/");
    url.append(id);
    url.append("/SpecialItemIgnoreAction");
    let query: Vec<Header> = Vec::new();
    assert(headers_view(query@) =~= Seq::<HeaderView>::empty());
    client.request_with(Method::Post, url, query, Body::Empty)
}

} // verus!
