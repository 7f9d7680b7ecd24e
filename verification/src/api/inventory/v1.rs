use crate::client::{Body, BodyView, Client, Header, HeaderView, Method, Request, headers_view};
use crate::text::{decimal, decimal_string, push_decimal};
use crate::wire::{limit_or, limit_text, order_or_default, order_text, text_or};
use crate::{AssetTypeId, Paging};
use vstd::prelude::*;
use vstd::string::*;

verus! {

pub const URL: &'static str = "https://inventory.roblox.com/v1";

/// One of the values that the server numbers.
#[derive(Clone, Debug)]
pub enum ItemType {
    Asset,
    Gamepass,
    Badge,
    Bundle,
}

impl ItemType {
    /// The number that stands for the variant on the wire.
    pub open spec fn id_spec(self) -> u8 {
        match self {
            ItemType::Asset => 0,
            ItemType::Gamepass => 1,
            ItemType::Badge => 2,
            ItemType::Bundle => 3,
        }
    }

    pub fn id(self) -> (r: u8)
        ensures
            r == self.id_spec(),
    {
        match self {
            ItemType::Asset => 0,
            ItemType::Gamepass => 1,
            ItemType::Badge => 2,
            ItemType::Bundle => 3,
        }
    }

    /// The variant that a number stands for, if it stands for one.
    pub fn from_repr(value: u8) -> (r: Option<ItemType>)
        ensures
            match r {
                Some(v) => v.id_spec() == value,
                None => forall|v: ItemType| v.id_spec() != value,
            },
    {
        if value == 0 {
            Some(ItemType::Asset)
        } else if value == 1 {
            Some(ItemType::Gamepass)
        } else if value == 2 {
            Some(ItemType::Badge)
        } else if value == 3 {
            Some(ItemType::Bundle)
        } else {
            None
        }
    }
}

#[derive(Clone, Debug)]
pub struct AssetInfo {
    pub id: u64,
    pub kind: String,
    pub name: String,
    pub instance_id: u64,
}

#[derive(Clone, Debug)]
pub struct UserOwnsAssets {
    pub next_cursor: Option<String>,
    pub previous_cursor: Option<String>,
    pub assets: Vec<AssetInfo>,
}

#[derive(Clone, Debug)]
pub struct CollectibleInfo {
    pub id: u64,
    pub original_price: u64,
    pub recent_average_price: u64,
    pub stock: u64,
    pub instance_id: u64,
    pub name: String,
    pub premium_membership_type: String,
    pub on_hold: bool,
    pub serial: Option<u64>,
}

#[derive(Clone, Debug)]
pub struct UserOwnedCollectibles {
    pub next_cursor: Option<String>,
    pub previous_cursor: Option<String>,
    pub assets: Vec<CollectibleInfo>,
}

/// The number of the asset type, or nothing where none was asked for.
pub open spec fn type_text(asset_type_id: Option<AssetTypeId>) -> Seq<char> {
    match asset_type_id {
        Some(t) => decimal(t.id_spec() as nat),
        None => ""@,
    }
}

/// Asks whether the inventory of a user may be seen.
pub fn can_view_inventory(client: &Client, user_id: u64) -> (r: Request)
    ensures
        r@.method == Method::Get,
        r@.url == URL@ + "/users/"@ + decimal(user_id as nat) + "/can-view-inventory"@,
        r@.query == Seq::<HeaderView>::empty(),
        r@.headers == client@.default_headers(),
        r@.body == BodyView::Empty,
{
    let mut url = String::from_str(URL);
    url.append("/users/");
    push_decimal(&mut url, user_id as u64);
    url.append("/can-view-inventory");
    let query: Vec<Header> = Vec::new();
    assert(headers_view(query@) =~= Seq::<HeaderView>::empty());
    client.request_with(Method::Get, url, query, Body::Empty)
}

/// Asks whether a user owns an item, and which copies of it.
pub fn user_owns_assets(
    client: &Client,
    user_id: u64,
    id: u64,
    item_type: ItemType,
    paging: Paging<'_>,
) -> (r: Request)
    ensures
        r@.method == Method::Get,
        r@.url == URL@
            + "/users/"@
            + decimal(user_id as nat)
            + "/items/"@
            + decimal(item_type.id_spec() as nat)
            + "/"@
            + decimal(id as nat),
        r@.query == seq![
            HeaderView { name: "cursor"@, value: text_or(paging.cursor, ""@) },
        ],
        r@.headers == client@.default_headers(),
        r@.body == BodyView::Empty,
{
    let mut url = String::from_str(URL);
    url.append("/users/");
    push_decimal(&mut url, user_id as u64);
    url.append("/items/");
    push_decimal(&mut url, item_type.id() as u64);
    url.append("/");
    push_decimal(&mut url, id as u64);
    let cursor = match paging.cursor {
        Some(text) => text,
        None => "",
    };
    let mut query: Vec<Header> = Vec::new();
    query.push(Header::new("cursor", cursor));
    assert(headers_view(query@) =~= seq![
        HeaderView { name: "cursor"@, value: text_or(paging.cursor, ""@) },
    ]);
    client.request_with(Method::Get, url, query, Body::Empty)
}

/// Asks for the collectibles of a user, one page of them.
pub fn user_owned_collectibles(
    client: &Client,
    user_id: u64,
    asset_type_id: Option<AssetTypeId>,
    paging: Paging<'_>,
) -> (r: Request)
    ensures
        r@.method == Method::Get,
        r@.url == URL@ + "/users/"@ + decimal(user_id as nat) + "/assets/collectibles"@,
        r@.query == seq![
            HeaderView { name: "assetType"@, value: type_text(asset_type_id) },
            HeaderView { name: "limit"@, value: limit_text(paging.limit, 10) },
            HeaderView { name: "sortOrder"@, value: order_text(paging.order) },
            HeaderView { name: "cursor"@, value: text_or(paging.cursor, ""@) },
        ],
        r@.headers == client@.default_headers(),
        r@.body == BodyView::Empty,
{
    let mut url = String::from_str(URL);
    url.append("/users/");
    push_decimal(&mut url, user_id as u64);
    url.append("/assets/collectibles");
    let asset_type = match asset_type_id {
        Some(t) => decimal_string(t.id() as u64),
        None => String::from_str(""),
    };
    let limit = decimal_string(limit_or(paging.limit, 10) as u64);
    let cursor = match paging.cursor {
        Some(text) => text,
        None => "",
    };
    let mut query: Vec<Header> = Vec::new();
    query.push(Header::new("assetType", asset_type.as_str()));
    query.push(Header::new("limit", limit.as_str()));
    query.push(Header::new("sortOrder", order_or_default(paging.order).name()));
    query.push(Header::new("cursor", cursor));
    assert(headers_view(query@) =~= seq![
        HeaderView { name: "assetType"@, value: type_text(asset_type_id) },
        HeaderView { name: "limit"@, value: limit_text(paging.limit, 10) },
        HeaderView { name: "sortOrder"@, value: order_text(paging.order) },
        HeaderView { name: "cursor"@, value: text_or(paging.cursor, ""@) },
    ]);
    client.request_with(Method::Get, url, query, Body::Empty)
}

} // verus!
