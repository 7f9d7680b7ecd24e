use crate::Paging;
use crate::client::{Body, BodyView, Client, Header, HeaderView, Method, Request, headers_view};
use crate::text::{decimal, decimal_string, push_decimal};
use crate::wire::{
    bool_name, json_numbers, limit_or, limit_text, optional_bool_text, push_json_numbers, text_or,
};
use vstd::prelude::*;
use vstd::string::*;

verus! {

pub const URL: &'static str = "https://avatar.roblox.com/v1";

pub type ColorId = u8;

/// One of the values that the server numbers.
#[derive(Copy, Clone, Debug, PartialEq, Eq, Structural)]
pub enum AvatarType {
    R6,
    R15,
}

impl AvatarType {
    /// The number that stands for the variant on the wire.
    pub open spec fn id_spec(self) -> u8 {
        match self {
            AvatarType::R6 => 1,
            AvatarType::R15 => 2,
        }
    }

    pub fn id(self) -> (r: u8)
        ensures
            r == self.id_spec(),
    {
        match self {
            AvatarType::R6 => 1,
            AvatarType::R15 => 2,
        }
    }

    /// The variant that a number stands for, if it stands for one.
    pub fn from_repr(value: u8) -> (r: Option<AvatarType>)
        ensures
            match r {
                Some(v) => v.id_spec() == value,
                None => forall|v: AvatarType| v.id_spec() != value,
            },
    {
        if value == 1 {
            Some(AvatarType::R6)
        } else if value == 2 {
            Some(AvatarType::R15)
        } else {
            None
        }
    }
}

impl AvatarType {
    /// The variant's name, as it is written on the wire.
    pub open spec fn name_spec(self) -> Seq<char> {
        match self {
            AvatarType::R6 => "R6"@,
            AvatarType::R15 => "R15"@,
        }
    }

    pub fn name(&self) -> (r: &'static str)
        ensures
            r@ == self.name_spec(),
    {
        match self {
            AvatarType::R6 => "R6",
            AvatarType::R15 => "R15",
        }
    }
}

/// One of the values that the server numbers.
#[derive(Copy, Clone, Debug, PartialEq, Eq, Structural)]
pub enum MorphAvatarType {
    MorphR6,
    MorphR15,
}

impl MorphAvatarType {
    /// The number that stands for the variant on the wire.
    pub open spec fn id_spec(self) -> u8 {
        match self {
            MorphAvatarType::MorphR6 => 1,
            MorphAvatarType::MorphR15 => 2,
        }
    }

    pub fn id(self) -> (r: u8)
        ensures
            r == self.id_spec(),
    {
        match self {
            MorphAvatarType::MorphR6 => 1,
            MorphAvatarType::MorphR15 => 2,
        }
    }

    /// The variant that a number stands for, if it stands for one.
    pub fn from_repr(value: u8) -> (r: Option<MorphAvatarType>)
        ensures
            match r {
                Some(v) => v.id_spec() == value,
                None => forall|v: MorphAvatarType| v.id_spec() != value,
            },
    {
        if value == 1 {
            Some(MorphAvatarType::MorphR6)
        } else if value == 2 {
            Some(MorphAvatarType::MorphR15)
        } else {
            None
        }
    }
}

impl MorphAvatarType {
    /// The variant's name, as it is written on the wire.
    pub open spec fn name_spec(self) -> Seq<char> {
        match self {
            MorphAvatarType::MorphR6 => "MorphR6"@,
            MorphAvatarType::MorphR15 => "MorphR15"@,
        }
    }

    pub fn name(&self) -> (r: &'static str)
        ensures
            r@ == self.name_spec(),
    {
        match self {
            MorphAvatarType::MorphR6 => "MorphR6",
            MorphAvatarType::MorphR15 => "MorphR15",
        }
    }
}

#[derive(Clone, Debug, PartialEq, Eq)]
pub struct BodyColors {
    pub head: ColorId,
    pub torso: ColorId,
    pub right_arm: ColorId,
    pub left_arm: ColorId,
    pub right_leg: ColorId,
    pub left_leg: ColorId,
}

#[derive(Clone, Debug, PartialEq, Eq)]
pub struct AssetType {
    pub id: u8,
    pub name: String,
}

#[derive(Clone, Debug, PartialEq, Eq)]
pub struct Emote {
    pub id: u64,
    pub name: String,
    pub position: u8,
}

#[derive(Clone, Debug, PartialEq, Eq)]
pub struct Outfit {
    pub id: u64,
    pub name: String,
    pub is_editable: bool,
    pub outfit_type: Option<()>,
}

#[derive(Clone, Debug, PartialEq)]
pub struct OutfitsResponse {
    pub outfits: Vec<Outfit>,
    pub total: u64,
    pub filtered_count: u64,
}

/// Asks for the avatar of a user.
pub fn user_avatar(client: &Client, id: u64) -> (r: Request)
    ensures
        r@.method == Method::Get,
        r@.url == URL@ + "/users/"@ + decimal(id as nat) + "/avatar"@,
        r@.query == Seq::<HeaderView>::empty(),
        r@.headers == client@.default_headers(),
        r@.body == BodyView::Empty,
{
    let mut url = String::from_str(URL);
    url.append("/users/");
    push_decimal(&mut url, id as u64);
    url.append("/avatar");
    let query: Vec<Header> = Vec::new();
    assert(headers_view(query@) =~= Seq::<HeaderView>::empty());
    client.request_with(Method::Get, url, query, Body::Empty)
}

/// Asks for the assets that a user wears.
pub fn user_currently_wearing(client: &Client, id: u64) -> (r: Request)
    ensures
        r@.method == Method::Get,
        r@.url == URL@ + "/users/"@ + decimal(id as nat) + "/currently-wearing"@,
        r@.query == Seq::<HeaderView>::empty(),
        r@.headers == client@.default_headers(),
        r@.body == BodyView::Empty,
{
    let mut url = String::from_str(URL);
    url.append("/users/");
    push_decimal(&mut url, id as u64);
    url.append("/currently-wearing");
    let query: Vec<Header> = Vec::new();
    assert(headers_view(query@) =~= Seq::<HeaderView>::empty());
    client.request_with(Method::Get, url, query, Body::Empty)
}

/// Dresses the avatar in the given assets.
pub fn avatar_set_wearing_assets(client: &Client, assets: &[u64]) -> (r: Request)
    ensures
        r@.method == Method::Post,
        r@.url == URL@ + "/avatar/set-wearing-assets"@,
        r@.query == Seq::<HeaderView>::empty(),
        r@.headers == client@.default_headers(),
        r@.body == BodyView::Json(
            "{\"assetIds\":"@ + json_numbers(assets@) + "}"@,
        ),
{
    let mut url = String::from_str(URL);
    url.append("/avatar/set-wearing-assets");
    let mut text = String::from_str("{\"assetIds\":");
    push_json_numbers(&mut text, assets);
    text.append("}");
    let query: Vec<Header> = Vec::new();
    assert(headers_view(query@) =~= Seq::<HeaderView>::empty());
    client.request_with(Method::Post, url, query, Body::Json(text))
}

/// Chooses between the two kinds of avatar.
pub fn avatar_set_type(client: &Client, kind: AvatarType) -> (r: Request)
    ensures
        r@.method == Method::Post,
        r@.url == URL@ + "/avatar/set-player-avatar-type"@,
        r@.query == Seq::<HeaderView>::empty(),
        r@.headers == client@.default_headers(),
        r@.body == BodyView::Json(
            "{\"playerAvatarType\":\""@ + kind.name_spec() + "\"}"@,
        ),
{
    let mut url = String::from_str(URL);
    url.append("/avatar/set-player-avatar-type");
    let mut text = String::from_str("{\"playerAvatarType\":\"");
    text.append(kind.name());
    text.append("\"}");
    let query: Vec<Header> = Vec::new();
    assert(headers_view(query@) =~= Seq::<HeaderView>::empty());
    client.request_with(Method::Post, url, query, Body::Json(text))
}

/// Paints the parts of the avatar.
pub fn avatar_set_body_colors(client: &Client, colors: &BodyColors) -> (r: Request)
    ensures
        r@.method == Method::Post,
        r@.url == URL@ + "/avatar/set-body-colors"@,
        r@.query == Seq::<HeaderView>::empty(),
        r@.headers == client@.default_headers(),
        r@.body == BodyView::Json(
            "{\"headColorId\":"@
                + decimal(colors.head as nat)
                + ",\"torsoColorId\":"@
                + decimal(colors.torso as nat)
                + ",\"rightArmColorId\":"@
                + decimal(colors.right_arm as nat)
                + ",\"leftArmColorId\":"@
                + decimal(colors.left_arm as nat)
                + ",\"rightLegColorId\":"@
                + decimal(colors.right_leg as nat)
                + ",\"leftLegColorId\":"@
                + decimal(colors.left_leg as nat)
                + "}"@,
        ),
{
    let mut url = String::from_str(URL);
    url.append("/avatar/set-body-colors");
    let mut text = String::from_str("{\"headColorId\":");
    push_decimal(&mut text, colors.head as u64);
    text.append(",\"torsoColorId\":");
    push_decimal(&mut text, colors.torso as u64);
    text.append(",\"rightArmColorId\":");
    push_decimal(&mut text, colors.right_arm as u64);
    text.append(",\"leftArmColorId\":");
    push_decimal(&mut text, colors.left_arm as u64);
    text.append(",\"rightLegColorId\":");
    push_decimal(&mut text, colors.right_leg as u64);
    text.append(",\"leftLegColorId\":");
    push_decimal(&mut text, colors.left_leg as u64);
    text.append("}");
    let query: Vec<Header> = Vec::new();
    assert(headers_view(query@) =~= Seq::<HeaderView>::empty());
    client.request_with(Method::Post, url, query, Body::Json(text))
}

/// Asks for the outfits of a user, one page of them.
pub fn user_outfits(
    client: &Client,
    id: u64,
    paging: Paging<'_>,
    is_editable: Option<bool>,
) -> (r: Request)
    ensures
        r@.method == Method::Get,
        r@.url == URL@ + "/users/"@ + decimal(id as nat) + "/outfits"@,
        r@.query == seq![
            HeaderView { name: "page"@, value: text_or(paging.cursor, "1"@) },
            HeaderView { name: "itemsPerPage"@, value: limit_text(paging.limit, 25) },
            HeaderView { name: "isEditable"@, value: optional_bool_text(is_editable) },
        ],
        r@.headers == client@.default_headers(),
        r@.body == BodyView::Empty,
{
    let mut url = String::from_str(URL);
    url.append("/users/");
    push_decimal(&mut url, id as u64);
    url.append("/outfits");
    let page = match paging.cursor {
        Some(text) => text,
        None => "1",
    };
    let items_per_page = decimal_string(limit_or(paging.limit, 25) as u64);
    let is_editable_text = match is_editable {
        Some(b) => bool_name(b),
        None => "",
    };
    let mut query: Vec<Header> = Vec::new();
    query.push(Header::new("page", page));
    query.push(Header::new("itemsPerPage", items_per_page.as_str()));
    query.push(Header::new("isEditable", is_editable_text));
    assert(headers_view(query@) =~= seq![
        HeaderView { name: "page"@, value: text_or(paging.cursor, "1"@) },
        HeaderView { name: "itemsPerPage"@, value: limit_text(paging.limit, 25) },
        HeaderView { name: "isEditable"@, value: optional_bool_text(is_editable) },
    ]);
    client.request_with(Method::Get, url, query, Body::Empty)
}

/// Asks for what an outfit is made of.
pub fn outfit_details(client: &Client, id: u64) -> (r: Request)
    ensures
        r@.method == Method::Get,
        r@.url == URL@ + "/outfits/"@ + decimal(id as nat) + "/details"@,
        r@.query == Seq::<HeaderView>::empty(),
        r@.headers == client@.default_headers(),
        r@.body == BodyView::Empty,
{
    let mut url = String::from_str(URL);
    url.append("/outfits/");
    push_decimal(&mut url, id as u64);
    url.append("/details");
    let query: Vec<Header> = Vec::new();
    assert(headers_view(query@) =~= Seq::<HeaderView>::empty());
    client.request_with(Method::Get, url, query, Body::Empty)
}

/// Deletes an outfit.
pub fn remove_outfit(client: &Client, id: u64) -> (r: Request)
    ensures
        r@.method == Method::Post,
        r@.url == URL@ + "/outfits/"@ + decimal(id as nat) + "/delete"@,
        r@.query == Seq::<HeaderView>::empty(),
        r@.headers == client@.default_headers(),
        r@.body == BodyView::Empty,
{
    let mut url = String::from_str(URL);
    url.append("/outfits/");
    push_decimal(&mut url, id as u64);
    url.append("/delete");
    let query: Vec<Header> = Vec::new();
    assert(headers_view(query@) =~= Seq::<HeaderView>::empty());
    client.request_with(Method::Post, url, query, Body::Empty)
}

/// Asks for the avatar settings of a universe.
pub fn universe_avatar_settings(client: &Client, id: u64) -> (r: Request)
    ensures
        r@.method == Method::Get,
        r@.url == URL@ + "/users/"@ + decimal(id as nat) + "/avatar"@,
        r@.query == Seq::<HeaderView>::empty(),
        r@.headers == client@.default_headers(),
        r@.body == BodyView::Empty,
{
    let mut url = String::from_str(URL);
    url.append("/users/");
    push_decimal(&mut url, id as u64);
    url.append("/avatar");
    let query: Vec<Header> = Vec::new();
    assert(headers_view(query@) =~= Seq::<HeaderView>::empty());
    client.request_with(Method::Get, url, query, Body::Empty)
}

} // verus!
