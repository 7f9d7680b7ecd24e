use crate::DateTime;
use crate::client::{Body, BodyView, Client, Header, HeaderView, Method, Request, headers_view};
use crate::text::{decimal, push_decimal};
use vstd::prelude::*;
use vstd::string::*;

verus! {

pub const URL: &'static str = "https://economy.roblox.com/v2";

#[derive(Clone, Debug, PartialEq, Eq, Structural)]
pub enum ProductType {
    Collectible,
}

#[derive(Clone, Debug, PartialEq, Eq, Structural)]
pub enum CreatorType {
    User,
    Group,
}

#[derive(Clone, Debug, PartialEq, Eq)]
pub struct Creator {
    pub id: u64,
    pub name: String,
    pub kind: CreatorType,
    pub target_id: u64,
    pub is_verified: bool,
}

#[derive(Clone, Debug, PartialEq, Eq)]
pub struct SaleLocation {
    pub kind: u8,
    pub universe_ids: Vec<u64>,
}

#[derive(Clone, Debug, PartialEq, Eq)]
pub struct CollectibleDetails {
    pub lowest_resale_price: Option<u64>,
    pub lowest_available_product_id: Option<String>,
    pub lowest_available_instance_id: Option<String>,
    pub quantity_limit_per_user: Option<u64>,
    pub is_for_sale: bool,
    pub is_limited: bool,
    pub quantity: u64,
}

#[derive(Clone, Debug, PartialEq, Eq)]
pub struct DetailsResponse {
    pub id: u64,
    pub target_id: u64,
    pub product_id: u64,
    pub product_type: ProductType,
    pub name: String,
    pub description: String,
    pub asset_type_id: u8,
    pub creator: Creator,
    pub icon_image_asset_id: u64,
    pub created: DateTime,
    pub updated: DateTime,
    pub robux_price: u64,
    pub tickets_price: Option<u64>,
    pub sales: u64,
    pub remaining: u64,
    pub on_sale: bool,
    pub is_new: bool,
    pub is_public_domain: bool,
    pub is_limited: bool,
    pub is_limited_unique: bool,
    pub minimum_membership_level: u8,
    pub content_rating_type_id: u8,
    pub sale_availability_locations: Option<Vec<String>>,
    pub sale_location: SaleLocation,
    pub collectible_id: String,
    pub collectible_product_id: String,
    pub collectible_details: CollectibleDetails,
}

/// Asks for what an asset costs and who sells it.
pub fn details(client: &Client, id: u64) -> (r: Request)
    ensures
        r@.method == Method::Get,
        r@.url == URL@ + "/assets/"@ + decimal(id as nat) + "/details"@,
        r@.query == Seq::<HeaderView>::empty(),
        r@.headers == client@.default_headers(),
        r@.body == BodyView::Empty,
{
    let mut url = String::from_str(URL);
    url.append("/assets/");
    push_decimal(&mut url, id as u64);
    url.append("/details");
    let query: Vec<Header> = Vec::new();
    assert(headers_view(query@) =~= Seq::<HeaderView>::empty());
    client.request_with(Method::Get, url, query, Body::Empty)
}

} // verus!
