use crate::Currency;
use crate::client::RequestView;
use crate::client::{Body, BodyView, Client, Header, HeaderView, Method, Request, headers_view};
use crate::json::json_string_literal;
use crate::text::{decimal, push_decimal};
use crate::wire::push_quoted;
use vstd::prelude::*;
use vstd::string::*;

verus! {

pub const URL: &'static str = "https://apis.roblox.com/marketplace-sales/v1";

#[derive(Clone, Debug, PartialEq, Eq, Structural)]
pub enum MarketEntityType {
    User,
}

impl Default for MarketEntityType {
    fn default() -> (r: Self)
        ensures
            r == MarketEntityType::User,
    {
        MarketEntityType::User
    }
}

impl MarketEntityType {
    /// The variant's name, as it is written on the wire.
    pub open spec fn name_spec(self) -> Seq<char> {
        match self {
            MarketEntityType::User => "User"@,
        }
    }

    pub fn name(&self) -> (r: &'static str)
        ensures
            r@ == self.name_spec(),
    {
        match self {
            MarketEntityType::User => "User",
        }
    }
}

#[derive(Clone, Debug, PartialEq, Eq)]
pub struct MarketEntity {
    pub id: u64,
    pub kind: MarketEntityType,
}

#[derive(Clone, Debug, PartialEq, Eq)]
pub struct PurchaseResponse {
    pub pending: bool,
    pub purchased: bool,
    pub purchase_result: String,
    pub error: Option<String>,
}

/// The request that buys a collectible under the key `key`.
pub open spec fn purchase_request(
    headers: Seq<HeaderView>,
    asset_id: Seq<char>,
    product_id: Seq<char>,
    price: u64,
    currency: Currency,
    purchaser: MarketEntity,
    seller: MarketEntity,
    key: Seq<char>,
) -> RequestView {
    RequestView {
        method: Method::Post,
        url: URL@ + "/item/"@ + asset_id + "/purchase-item"@,
        query: Seq::empty(),
        headers,
        body: BodyView::Json(
            "{\"collectibleItemId\":"@ + json_string_literal(asset_id)
                + ",\"collectibleProductId\":"@ + json_string_literal(product_id)
                + ",\"expectedCurrency\":"@ + decimal(currency.id_spec() as nat)
                + ",\"expectedPrice\":"@ + decimal(price as nat) + ",\"expectedPurchaserId\":"@
                + decimal(purchaser.id as nat) + ",\"expectedPurchaserType\":\""@
                + purchaser.kind.name_spec() + "\",\"expectedSellerId\":"@ + decimal(
                seller.id as nat,
            ) + ",\"expectedSellerType\":\""@ + seller.kind.name_spec() + "\",\"idempotencyKey\":"@
                + json_string_literal(key) + "}"@,
        ),
    }
}

/// Buys a collectible. The key tells the server apart two purchases from
/// one purchase sent twice.
pub fn purchase_with_key(
    client: &Client,
    asset_id: &str,
    product_id: &str,
    price: u64,
    currency: Currency,
    purchaser: &MarketEntity,
    seller: &MarketEntity,
    idempotency_key: &str,
) -> (r: Request)
    ensures
        r@ == purchase_request(
            client@.default_headers(),
            asset_id@,
            product_id@,
            price,
            currency,
            *purchaser,
            *seller,
            idempotency_key@,
        ),
{
    let mut url = String::from_str(URL);
    url.append("/item/");
    url.append(asset_id);
    url.append("/purchase-item");
    let mut text = String::from_str("{\"collectibleItemId\":");
    push_quoted(&mut text, asset_id);
    text.append(",\"collectibleProductId\":");
    push_quoted(&mut text, product_id);
    text.append(",\"expectedCurrency\":");
    push_decimal(&mut text, currency.id() as u64);
    text.append(",\"expectedPrice\":");
    push_decimal(&mut text, price as u64);
    text.append(",\"expectedPurchaserId\":");
    push_decimal(&mut text, purchaser.id as u64);
    text.append(",\"expectedPurchaserType\":\"");
    text.append(purchaser.kind.name());
    text.append("\",\"expectedSellerId\":");
    push_decimal(&mut text, seller.id as u64);
    text.append(",\"expectedSellerType\":\"");
    text.append(seller.kind.name());
    text.append("\",\"idempotencyKey\":");
    push_quoted(&mut text, idempotency_key);
    text.append("}");
    let query: Vec<Header> = Vec::new();
    assert(headers_view(query@) =~= Seq::<HeaderView>::empty());
    client.request_with(Method::Post, url, query, Body::Json(text))
}

/// Calls `Uuid::new_v4` of the crate uuid and writes the identifier with its
/// `Display`. The identifier is made from random bits, so nothing is
/// promised of the text.
#[verifier::external_body]
fn fresh_key() -> (r: String) {
    uuid::Uuid::new_v4().to_string()
}

/// Buys a collectible, under a key that is made afresh for this purchase.
pub fn purchase(
    client: &Client,
    asset_id: &str,
    product_id: &str,
    price: u64,
    currency: Currency,
    purchaser: &MarketEntity,
    seller: &MarketEntity,
) -> (r: Request)
    ensures
        exists|key: Seq<char>|
            r@ == purchase_request(
                client@.default_headers(),
                asset_id@,
                product_id@,
                price,
                currency,
                *purchaser,
                *seller,
                key,
            ),
{
    let key = fresh_key();
    purchase_with_key(client, asset_id, product_id, price, currency, purchaser, seller, key.as_str())
}

} // verus!
