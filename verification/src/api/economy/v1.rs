use crate::Currency;
use crate::client::{Body, BodyView, Client, Header, HeaderView, Method, Request, headers_view};
use crate::text::{decimal, push_decimal};
use crate::wire::{optional_number, push_optional_number};
use vstd::prelude::*;
use vstd::string::*;

verus! {

pub const URL: &'static str = "https://economy.roblox.com/v1";

#[derive(Clone, Debug, PartialEq, Eq)]
pub struct PurchaseResponse {
    pub purchased: bool,
}

/// Buys a product at the price that the buyer expects.
pub fn purchase(
    client: &Client,
    product_id: u64,
    price: u64,
    currency: Currency,
    seller_user_id: Option<u64>,
) -> (r: Request)
    ensures
        r@.method == Method::Post,
        r@.url == URL@ + "/purchases/products/"@ + decimal(product_id as nat),
        r@.query == Seq::<HeaderView>::empty(),
        r@.headers == client@.default_headers(),
        r@.body == BodyView::Json(
            "{\"expectedCurrency\":"@
                + decimal(currency.id_spec() as nat)
                + ",\"expectedPrice\":"@
                + decimal(price as nat)
                + ",\"expectedSellerId\":"@
                + optional_number(seller_user_id)
                + "}"@,
        ),
{
    let mut url = String::from_str(URL);
    url.append("/purchases/products/");
    push_decimal(&mut url, product_id as u64);
    let mut text = String::from_str("{\"expectedCurrency\":");
    push_decimal(&mut text, currency.id() as u64);
    text.append(",\"expectedPrice\":");
    push_decimal(&mut text, price as u64);
    text.append(",\"expectedSellerId\":");
    push_optional_number(&mut text, seller_user_id);
    text.append("}");
    let query: Vec<Header> = Vec::new();
    assert(headers_view(query@) =~= Seq::<HeaderView>::empty());
    client.request_with(Method::Post, url, query, Body::Json(text))
}

/// Asks how much money the user of the session has.
pub fn currency(client: &Client) -> (r: Request)
    ensures
        r@.method == Method::Get,
        r@.url == URL@ + "/user/currency"@,
        r@.query == Seq::<HeaderView>::empty(),
        r@.headers == client@.default_headers(),
        r@.body == BodyView::Empty,
{
    let mut url = String::from_str(URL);
    url.append("/user/currency");
    let query: Vec<Header> = Vec::new();
    assert(headers_view(query@) =~= Seq::<HeaderView>::empty());
    client.request_with(Method::Get, url, query, Body::Empty)
}

/// Asks how much money a user has.
pub fn currency_from_user_id(client: &Client, id: u64) -> (r: Request)
    ensures
        r@.method == Method::Get,
        r@.url == URL@ + "/users/"@ + decimal(id as nat) + "/currency"@,
        r@.query == Seq::<HeaderView>::empty(),
        r@.headers == client@.default_headers(),
        r@.body == BodyView::Empty,
{
    let mut url = String::from_str(URL);
    url.append("/users/");
    push_decimal(&mut url, id as u64);
    url.append("/currency");
    let query: Vec<Header> = Vec::new();
    assert(headers_view(query@) =~= Seq::<HeaderView>::empty());
    client.request_with(Method::Get, url, query, Body::Empty)
}

} // verus!
