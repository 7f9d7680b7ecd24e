use crate::DateTime;
use crate::client::{Body, BodyView, Client, Header, HeaderView, Method, Request, headers_view};
use crate::json::json_string_literal;
use crate::wire::push_quoted;
use vstd::prelude::*;
use vstd::string::*;

verus! {

pub const URL: &'static str = "https://apis.roblox.com/auth-token-service/v1";

#[derive(Clone, Debug, PartialEq, Eq, Structural)]
pub enum LoginStatus {
    Created,
    Validated,
}

#[derive(Clone, Debug, PartialEq, Eq)]
pub struct LoginToken {
    pub code: String,
    pub status: String,
    pub private_key: String,
    pub expiration_time: DateTime,
    pub image_path: String,
}

#[derive(Clone, Debug, PartialEq, Eq)]
pub struct LoginTokenStatus {
    pub status: LoginStatus,
    pub account_name: Option<String>,
    pub account_picture_url: Option<String>,
    pub expiration_time: String,
}

#[derive(Clone, Debug, PartialEq, Eq)]
pub struct InspectionInfo {
    pub location: String,
    pub device_info: String,
}

/// Asks for a new login code.
pub fn login_create(client: &Client) -> (r: Request)
    ensures
        r@.method == Method::Post,
        r@.url == URL@ + "/login/create"@,
        r@.query == Seq::<HeaderView>::empty(),
        r@.headers == client@.default_headers(),
        r@.body == BodyView::Empty,
{
    let mut url = String::from_str(URL);
    url.append("/login/create");
    let query: Vec<Header> = Vec::new();
    assert(headers_view(query@) =~= Seq::<HeaderView>::empty());
    client.request_with(Method::Post, url, query, Body::Empty)
}

/// Withdraws a login code.
pub fn login_cancel(client: &Client, code: &str) -> (r: Request)
    ensures
        r@.method == Method::Post,
        r@.url == URL@ + "/login/cancel"@,
        r@.query == Seq::<HeaderView>::empty(),
        r@.headers == client@.default_headers(),
        r@.body == BodyView::Json(
            "{\"code\":"@ + json_string_literal(code@) + "}"@,
        ),
{
    let mut url = String::from_str(URL);
    url.append("/login/cancel");
    let mut text = String::from_str("{\"code\":");
    push_quoted(&mut text, code);
    text.append("}");
    let query: Vec<Header> = Vec::new();
    assert(headers_view(query@) =~= Seq::<HeaderView>::empty());
    client.request_with(Method::Post, url, query, Body::Json(text))
}

/// Asks whether a login code was used.
pub fn login_status(client: &Client, code: &str, key: &str) -> (r: Request)
    ensures
        r@.method == Method::Post,
        r@.url == URL@ + "/login/status"@,
        r@.query == Seq::<HeaderView>::empty(),
        r@.headers == client@.default_headers(),
        r@.body == BodyView::Json(
            "{\"code\":"@
                + json_string_literal(code@)
                + ",\"privateKey\":"@
                + json_string_literal(key@)
                + "}"@,
        ),
{
    let mut url = String::from_str(URL);
    url.append("/login/status");
    let mut text = String::from_str("{\"code\":");
    push_quoted(&mut text, code);
    text.append(",\"privateKey\":");
    push_quoted(&mut text, key);
    text.append("}");
    let query: Vec<Header> = Vec::new();
    assert(headers_view(query@) =~= Seq::<HeaderView>::empty());
    client.request_with(Method::Post, url, query, Body::Json(text))
}

/// Asks where a login code comes from.
pub fn inspect_code(client: &Client, code: &str) -> (r: Request)
    ensures
        r@.method == Method::Post,
        r@.url == URL@ + "/login/enterCode"@,
        r@.query == Seq::<HeaderView>::empty(),
        r@.headers == client@.default_headers(),
        r@.body == BodyView::Json(
            "{\"code\":"@ + json_string_literal(code@) + "}"@,
        ),
{
    let mut url = String::from_str(URL);
    url.append("/login/enterCode");
    let mut text = String::from_str("{\"code\":");
    push_quoted(&mut text, code);
    text.append("}");
    let query: Vec<Header> = Vec::new();
    assert(headers_view(query@) =~= Seq::<HeaderView>::empty());
    client.request_with(Method::Post, url, query, Body::Json(text))
}

/// Confirms a login code.
pub fn validate_code(client: &Client, code: &str) -> (r: Request)
    ensures
        r@.method == Method::Post,
        r@.url == URL@ + "/login/validateCode"@,
        r@.query == Seq::<HeaderView>::empty(),
        r@.headers == client@.default_headers(),
        r@.body == BodyView::Json(
            "{\"code\":"@ + json_string_literal(code@) + "}"@,
        ),
{
    let mut url = String::from_str(URL);
    url.append("/login/validateCode");
    let mut text = String::from_str("{\"code\":");
    push_quoted(&mut text, code);
    text.append("}");
    let query: Vec<Header> = Vec::new();
    assert(headers_view(query@) =~= Seq::<HeaderView>::empty());
    client.request_with(Method::Post, url, query, Body::Json(text))
}

/// Asks for the picture of a login code.
pub fn qr_code_image(client: &Client, key: &str, code: &str) -> (r: Request)
    ensures
        r@.method == Method::Get,
        r@.url == URL@ + "/login/qr-code-image"@,
        r@.query == seq![
            HeaderView { name: "key"@, value: key@ },
            HeaderView { name: "code"@, value: code@ },
        ],
        r@.headers == client@.default_headers(),
        r@.body == BodyView::Empty,
{
    let mut url = String::from_str(URL);
    url.append("/login/qr-code-image");
    let mut query: Vec<Header> = Vec::new();
    query.push(Header::new("key", key));
    query.push(Header::new("code", code));
    assert(headers_view(query@) =~= seq![
        HeaderView { name: "key"@, value: key@ },
        HeaderView { name: "code"@, value: code@ },
    ]);
    client.request_with(Method::Get, url, query, Body::Empty)
}

} // verus!
