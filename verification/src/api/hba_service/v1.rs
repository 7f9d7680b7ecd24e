use crate::client::{Body, BodyView, Client, Header, HeaderView, Method, Request, headers_view};
use vstd::prelude::*;
use vstd::string::*;

verus! {

pub const URL: &'static str = "https://apis.roblox.com/hba-service/v1";

/// Asks for a nonce to sign a login with.
pub fn server_nonce(client: &Client) -> (r: Request)
    ensures
        r@.method == Method::Get,
        r@.url == URL@ + "/getservernonce"@,
        r@.query == Seq::<HeaderView>::empty(),
        r@.headers == client@.default_headers(),
        r@.body == BodyView::Empty,
{
    let mut url = String::from_str(URL);
    url.append("/getservernonce");
    let query: Vec<Header> = Vec::new();
    assert(headers_view(query@) =~= Seq::<HeaderView>::empty());
    client.request_with(Method::Get, url, query, Body::Empty)
}

/// The nonce in the body of a response to `server_nonce`: the body's text
/// without its first and its last character, which are the quotes round it.
pub open spec fn nonce_text(body: Seq<char>) -> Seq<char> {
    body.subrange(1, body.len() - 1)
}

/// Takes the nonce out of the body of a response to `server_nonce`. The
/// body must have the two quotes at least.
pub fn nonce_of(body: &str) -> (r: String)
    requires
        body@.len() >= 2,
    ensures
        r@ == nonce_text(body@),
{
    let n = body.unicode_len();
    String::from_str(body.substring_char(1, n - 1))
}

} // verus!
