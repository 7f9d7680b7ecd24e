use crate::client::{Body, BodyView, Client, Header, HeaderView, Method, Request, headers_view};
use crate::wire::{join_wrapped, push_wrapped, slice_texts};
use vstd::prelude::*;
use vstd::string::*;

verus! {

pub const URL: &'static str = "https://apis.roblox.com/user-agreements/v1";

#[derive(Clone, Debug, PartialEq, Eq)]
pub struct AcceptanceResponse {
    pub id: String,
    pub message: String,
    pub error_code: u16,
}

/// Accepts agreements.
pub fn acceptances(client: &Client, ids: &[&str]) -> (r: Request)
    ensures
        r@.method == Method::Post,
        r@.url == URL@ + "/acceptances"@,
        r@.query == Seq::<HeaderView>::empty(),
        r@.headers == client@.default_headers(),
        r@.body == BodyView::Json(
            "{\"acceptances\":["@
                + join_wrapped(slice_texts(ids@), "{\"agreementId\":"@, "}"@)
                + "]}"@,
        ),
{
    let mut url = String::from_str(URL);
    url.append("/acceptances");
    let mut text = String::from_str("{\"acceptances\":[");
    push_wrapped(&mut text, ids, "{\"agreementId\":", "}");
    text.append("]}");
    let query: Vec<Header> = Vec::new();
    assert(headers_view(query@) =~= Seq::<HeaderView>::empty());
    client.request_with(Method::Post, url, query, Body::Json(text))
}

} // verus!
