use crate::client::{
    Body, BodyView, Client, Header, HeaderView, Method, Request, headers_view, with_header,
};
use crate::json::json_string_literal;
use crate::text::{decimal, push_decimal};
use crate::wire::{optional_number, push_optional_number, push_quoted};
use crate::{AssetTypeId, DateTime};
use vstd::prelude::*;
use vstd::string::*;

verus! {

pub const URL: &'static str = "https://apis.roblox.com/assets/user-auth/v1";

#[derive(Clone, Debug, PartialEq, Eq)]
pub enum Creator {
    UserId(String),
    GroupId(String),
}

#[derive(Clone, Debug, PartialEq, Eq)]
pub struct CreationContext {
    pub creator: Creator,
    pub expected_price: Option<u64>,
}

#[derive(Clone, Debug, PartialEq, Eq)]
pub struct ModerationResult {
    pub state: String,
}

#[derive(Clone, Debug, PartialEq, Eq)]
pub struct AssetInfo {
    pub id: String,
    pub icon: Option<String>,
    pub name: String,
    pub description: String,
    pub path: String,
    pub state: String,
    pub asset_type: AssetTypeId,
    pub revision_id: String,
    pub revision_creation_time: DateTime,
    pub creation_context: CreationContext,
    pub moderation_result: ModerationResult,
}

#[derive(Clone, Debug, PartialEq, Eq)]
pub struct AssetUploadResponse {
    pub path: String,
    pub id: String,
    pub name: String,
    pub state: String,
    pub asset_type: AssetTypeId,
    pub revision_id: String,
    pub revision_creation_time: DateTime,
    pub creation_context: CreationContext,
    pub moderation_result: ModerationResult,
}

#[derive(Clone, Debug, PartialEq, Eq)]
pub struct AssetUploadStatus {
    pub path: String,
    pub operation_id: String,
    pub complete: bool,
    pub response: Option<AssetUploadResponse>,
}

impl Creator {
    /// The creator as JSON: an object with the one member `userId` or
    /// `groupId`.
    pub open spec fn json_spec(self) -> Seq<char> {
        match self {
            Creator::UserId(id) => "{\"userId\":"@ + json_string_literal(id@) + "}"@,
            Creator::GroupId(id) => "{\"groupId\":"@ + json_string_literal(id@) + "}"@,
        }
    }

    /// Appends the creator as JSON.
    pub fn push_json(&self, out: &mut String)
        ensures
            final(out)@ == old(out)@ + self.json_spec(),
    {
        let ghost before = out@;
        match self {
            Creator::UserId(id) => {
                out.append("{\"userId\":");
                push_quoted(out, id.as_str());
                out.append("}");
            },
            Creator::GroupId(id) => {
                out.append("{\"groupId\":");
                push_quoted(out, id.as_str());
                out.append("}");
            },
        }
        assert(out@ =~= before + self.json_spec());
    }
}

impl CreationContext {
    /// The context as JSON: the creator, and the expected price or `null`.
    pub open spec fn json_spec(self) -> Seq<char> {
        "{\"creator\":"@ + self.creator.json_spec() + ",\"expectedPrice\":"@ + optional_number(
            self.expected_price,
        ) + "}"@
    }

    /// Appends the context as JSON.
    pub fn push_json(&self, out: &mut String)
        ensures
            final(out)@ == old(out)@ + self.json_spec(),
    {
        let ghost before = out@;
        out.append("{\"creator\":");
        self.creator.push_json(out);
        out.append(",\"expectedPrice\":");
        push_optional_number(out, self.expected_price);
        out.append("}");
        assert(out@ =~= before + self.json_spec());
    }
}

/// Asks for what is known of an asset.
pub fn asset(client: &Client, id: u64) -> (r: Request)
    ensures
        r@.method == Method::Get,
        r@.url == URL@ + "/assets/"@ + decimal(id as nat),
        r@.query == Seq::<HeaderView>::empty(),
        r@.headers == client@.default_headers(),
        r@.body == BodyView::Empty,
{
    let mut url = String::from_str(URL);
    url.append("/assets/");
    push_decimal(&mut url, id as u64);
    let query: Vec<Header> = Vec::new();
    assert(headers_view(query@) =~= Seq::<HeaderView>::empty());
    client.request_with(Method::Get, url, query, Body::Empty)
}

/// Uploads a new asset. The file itself is added by the transport, as the
/// second part of the form.
pub fn upload(
    client: &Client,
    title: &str,
    description: &str,
    asset_type: AssetTypeId,
    creation_context: &CreationContext,
) -> (r: Request)
    ensures
        r@.method == Method::Post,
        r@.url == URL@ + "/assets"@,
        r@.query == Seq::<HeaderView>::empty(),
        r@.headers == with_header(
            client@.default_headers(),
            HeaderView { name: "accept"@, value: "*/*"@ },
        ),
        r@.body == BodyView::Form(
            "{\"displayName\":"@
                + json_string_literal(title@)
                + ",\"description\":"@
                + json_string_literal(description@)
                + ",\"assetType\":\""@
                + asset_type.name_spec()
                + "\",\"creationContext\":"@
                + creation_context.json_spec()
                + "}"@,
        ),
{
    let mut url = String::from_str(URL);
    url.append("/assets");
    let mut text = String::from_str("{\"displayName\":");
    push_quoted(&mut text, title);
    text.append(",\"description\":");
    push_quoted(&mut text, description);
    text.append(",\"assetType\":\"");
    text.append(asset_type.name());
    text.append("\",\"creationContext\":");
    creation_context.push_json(&mut text);
    text.append("}");
    let query: Vec<Header> = Vec::new();
    assert(headers_view(query@) =~= Seq::<HeaderView>::empty());
    let r = client.request_with(Method::Post, url, query, Body::Form(text));
    let r = r.set_header("accept", "*/*");
    r
}

/// Asks how far an upload has come.
pub fn status(client: &Client, operation_id: &str) -> (r: Request)
    ensures
        r@.method == Method::Get,
        r@.url == URL@ + "/operations/"@ + operation_id@,
        r@.query == Seq::<HeaderView>::empty(),
        r@.headers == client@.default_headers(),
        r@.body == BodyView::Empty,
{
    let mut url = String::from_str(URL);
    url.append("/operations/");
    url.append(operation_id);
    let query: Vec<Header> = Vec::new();
    assert(headers_view(query@) =~= Seq::<HeaderView>::empty());
    client.request_with(Method::Get, url, query, Body::Empty)
}

} // verus!
