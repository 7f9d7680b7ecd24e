use crate::AssetTypeId;
use crate::challenge::bool_text;
use crate::client::{
    Body, BodyView, Client, Header, HeaderView, Method, Request, headers_view, with_header,
};
use crate::text::{decimal, decimal_string, push_decimal};
use crate::text::{lossy, lossy_text, parse_u64, parsed_u64};
use crate::wire::{bool_name, copy_bytes};
use vstd::prelude::*;
use vstd::string::*;

verus! {

pub const URL: &'static str = "https://data.roblox.com/data";

/// The part of the address that says what kind of asset is uploaded: models
/// and places by name, every other type by its number.
pub open spec fn kind_text(asset_type: AssetTypeId) -> Seq<char> {
    if asset_type == AssetTypeId::Model {
        "&type=Model"@
    } else if asset_type == AssetTypeId::Place {
        "&type=Place"@
    } else {
        "&assetTypeId="@ + decimal(asset_type.id_spec() as nat)
    }
}

/// The part of the address that names the group, where there is one.
pub open spec fn group_text(group_id: Option<u64>) -> Seq<char> {
    match group_id {
        Some(g) => "&groupId="@ + decimal(g as nat),
        None => Seq::empty(),
    }
}

/// The identifier that an upload names: the given one, or 0 for a new asset.
pub open spec fn upload_id(id: Option<u64>) -> u64 {
    match id {
        Some(id) => id,
        None => 0,
    }
}

/// Uploads the bytes of an asset. Without an identifier, or with 0, the
/// asset is new; with the identifier of an asset, that asset is replaced.
pub fn upload(
    client: &Client,
    id: Option<u64>,
    name: &str,
    description: &str,
    asset_type: AssetTypeId,
    group_id: Option<u64>,
    genre: u8,
    is_public: bool,
    allow_comments: bool,
    bytes: &[u8],
) -> (r: Request)
    ensures
        r@.method == Method::Post,
        r@.url == URL@ + "/upload.ashx?assetId="@ + decimal(upload_id(id) as nat) + kind_text(
            asset_type,
        ) + group_text(group_id),
        r@.query == seq![
            HeaderView { name: "name"@, value: name@ },
            HeaderView { name: "description"@, value: description@ },
            HeaderView { name: "genreTypeId"@, value: decimal(genre as nat) },
            HeaderView { name: "isPublic"@, value: bool_text(is_public) },
            HeaderView { name: "allowComments"@, value: bool_text(allow_comments) },
        ],
        r@.headers == with_header(
            with_header(
                with_header(
                    client@.default_headers(),
                    HeaderView { name: "accept"@, value: "application/json"@ },
                ),
                HeaderView { name: "content-type"@, value: "application/octect-stream"@ },
            ),
            HeaderView { name: "user-agent"@, value: "Roblox/WinInet"@ },
        ),
        r@.body == BodyView::Bytes(bytes@),
{
    let id = match id {
        Some(id) => id,
        None => 0,
    };
    let mut url = String::from_str(URL);
    url.append("/upload.ashx?assetId=");
    push_decimal(&mut url, id);
    let ghost head = url@;
    match asset_type {
        AssetTypeId::Model => {
            url.append("&type=Model");
        },
        AssetTypeId::Place => {
            url.append("&type=Place");
        },
        _ => {
            url.append("&assetTypeId=");
            push_decimal(&mut url, asset_type.id() as u64);
            assert(url@ =~= head + ("&assetTypeId="@ + decimal(asset_type.id_spec() as nat)));
        },
    }
    let ghost middle = url@;
    match group_id {
        Some(g) => {
            url.append("&groupId=");
            push_decimal(&mut url, g);
            assert(url@ =~= middle + ("&groupId="@ + decimal(g as nat)));
        },
        None => {
            assert(url@ =~= middle + Seq::<char>::empty());
        },
    }
    let genre_text = decimal_string(genre as u64);
    let mut query: Vec<Header> = Vec::new();
    query.push(Header::new("name", name));
    query.push(Header::new("description", description));
    query.push(Header::new("genreTypeId", genre_text.as_str()));
    query.push(Header::new("isPublic", bool_name(is_public)));
    query.push(Header::new("allowComments", bool_name(allow_comments)));
    assert(headers_view(query@) =~= seq![
        HeaderView { name: "name"@, value: name@ },
        HeaderView { name: "description"@, value: description@ },
        HeaderView { name: "genreTypeId"@, value: decimal(genre as nat) },
        HeaderView { name: "isPublic"@, value: bool_text(is_public) },
        HeaderView { name: "allowComments"@, value: bool_text(allow_comments) },
    ]);
    let r = client.request_with(Method::Post, url, query, Body::Bytes(copy_bytes(bytes)));
    let r = r.set_header("accept", "application/json");
    let r = r.set_header("content-type", "application/octect-stream");
    let r = r.set_header("user-agent", "Roblox/WinInet");
    r
}

/// The identifier in the body of a response to `upload`: the body's text
/// read as a number; `None` where it is none.
pub fn uploaded_id(body: &[u8]) -> (r: Option<u64>)
    ensures
        r == parsed_u64(lossy_text(body@)),
{
    let text = lossy(body);
    parse_u64(text.as_str())
}

} // verus!
