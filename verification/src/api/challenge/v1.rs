use crate::challenge::{
    request_of, request_text, Challenge, ChallengeMetadataRequest, ChallengeView,
};
use crate::client::{Body, BodyView, Client, HeaderView, Method, Request};
use crate::json;
use crate::json::json_string_literal;
use crate::{Error, ErrorView};
use vstd::prelude::*;
use vstd::string::*;

verus! {

pub const URL: &'static str = "https://apis.roblox.com/challenge/v1";

/// The JSON body that continues a challenge: the identifier, the kind's wire
/// name, and the answer, itself JSON, as a string.
pub open spec fn continue_text(
    challenge: ChallengeView,
    verification_token: Seq<char>,
) -> Seq<char> {
    "{\"challengeId\":"@ + json_string_literal(challenge.id) + ",\"challengeType\":"@
        + json_string_literal(challenge.kind.wire_name_spec()) + ",\"challengeMetadata\":"@
        + json_string_literal(request_text(request_of(challenge, verification_token))) + "}"@
}

/// The request that tells the server that a challenge was solved. It has to
/// be sent, and answered with success, before the proof headers count. A
/// challenge of a kind that cannot be resolved gives no request.
pub fn continue_challenge(client: &Client, challenge: &Challenge, verification_token: &str) -> (r:
    Result<Request, Error>)
    ensures
        match r {
            Ok(request) => {
                &&& challenge@.kind.resolvable_spec()
                &&& request@.method == Method::Post
                &&& request@.url == URL@ + "/continue"@
                &&& request@.query == Seq::<HeaderView>::empty()
                &&& request@.headers == client@.default_headers()
                &&& request@.body == BodyView::Json(continue_text(challenge@, verification_token@))
            },
            Err(e) => !challenge@.kind.resolvable_spec() && e@ == ErrorView::UnsupportedChallenge(
                challenge@.kind,
            ),
        },
{
    if !challenge.kind.is_resolvable() {
        return Err(Error::UnsupportedChallenge(challenge.kind));
    }
    let metadata = ChallengeMetadataRequest::new(challenge, verification_token).to_json();
    let id = json::quote(challenge.id.as_str());
    let kind = json::quote(challenge.kind.wire_name());
    let answer = json::quote(metadata.as_str());
    let mut text = String::from_str("{\"challengeId\":");
    text.append(id.as_str());
    text.append(",\"challengeType\":");
    text.append(kind.as_str());
    text.append(",\"challengeMetadata\":");
    text.append(answer.as_str());
    text.append("}");
    let mut url = String::from_str(URL);
    url.append("/continue");
    Ok(client.request(Method::Post, url, Body::Json(text)))
}

} // verus!
