use crate::DateTime;
use crate::b64::{base64_text, encodable_len};
use crate::b64;
use crate::client::{Body, BodyView, Client, Header, HeaderView, Method, Request, headers_view};
use crate::json::json_string_literal;
use crate::text::{decimal, push_decimal};
use crate::text::{lossy, lossy_text};
use crate::wire::push_quoted;
use vstd::utf8::*;
use vstd::prelude::*;
use vstd::string::*;

verus! {

pub const URL: &'static str = "https://auth.roblox.com/v1";

#[derive(Clone, Debug, PartialEq, Eq, Structural)]
pub enum LoginType {
    Email,
    Username,
    PhoneNumber,
    EmailOtpSessionToken,
    AuthToken,
    Passkey,
}

impl Default for LoginType {
    fn default() -> (r: Self)
        ensures
            r == LoginType::Username,
    {
        LoginType::Username
    }
}

impl LoginType {
    /// The variant's name, as it is written on the wire.
    pub open spec fn name_spec(self) -> Seq<char> {
        match self {
            LoginType::Email => "Email"@,
            LoginType::Username => "Username"@,
            LoginType::PhoneNumber => "PhoneNumber"@,
            LoginType::EmailOtpSessionToken => "EmailOtpSessionToken"@,
            LoginType::AuthToken => "AuthToken"@,
            LoginType::Passkey => "Passkey"@,
        }
    }

    pub fn name(&self) -> (r: &'static str)
        ensures
            r@ == self.name_spec(),
    {
        match self {
            LoginType::Email => "Email",
            LoginType::Username => "Username",
            LoginType::PhoneNumber => "PhoneNumber",
            LoginType::EmailOtpSessionToken => "EmailOtpSessionToken",
            LoginType::AuthToken => "AuthToken",
            LoginType::Passkey => "Passkey",
        }
    }
}

#[derive(Clone, Debug, PartialEq, Eq, Structural)]
pub enum MediaType {
    Email,
    SMS,
    Authenticator,
    RecoveryCode,
    SecurityKey,
    CrossDevice,
    Password,
    Passkey,
}

#[derive(Clone, Debug, PartialEq, Eq)]
pub struct RecommendedUsernamesFromDisplayName {
    pub new_name_generated: bool,
    pub suggested_names: Vec<String>,
}

#[derive(Clone, Debug, PartialEq, Eq)]
pub struct User {
    pub id: u64,
    pub name: String,
    pub display_name: String,
}

#[derive(Clone, Debug, PartialEq, Eq)]
pub struct TwoStepVerificationInfo {
    pub media_type: MediaType,
    pub ticket: String,
}

#[derive(Clone, Debug, PartialEq, Eq)]
pub struct LoginResponse {
    pub user: User,
    pub two_step_verification_info: TwoStepVerificationInfo,
    pub verification_ticket: String,
    pub is_banned: bool,
    pub should_update_email: bool,
    pub recovery_email: String,
    pub account_blob: String,
}

/// What proves to the server that a login comes from this device: a public
/// key, the time, a signature and the nonce that the server issued.
#[derive(Clone, Debug, PartialEq, Eq)]
pub struct AuthenticationIntent {
    pub public_key: String,
    pub epoch_timestamp: u64,
    pub signature: String,
    pub nonce: String,
}

pub struct AuthenticationIntentView {
    pub public_key: Seq<char>,
    pub epoch_timestamp: u64,
    pub signature: Seq<char>,
    pub nonce: Seq<char>,
}

impl View for AuthenticationIntent {
    type V = AuthenticationIntentView;

    open spec fn view(&self) -> AuthenticationIntentView {
        AuthenticationIntentView {
            public_key: self.public_key@,
            epoch_timestamp: self.epoch_timestamp,
            signature: self.signature@,
            nonce: self.nonce@,
        }
    }
}

/// The public key of a P-256 secret key, in the SEC1 encoding; `None` where
/// the bytes are no secret key of the curve.
pub uninterp spec fn public_key_bytes(secret: Seq<u8>) -> Option<Seq<u8>>;

/// The ECDSA signature of a message under a P-256 secret key, with SHA-256
/// and the nonce of RFC 6979, as the two scalars one after the other; `None`
/// where the bytes are no secret key of the curve.
pub uninterp spec fn signature_bytes(secret: Seq<u8>, message: Seq<u8>) -> Option<Seq<u8>>;

/// The SHA-256 digest of a message.
pub uninterp spec fn sha256(message: Seq<u8>) -> Seq<u8>;

/// Calls `SigningKey::random` of `p256::ecdsa` with the operating system's
/// generator and hands out the bytes of the key. The key is random, so
/// nothing is promised of it.
#[verifier::external_body]
fn fresh_secret() -> (r: Vec<u8>) {
    p256::ecdsa::SigningKey::random(&mut p256::elliptic_curve::rand_core::OsRng).to_bytes().to_vec()
}

/// Calls `SystemTime::now` and `duration_since` the Unix epoch. The result
/// is the clock's time in seconds, of which nothing is promised, or `None`
/// where the clock stands before the epoch.
#[verifier::external_body]
fn unix_now() -> (r: Option<u64>) {
    std::time::SystemTime::now()
        .duration_since(std::time::SystemTime::UNIX_EPOCH)
        .ok()
        .map(|since| since.as_secs())
}

/// Calls `SigningKey::from_slice` of `p256::ecdsa` and, on the key,
/// `verifying_key` and `to_sec1_bytes`. The result is the encoding named by
/// `public_key_bytes`; bytes that are no key give `None`.
#[verifier::external_body]
fn public_key_of(secret: &[u8]) -> (r: Option<Vec<u8>>)
    ensures
        match r {
            Some(key) => public_key_bytes(secret@) == Some(key@),
            None => public_key_bytes(secret@) is None,
        },
{
    p256::ecdsa::SigningKey::from_slice(secret).ok().map(
        |key| key.verifying_key().to_sec1_bytes().into_vec(),
    )
}

/// Calls `SigningKey::from_slice` of `p256::ecdsa` and, on the key,
/// `Signer::try_sign`, which signs deterministically. The result is the
/// signature named by `signature_bytes`; an error of either call gives
/// `None`.
#[verifier::external_body]
fn sign(secret: &[u8], message: &[u8]) -> (r: Option<Vec<u8>>)
    ensures
        match r {
            Some(signature) => signature_bytes(secret@, message@) == Some(signature@),
            None => signature_bytes(secret@, message@) is None,
        },
{
    let key = p256::ecdsa::SigningKey::from_slice(secret).ok()?;
    let signature: p256::ecdsa::Signature =
        p256::ecdsa::signature::Signer::try_sign(&key, message).ok()?;
    Some(signature.to_bytes().to_vec())
}

/// Calls `Sha256::digest` of the crate sha2. The result is the digest named
/// by `sha256`.
#[verifier::external_body]
fn digest(message: &[u8]) -> (r: Vec<u8>)
    ensures
        r@ == sha256(message@),
{
    <sha2::Sha256 as sha2::Digest>::digest(message).to_vec()
}

/// The text that the signature of an intent is made over: the public key, the
/// time in seconds and the nonce, with a colon between each two.
pub open spec fn binding_text(public_key: Seq<char>, epoch_timestamp: u64, nonce: Seq<char>) -> Seq<
    char,
> {
    public_key + ":"@ + decimal(epoch_timestamp as nat) + ":"@ + nonce
}

/// Writes the text that the signature of an intent is made over.
pub fn authentication_binding(public_key: &str, epoch_timestamp: u64, nonce: &str) -> (r: String)
    ensures
        r@ == binding_text(public_key@, epoch_timestamp, nonce@),
{
    let mut out = String::from_str(public_key);
    out.append(":");
    push_decimal(&mut out, epoch_timestamp);
    out.append(":");
    out.append(nonce);
    out
}

/// The intent that a secret key, a time and a nonce give. The public key is
/// written in base64. The signature is made over the SHA-256 digest of the
/// binding text and read as text, byte by byte where it is no UTF-8. `None`
/// where the bytes are no secret key.
pub open spec fn intent_of(secret: Seq<u8>, epoch_timestamp: u64, nonce: Seq<char>) -> Option<
    AuthenticationIntentView,
> {
    match public_key_bytes(secret) {
        Some(key) => if encodable_len(key.len()) {
            let public_key = base64_text(key);
            let binding = binding_text(public_key, epoch_timestamp, nonce);
            match signature_bytes(secret, sha256(encode_utf8(binding))) {
                Some(signature) => Some(
                    AuthenticationIntentView {
                        public_key,
                        epoch_timestamp,
                        signature: lossy_text(signature),
                        nonce,
                    },
                ),
                None => None,
            }
        } else {
            None
        },
        None => None,
    }
}

/// The view of an optional intent.
pub open spec fn option_intent(intent: Option<AuthenticationIntent>) -> Option<
    AuthenticationIntentView,
> {
    match intent {
        Some(intent) => Some(intent@),
        None => None,
    }
}

/// Makes the intent for a secret key, a time and the nonce that the server
/// issued.
pub fn intent_with(secret: &[u8], epoch_timestamp: u64, nonce: &str) -> (r: Option<
    AuthenticationIntent,
>)
    ensures
        option_intent(r) == intent_of(secret@, epoch_timestamp, nonce@),
{
    let key = match public_key_of(secret) {
        Some(key) => key,
        None => {
            return None;
        },
    };
    if !(key.len() / 3 < usize::MAX / 8) {
        return None;
    }
    let public_key = b64::encode(key.as_slice());
    let binding = authentication_binding(public_key.as_str(), epoch_timestamp, nonce);
    let hash = digest(binding.as_str().as_bytes());
    match sign(secret, hash.as_slice()) {
        Some(signature) => Some(
            AuthenticationIntent {
                public_key,
                epoch_timestamp,
                signature: lossy(signature.as_slice()),
                nonce: String::from_str(nonce),
            },
        ),
        None => None,
    }
}

/// Makes an intent for the nonce that the server issued, with a key drawn
/// afresh and the time of the clock. `None` where the clock stands before
/// 1970, or the key that was drawn cannot be used.
pub fn authentication_intent(nonce: &str) -> (r: Option<AuthenticationIntent>)
    ensures
        r is Some ==> exists|secret: Seq<u8>, now: u64|
            option_intent(r) == #[trigger] intent_of(secret, now, nonce@),
{
    match unix_now() {
        Some(now) => {
            let secret = fresh_secret();
            intent_with(secret.as_slice(), now, nonce)
        },
        None => None,
    }
}

/// Logs in with a name, a mail address or a phone number, and a password.
pub fn login(
    client: &Client,
    credential: &str,
    key: &str,
    login_type: LoginType,
    intent: &AuthenticationIntent,
) -> (r: Request)
    ensures
        r@.method == Method::Post,
        r@.url == URL@ + "/login"@,
        r@.query == Seq::<HeaderView>::empty(),
        r@.headers == client@.default_headers(),
        r@.body == BodyView::Json(
            "{\"ctype\":\""@
                + login_type.name_spec()
                + "\",\"cvalue\":"@
                + json_string_literal(credential@)
                + ",\"password\":"@
                + json_string_literal(key@)
                + ",\"secureAuthenticationIntent\":{\"clientPublicKey\":"@
                + json_string_literal(intent.public_key@)
                + ",\"clientEpochTimestamp\":"@
                + decimal(intent.epoch_timestamp as nat)
                + ",\"saiSignature\":"@
                + json_string_literal(intent.signature@)
                + ",\"serverNonce\":"@
                + json_string_literal(intent.nonce@)
                + "}}"@,
        ),
{
    let mut url = String::from_str(URL);
    url.append("/login");
    let mut text = String::from_str("{\"ctype\":\"");
    text.append(login_type.name());
    text.append("\",\"cvalue\":");
    push_quoted(&mut text, credential);
    text.append(",\"password\":");
    push_quoted(&mut text, key);
    text.append(",\"secureAuthenticationIntent\":{\"clientPublicKey\":");
    push_quoted(&mut text, intent.public_key.as_str());
    text.append(",\"clientEpochTimestamp\":");
    push_decimal(&mut text, intent.epoch_timestamp as u64);
    text.append(",\"saiSignature\":");
    push_quoted(&mut text, intent.signature.as_str());
    text.append(",\"serverNonce\":");
    push_quoted(&mut text, intent.nonce.as_str());
    text.append("}}");
    let query: Vec<Header> = Vec::new();
    assert(headers_view(query@) =~= Seq::<HeaderView>::empty());
    client.request_with(Method::Post, url, query, Body::Json(text))
}

/// Asks for user names that go with a display name.
pub fn recommended_usernames_from_display_name(
    client: &Client,
    display_name: &str,
    birthday: &DateTime,
) -> (r: Request)
    ensures
        r@.method == Method::Post,
        r@.url == URL@ + "/validators/recommendedUsernameFromDisplayName"@,
        r@.query == Seq::<HeaderView>::empty(),
        r@.headers == client@.default_headers(),
        r@.body == BodyView::Json(
            "{\"displayName\":"@
                + json_string_literal(display_name@)
                + ",\"birthday\":"@
                + json_string_literal(birthday.0@)
                + "}"@,
        ),
{
    let mut url = String::from_str(URL);
    url.append("/validators/recommendedUsernameFromDisplayName");
    let mut text = String::from_str("{\"displayName\":");
    push_quoted(&mut text, display_name);
    text.append(",\"birthday\":");
    push_quoted(&mut text, birthday.0.as_str());
    text.append("}");
    let query: Vec<Header> = Vec::new();
    assert(headers_view(query@) =~= Seq::<HeaderView>::empty());
    client.request_with(Method::Post, url, query, Body::Json(text))
}

} // verus!
