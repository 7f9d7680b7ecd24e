use crate::b64;
use crate::b64::{base64_bytes, base64_text, encodable_len};
use crate::json;
use crate::json::{json_document, json_string_literal, Json, JsonMember, JsonValue, MemberValue};
use crate::text::str_eq;
use vstd::prelude::*;
use vstd::string::*;
use vstd::utf8::*;

verus! {

pub const CHALLENGE_ID_HEADER: &'static str = "rblx-challenge-id";

pub const CHALLENGE_TYPE_HEADER: &'static str = "rblx-challenge-type";

pub const CHALLENGE_METADATA_HEADER: &'static str = "rblx-challenge-metadata";

/// The action that a challenge guards.
#[derive(Clone, Copy, Debug, PartialEq, Eq, Structural)]
pub enum ActionType {
    Unknown,
    Login,
    RobuxSpend,
    ItemTrade,
    Resale,
    PasswordReset,
    RevertAccount,
    Generic,
    GenericWithRecoveryCodes,
}

impl Default for ActionType {
    fn default() -> (r: Self)
        ensures
            r == ActionType::Unknown,
    {
        ActionType::Unknown
    }
}

impl ActionType {
    /// The name under which the action travels in JSON.
    pub open spec fn name_spec(self) -> Seq<char> {
        match self {
            ActionType::Unknown => "Unknown"@,
            ActionType::Login => "Login"@,
            ActionType::RobuxSpend => "RobuxSpend"@,
            ActionType::ItemTrade => "ItemTrade"@,
            ActionType::Resale => "Resale"@,
            ActionType::PasswordReset => "PasswordReset"@,
            ActionType::RevertAccount => "RevertAccount"@,
            ActionType::Generic => "Generic"@,
            ActionType::GenericWithRecoveryCodes => "GenericWithRecoveryCodes"@,
        }
    }

    /// The action that a name stands for; `None` for any other text.
    pub open spec fn from_name_spec(name: Seq<char>) -> Option<ActionType> {
        if name == "Unknown"@ {
            Some(ActionType::Unknown)
        } else if name == "Login"@ {
            Some(ActionType::Login)
        } else if name == "RobuxSpend"@ {
            Some(ActionType::RobuxSpend)
        } else if name == "ItemTrade"@ {
            Some(ActionType::ItemTrade)
        } else if name == "Resale"@ {
            Some(ActionType::Resale)
        } else if name == "PasswordReset"@ {
            Some(ActionType::PasswordReset)
        } else if name == "RevertAccount"@ {
            Some(ActionType::RevertAccount)
        } else if name == "Generic"@ {
            Some(ActionType::Generic)
        } else if name == "GenericWithRecoveryCodes"@ {
            Some(ActionType::GenericWithRecoveryCodes)
        } else {
            None
        }
    }

    pub fn name(self) -> (r: &'static str)
        ensures
            r@ == self.name_spec(),
    {
        match self {
            ActionType::Unknown => "Unknown",
            ActionType::Login => "Login",
            ActionType::RobuxSpend => "RobuxSpend",
            ActionType::ItemTrade => "ItemTrade",
            ActionType::Resale => "Resale",
            ActionType::PasswordReset => "PasswordReset",
            ActionType::RevertAccount => "RevertAccount",
            ActionType::Generic => "Generic",
            ActionType::GenericWithRecoveryCodes => "GenericWithRecoveryCodes",
        }
    }

    pub fn from_name(name: &str) -> (r: Option<ActionType>)
        ensures
            r == Self::from_name_spec(name@),
    {
        if str_eq(name, "Unknown") {
            Some(ActionType::Unknown)
        } else if str_eq(name, "Login") {
            Some(ActionType::Login)
        } else if str_eq(name, "RobuxSpend") {
            Some(ActionType::RobuxSpend)
        } else if str_eq(name, "ItemTrade") {
            Some(ActionType::ItemTrade)
        } else if str_eq(name, "Resale") {
            Some(ActionType::Resale)
        } else if str_eq(name, "PasswordReset") {
            Some(ActionType::PasswordReset)
        } else if str_eq(name, "RevertAccount") {
            Some(ActionType::RevertAccount)
        } else if str_eq(name, "Generic") {
            Some(ActionType::Generic)
        } else if str_eq(name, "GenericWithRecoveryCodes") {
            Some(ActionType::GenericWithRecoveryCodes)
        } else {
            None
        }
    }

    /// The action's name as an owned string.
    pub fn to_string(&self) -> (r: String)
        ensures
            r@ == self.name_spec(),
    {
        String::from_str(self.name())
    }
}

/// The kind of a challenge.
#[derive(Clone, Copy, Debug, PartialEq, Eq, Structural)]
pub enum ChallengeType {
    Generic,
    Captcha,
    Chef,
    TwoStepVerification,
    Reauthentication,
    SecurityQuestions,
}

impl Default for ChallengeType {
    fn default() -> (r: Self)
        ensures
            r == ChallengeType::Generic,
    {
        ChallengeType::Generic
    }
}

impl ChallengeType {
    /// The lower-case name under which the kind travels in a header.
    pub open spec fn wire_name_spec(self) -> Seq<char> {
        match self {
            ChallengeType::Generic => "generic"@,
            ChallengeType::Captcha => "captcha"@,
            ChallengeType::Chef => "chef"@,
            ChallengeType::TwoStepVerification => "twostepverification"@,
            ChallengeType::Reauthentication => "reauthentication"@,
            ChallengeType::SecurityQuestions => "security-questions"@,
        }
    }

    /// The kind that a header value names. A value that names none counts as
    /// `Generic`.
    pub open spec fn from_wire_spec(value: Seq<char>) -> ChallengeType {
        if value == "generic"@ {
            ChallengeType::Generic
        } else if value == "captcha"@ {
            ChallengeType::Captcha
        } else if value == "chef"@ {
            ChallengeType::Chef
        } else if value == "twostepverification"@ {
            ChallengeType::TwoStepVerification
        } else if value == "reauthentication"@ {
            ChallengeType::Reauthentication
        } else if value == "security-questions"@ {
            ChallengeType::SecurityQuestions
        } else {
            ChallengeType::Generic
        }
    }

    /// The name of the variant, as written in this file.
    pub open spec fn variant_name_spec(self) -> Seq<char> {
        match self {
            ChallengeType::Generic => "Generic"@,
            ChallengeType::Captcha => "Captcha"@,
            ChallengeType::Chef => "Chef"@,
            ChallengeType::TwoStepVerification => "TwoStepVerification"@,
            ChallengeType::Reauthentication => "Reauthentication"@,
            ChallengeType::SecurityQuestions => "SecurityQuestions"@,
        }
    }

    /// Whether a proof can be given for a challenge of this kind. `Captcha`
    /// and `Chef` are read from a response and cannot be resolved.
    pub open spec fn resolvable_spec(self) -> bool {
        self != ChallengeType::Captcha && self != ChallengeType::Chef
    }

    pub fn wire_name(self) -> (r: &'static str)
        ensures
            r@ == self.wire_name_spec(),
    {
        match self {
            ChallengeType::Generic => "generic",
            ChallengeType::Captcha => "captcha",
            ChallengeType::Chef => "chef",
            ChallengeType::TwoStepVerification => "twostepverification",
            ChallengeType::Reauthentication => "reauthentication",
            ChallengeType::SecurityQuestions => "security-questions",
        }
    }

    pub fn is_resolvable(self) -> (r: bool)
        ensures
            r == self.resolvable_spec(),
    {
        match self {
            ChallengeType::Captcha => false,
            ChallengeType::Chef => false,
            _ => true,
        }
    }

    /// The variant's name as an owned string.
    pub fn to_string(&self) -> (r: String)
        ensures
            r@ == self.variant_name_spec(),
    {
        match self {
            ChallengeType::Generic => String::from_str("Generic"),
            ChallengeType::Captcha => String::from_str("Captcha"),
            ChallengeType::Chef => String::from_str("Chef"),
            ChallengeType::TwoStepVerification => String::from_str("TwoStepVerification"),
            ChallengeType::Reauthentication => String::from_str("Reauthentication"),
            ChallengeType::SecurityQuestions => String::from_str("SecurityQuestions"),
        }
    }
}

impl<'a> From<&'a str> for ChallengeType {
    fn from(value: &'a str) -> (r: Self) {
        if str_eq(value, "generic") {
            ChallengeType::Generic
        } else if str_eq(value, "captcha") {
            ChallengeType::Captcha
        } else if str_eq(value, "chef") {
            ChallengeType::Chef
        } else if str_eq(value, "twostepverification") {
            ChallengeType::TwoStepVerification
        } else if str_eq(value, "reauthentication") {
            ChallengeType::Reauthentication
        } else if str_eq(value, "security-questions") {
            ChallengeType::SecurityQuestions
        } else {
            ChallengeType::Generic
        }
    }
}

impl<'a> vstd::std_specs::convert::FromSpecImpl<&'a str> for ChallengeType {
    open spec fn obeys_from_spec() -> bool {
        true
    }

    open spec fn from_spec(value: &'a str) -> Self {
        ChallengeType::from_wire_spec(value@)
    }
}

/// Why three challenge headers did not give a challenge.
#[derive(Clone, Copy, Debug, PartialEq, Eq, Structural)]
pub enum DecodeError {
    /// One of the three headers is absent.
    MissingHeader,
    /// The metadata header is not base64.
    InvalidBase64,
    /// The decoded metadata is not JSON.
    InvalidJson,
    /// The JSON lacks a member of the metadata, or holds it with another type.
    InvalidMetadata,
}

/// What a challenge says about itself.
#[derive(Debug, PartialEq, Eq)]
pub struct ChallengeMetadata {
    pub user_id: String,
    pub server_challenge_id: String,
    pub action_type: ActionType,
    pub remember_device: bool,
}

pub struct ChallengeMetadataView {
    pub user_id: Seq<char>,
    pub server_challenge_id: Seq<char>,
    pub action_type: ActionType,
    pub remember_device: bool,
}

impl View for ChallengeMetadata {
    type V = ChallengeMetadataView;

    open spec fn view(&self) -> ChallengeMetadataView {
        ChallengeMetadataView {
            user_id: self.user_id@,
            server_challenge_id: self.server_challenge_id@,
            action_type: self.action_type,
            remember_device: self.remember_device,
        }
    }
}

impl Clone for ChallengeMetadata {
    fn clone(&self) -> (r: Self)
        ensures
            r@ == self@,
    {
        ChallengeMetadata {
            user_id: self.user_id.clone(),
            server_challenge_id: self.server_challenge_id.clone(),
            action_type: self.action_type,
            remember_device: self.remember_device,
        }
    }
}

/// The metadata of a `Chef` challenge, which has a shape of its own.
#[derive(Debug, PartialEq, Eq)]
pub struct ChefChallengeMetadata {
    pub user_id: String,
    pub server_challenge_id: String,
    pub expected_symbols: Vec<String>,
    pub script_identifiers: Vec<String>,
}

pub struct ChefChallengeMetadataView {
    pub user_id: Seq<char>,
    pub server_challenge_id: Seq<char>,
    pub expected_symbols: Seq<Seq<char>>,
    pub script_identifiers: Seq<Seq<char>>,
}

/// The texts that a vector of strings holds.
pub open spec fn texts(v: Seq<String>) -> Seq<Seq<char>> {
    Seq::new(v.len(), |i: int| v[i]@)
}

impl View for ChefChallengeMetadata {
    type V = ChefChallengeMetadataView;

    open spec fn view(&self) -> ChefChallengeMetadataView {
        ChefChallengeMetadataView {
            user_id: self.user_id@,
            server_challenge_id: self.server_challenge_id@,
            expected_symbols: texts(self.expected_symbols@),
            script_identifiers: texts(self.script_identifiers@),
        }
    }
}

/// A step-up authentication that the server asks for before it honours a
/// request.
#[derive(Debug, PartialEq, Eq)]
pub struct Challenge {
    pub id: String,
    pub kind: ChallengeType,
    pub metadata: ChallengeMetadata,
}

pub struct ChallengeView {
    pub id: Seq<char>,
    pub kind: ChallengeType,
    pub metadata: ChallengeMetadataView,
}

impl View for Challenge {
    type V = ChallengeView;

    open spec fn view(&self) -> ChallengeView {
        ChallengeView { id: self.id@, kind: self.kind, metadata: self.metadata@ }
    }
}

impl Clone for Challenge {
    fn clone(&self) -> (r: Self)
        ensures
            r@ == self@,
    {
        Challenge { id: self.id.clone(), kind: self.kind, metadata: self.metadata.clone() }
    }
}

/// The three header values that prove a challenge solved.
#[derive(Debug, PartialEq, Eq)]
pub struct ChallengeProof {
    pub id: String,
    pub kind: String,
    pub metadata: String,
}

pub struct ChallengeProofView {
    pub id: Seq<char>,
    pub kind: Seq<char>,
    pub metadata: Seq<char>,
}

impl View for ChallengeProof {
    type V = ChallengeProofView;

    open spec fn view(&self) -> ChallengeProofView {
        ChallengeProofView { id: self.id@, kind: self.kind@, metadata: self.metadata@ }
    }
}

impl Clone for ChallengeProof {
    fn clone(&self) -> (r: Self)
        ensures
            r@ == self@,
    {
        ChallengeProof {
            id: self.id.clone(),
            kind: self.kind.clone(),
            metadata: self.metadata.clone(),
        }
    }
}

/// What is sent to answer a challenge: the verification token and the parts
/// of the challenge's metadata that the server wants back.
#[derive(Debug, PartialEq, Eq)]
pub struct ChallengeMetadataRequest {
    pub verification_token: String,
    pub challenge_id: String,
    pub action_type: ActionType,
    pub remember_device: bool,
}

pub struct ChallengeMetadataRequestView {
    pub verification_token: Seq<char>,
    pub challenge_id: Seq<char>,
    pub action_type: ActionType,
    pub remember_device: bool,
}

impl View for ChallengeMetadataRequest {
    type V = ChallengeMetadataRequestView;

    open spec fn view(&self) -> ChallengeMetadataRequestView {
        ChallengeMetadataRequestView {
            verification_token: self.verification_token@,
            challenge_id: self.challenge_id@,
            action_type: self.action_type,
            remember_device: self.remember_device,
        }
    }
}

/// The answer to `challenge` with the token `verification_token`.
pub open spec fn request_of(
    challenge: ChallengeView,
    verification_token: Seq<char>,
) -> ChallengeMetadataRequestView {
    ChallengeMetadataRequestView {
        verification_token,
        challenge_id: challenge.metadata.server_challenge_id,
        action_type: challenge.metadata.action_type,
        remember_device: challenge.metadata.remember_device,
    }
}

/// `true` and `false` as JSON writes them.
pub open spec fn bool_text(b: bool) -> Seq<char> {
    if b {
        "true"@
    } else {
        "false"@
    }
}

/// The JSON text of an answer: one object with the members
/// `verificationToken`, `challengeId`, `actionType` and `rememberDevice`, in
/// this order and without white space.
pub open spec fn request_text(request: ChallengeMetadataRequestView) -> Seq<char> {
    "{\"verificationToken\":"@ + json_string_literal(request.verification_token)
        + ",\"challengeId\":"@ + json_string_literal(request.challenge_id)
        + ",\"actionType\":\""@ + request.action_type.name_spec() + "\",\"rememberDevice\":"@
        + bool_text(request.remember_device) + "}"@
}

impl ChallengeMetadataRequest {
    pub fn new(challenge: &Challenge, verification_token: &str) -> (r: Self)
        ensures
            r@ == request_of(challenge@, verification_token@),
    {
        ChallengeMetadataRequest {
            verification_token: String::from_str(verification_token),
            challenge_id: challenge.metadata.server_challenge_id.clone(),
            action_type: challenge.metadata.action_type,
            remember_device: challenge.metadata.remember_device,
        }
    }

    /// Writes the answer as JSON.
    pub fn to_json(&self) -> (r: String)
        ensures
            r@ == request_text(self@),
    {
        let token = json::quote(self.verification_token.as_str());
        let id = json::quote(self.challenge_id.as_str());
        let mut out = String::from_str("{\"verificationToken\":");
        out.append(token.as_str());
        out.append(",\"challengeId\":");
        out.append(id.as_str());
        out.append(",\"actionType\":\"");
        out.append(self.action_type.name());
        out.append("\",\"rememberDevice\":");
        if self.remember_device {
            out.append("true");
        } else {
            out.append("false");
        }
        out.append("}");
        out
    }
}

/// The list of strings that an array of strings holds; `None` for anything
/// else.
pub open spec fn text_items(doc: JsonValue) -> Option<Seq<Seq<char>>> {
    match doc.items() {
        Some(items) => if forall|i: int|
            0 <= i < items.len() ==> (#[trigger] items[i]).text() is Some {
            Some(Seq::new(items.len(), |i: int| items[i].text()->0))
        } else {
            None
        },
        None => None,
    }
}

/// The list under member `key`, where it is an array of strings.
pub open spec fn text_items_member(doc: JsonValue, key: Seq<char>) -> Option<Seq<Seq<char>>> {
    match doc.member(key) {
        Some(v) => text_items(v),
        None => None,
    }
}

/// The metadata that a JSON object spells out: `userId`, `challengeId` and
/// `actionType` as strings, the last one the name of an action, and
/// `rememberDevice` as a truth value. Other members are passed over.
pub open spec fn metadata_of_document(doc: JsonValue) -> Option<ChallengeMetadataView> {
    if doc.text_member("userId"@) is Some && doc.text_member("challengeId"@) is Some
        && doc.text_member("actionType"@) is Some && ActionType::from_name_spec(
        doc.text_member("actionType"@)->0,
    ) is Some && doc.flag_member("rememberDevice"@) is Some {
        Some(
            ChallengeMetadataView {
                user_id: doc.text_member("userId"@)->0,
                server_challenge_id: doc.text_member("challengeId"@)->0,
                action_type: ActionType::from_name_spec(doc.text_member("actionType"@)->0)->0,
                remember_device: doc.flag_member("rememberDevice"@)->0,
            },
        )
    } else {
        None
    }
}

/// The JSON object that spells out a challenge's metadata.
pub open spec fn metadata_document(m: ChallengeMetadataView) -> JsonValue {
    JsonValue::Object(
        seq![
            MemberValue { name: "userId"@, value: JsonValue::Text(m.user_id) },
            MemberValue { name: "challengeId"@, value: JsonValue::Text(m.server_challenge_id) },
            MemberValue { name: "actionType"@, value: JsonValue::Text(m.action_type.name_spec()) },
            MemberValue { name: "rememberDevice"@, value: JsonValue::Bool(m.remember_device) },
        ],
    )
}

/// The metadata of a `Chef` challenge that a JSON object spells out.
pub open spec fn chef_metadata_of_document(doc: JsonValue) -> Option<ChefChallengeMetadataView> {
    if doc.text_member("userId"@) is Some && doc.text_member("challengeId"@) is Some
        && text_items_member(doc, "expectedSymbols"@) is Some && text_items_member(
        doc,
        "scriptIdentifiers"@,
    ) is Some {
        Some(
            ChefChallengeMetadataView {
                user_id: doc.text_member("userId"@)->0,
                server_challenge_id: doc.text_member("challengeId"@)->0,
                expected_symbols: text_items_member(doc, "expectedSymbols"@)->0,
                script_identifiers: text_items_member(doc, "scriptIdentifiers"@)->0,
            },
        )
    } else {
        None
    }
}

/// The challenge that an identifier, a kind and the metadata document give.
/// For `Chef` the document must have the shape of that kind's metadata; the
/// challenge keeps the user and the server's identifier from it, with the
/// action unknown and the device not remembered.
pub open spec fn challenge_of_document(
    id: Seq<char>,
    kind: ChallengeType,
    doc: JsonValue,
) -> Result<ChallengeView, DecodeError> {
    if kind == ChallengeType::Chef {
        match chef_metadata_of_document(doc) {
            Some(chef) => Ok(
                ChallengeView {
                    id,
                    kind,
                    metadata: ChallengeMetadataView {
                        user_id: chef.user_id,
                        server_challenge_id: chef.server_challenge_id,
                        action_type: ActionType::Unknown,
                        remember_device: false,
                    },
                },
            ),
            None => Err(DecodeError::InvalidMetadata),
        }
    } else {
        match metadata_of_document(doc) {
            Some(metadata) => Ok(ChallengeView { id, kind, metadata }),
            None => Err(DecodeError::InvalidMetadata),
        }
    }
}

/// The challenge that three header values give: the kind named by the second,
/// the metadata read from the third as base64 of JSON.
pub open spec fn decode_spec(id: Seq<char>, kind: Seq<char>, metadata_b64: Seq<char>) -> Result<
    ChallengeView,
    DecodeError,
> {
    match base64_bytes(metadata_b64) {
        None => Err(DecodeError::InvalidBase64),
        Some(bytes) => match json_document(bytes) {
            None => Err(DecodeError::InvalidJson),
            Some(doc) => challenge_of_document(id, ChallengeType::from_wire_spec(kind), doc),
        },
    }
}

/// The challenge that three headers give, each present or absent.
pub open spec fn challenge_from_headers_spec(
    id: Option<Seq<char>>,
    kind: Option<Seq<char>>,
    metadata_b64: Option<Seq<char>>,
) -> Result<ChallengeView, DecodeError> {
    if id is Some && kind is Some && metadata_b64 is Some {
        decode_spec(id->0, kind->0, metadata_b64->0)
    } else {
        Err(DecodeError::MissingHeader)
    }
}

/// The proof headers for a challenge and a token: the identifier as it is,
/// the kind's wire name, and the answer's JSON in base64.
pub open spec fn encode_spec(
    challenge: ChallengeView,
    verification_token: Seq<char>,
) -> ChallengeProofView {
    ChallengeProofView {
        id: challenge.id,
        kind: challenge.kind.wire_name_spec(),
        metadata: base64_text(encode_utf8(request_text(request_of(challenge, verification_token)))),
    }
}

/// Whether the answer to a challenge is short enough to be written in
/// base64.
pub open spec fn encodable(challenge: ChallengeView, verification_token: Seq<char>) -> bool {
    encodable_len(encode_utf8(request_text(request_of(challenge, verification_token))).len())
}

/// The view of a decoding result.
pub open spec fn decoded_view(r: Result<Challenge, DecodeError>) -> Result<
    ChallengeView,
    DecodeError,
> {
    match r {
        Ok(c) => Ok(c@),
        Err(e) => Err(e),
    }
}

fn text_list(doc: &Json) -> (r: Option<Vec<String>>)
    ensures
        match r {
            Some(v) => text_items(doc@) == Some(texts(v@)),
            None => text_items(doc@) is None,
        },
{
    match doc.as_items() {
        None => None,
        Some(items) => {
            let ghost all = doc@.items()->0;
            let mut out: Vec<String> = Vec::new();
            let mut i: usize = 0;
            while i < items.len()
                invariant
                    i <= items.len(),
                    doc@.items() == Some(all),
                    all.len() == items@.len(),
                    forall|k: int| 0 <= k < items@.len() ==> all[k] == items@[k]@,
                    out@.len() == i,
                    forall|k: int| 0 <= k < i ==> (#[trigger] all[k]).text() == Some(out@[k]@),
                decreases items.len() - i,
            {
                match items[i].as_text() {
                    Some(s) => {
                        out.push(String::from_str(s));
                    },
                    None => {
                        assert(all[i as int].text() is None);
                        return None;
                    },
                }
                i = i + 1;
            }
            assert(texts(out@) =~= Seq::new(all.len(), |i: int| all[i].text()->0));
            Some(out)
        },
    }
}

fn text_list_member(doc: &Json, key: &str) -> (r: Option<Vec<String>>)
    ensures
        match r {
            Some(v) => text_items_member(doc@, key@) == Some(texts(v@)),
            None => text_items_member(doc@, key@) is None,
        },
{
    match doc.member(key) {
        Some(v) => text_list(v),
        None => None,
    }
}

impl ChallengeMetadata {
    /// Spells the metadata out as a JSON document.
    pub fn to_json(&self) -> (r: Json)
        ensures
            r@ == metadata_document(self@),
    {
        let user_id = Json::Text(self.user_id.clone());
        let server_challenge_id = Json::Text(self.server_challenge_id.clone());
        let action_type = Json::Text(self.action_type.to_string());
        let remember_device = Json::Bool(self.remember_device);
        assert(user_id@ == JsonValue::Text(self.user_id@));
        assert(server_challenge_id@ == JsonValue::Text(self.server_challenge_id@));
        assert(action_type@ == JsonValue::Text(self.action_type.name_spec()));
        assert(remember_device@ == JsonValue::Bool(self.remember_device));
        let mut members: Vec<JsonMember> = Vec::new();
        members.push(JsonMember { name: String::from_str("userId"), value: user_id });
        members.push(
            JsonMember { name: String::from_str("challengeId"), value: server_challenge_id },
        );
        members.push(JsonMember { name: String::from_str("actionType"), value: action_type });
        members.push(
            JsonMember { name: String::from_str("rememberDevice"), value: remember_device },
        );
        let r = Json::Object(members);
        assert(r@->Object_0 =~= metadata_document(self@)->Object_0);
        r
    }

    /// Reads the metadata from a JSON document.
    pub fn from_json(doc: &Json) -> (r: Option<ChallengeMetadata>)
        ensures
            match r {
                Some(m) => metadata_of_document(doc@) == Some(m@),
                None => metadata_of_document(doc@) is None,
            },
    {
        let user_id = match doc.text_member("userId") {
            Some(s) => s,
            None => { return None; },
        };
        let server_challenge_id = match doc.text_member("challengeId") {
            Some(s) => s,
            None => { return None; },
        };
        let action_name = match doc.text_member("actionType") {
            Some(s) => s,
            None => { return None; },
        };
        let action_type = match ActionType::from_name(action_name) {
            Some(a) => a,
            None => { return None; },
        };
        let remember_device = match doc.flag_member("rememberDevice") {
            Some(b) => b,
            None => { return None; },
        };
        Some(
            ChallengeMetadata {
                user_id: String::from_str(user_id),
                server_challenge_id: String::from_str(server_challenge_id),
                action_type,
                remember_device,
            },
        )
    }
}

impl ChefChallengeMetadata {
    /// Reads the metadata of a `Chef` challenge from a JSON document.
    pub fn from_json(doc: &Json) -> (r: Option<ChefChallengeMetadata>)
        ensures
            match r {
                Some(m) => chef_metadata_of_document(doc@) == Some(m@),
                None => chef_metadata_of_document(doc@) is None,
            },
    {
        let user_id = match doc.text_member("userId") {
            Some(s) => s,
            None => { return None; },
        };
        let server_challenge_id = match doc.text_member("challengeId") {
            Some(s) => s,
            None => { return None; },
        };
        let expected_symbols = match text_list_member(doc, "expectedSymbols") {
            Some(v) => v,
            None => { return None; },
        };
        let script_identifiers = match text_list_member(doc, "scriptIdentifiers") {
            Some(v) => v,
            None => { return None; },
        };
        Some(
            ChefChallengeMetadata {
                user_id: String::from_str(user_id),
                server_challenge_id: String::from_str(server_challenge_id),
                expected_symbols,
                script_identifiers,
            },
        )
    }
}

impl Challenge {
    /// Builds the challenge from its identifier, its kind and the metadata
    /// document.
    pub fn from_document(id: &str, kind: ChallengeType, doc: &Json) -> (r: Result<
        Challenge,
        DecodeError,
    >)
        ensures
            decoded_view(r) == challenge_of_document(id@, kind, doc@),
    {
        match kind {
            ChallengeType::Chef => match ChefChallengeMetadata::from_json(doc) {
                Some(chef) => Ok(
                    Challenge {
                        id: String::from_str(id),
                        kind,
                        metadata: ChallengeMetadata {
                            user_id: chef.user_id,
                            server_challenge_id: chef.server_challenge_id,
                            action_type: ActionType::Unknown,
                            remember_device: false,
                        },
                    },
                ),
                None => Err(DecodeError::InvalidMetadata),
            },
            _ => match ChallengeMetadata::from_json(doc) {
                Some(metadata) => Ok(Challenge { id: String::from_str(id), kind, metadata }),
                None => Err(DecodeError::InvalidMetadata),
            },
        }
    }

    /// Reads a challenge from the values of its three headers.
    pub fn decode(id: &str, kind: &str, metadata_b64: &str) -> (r: Result<Challenge, DecodeError>)
        ensures
            decoded_view(r) == decode_spec(id@, kind@, metadata_b64@),
    {
        let bytes = match b64::decode(metadata_b64) {
            Some(bytes) => bytes,
            None => { return Err(DecodeError::InvalidBase64); },
        };
        let doc = match json::parse(bytes.as_slice()) {
            Some(doc) => doc,
            None => { return Err(DecodeError::InvalidJson); },
        };
        Challenge::from_document(id, ChallengeType::from(kind), &doc)
    }

    /// Writes the three proof headers for this challenge and a verification
    /// token. `None` where the answer is too long for base64, and only then.
    pub fn encode(&self, verification_token: &str) -> (r: Option<ChallengeProof>)
        ensures
            match r {
                Some(p) => encodable(self@, verification_token@) && p@ == encode_spec(
                    self@,
                    verification_token@,
                ),
                None => !encodable(self@, verification_token@),
            },
    {
        let text = ChallengeMetadataRequest::new(self, verification_token).to_json();
        let bytes = text.as_str().as_bytes();
        if bytes.len() / 3 < usize::MAX / 8 {
            Some(
                ChallengeProof {
                    id: self.id.clone(),
                    kind: String::from_str(self.kind.wire_name()),
                    metadata: b64::encode(bytes),
                },
            )
        } else {
            None
        }
    }
}

/// Reads a challenge from three headers of a response, each present or
/// absent. All three must be there.
pub fn challenge_from_headers(
    id: Option<&str>,
    kind: Option<&str>,
    metadata_b64: Option<&str>,
) -> (r: Result<Challenge, DecodeError>)
    ensures
        decoded_view(r) == challenge_from_headers_spec(
            match id {
                Some(s) => Some(s@),
                None => None,
            },
            match kind {
                Some(s) => Some(s@),
                None => None,
            },
            match metadata_b64 {
                Some(s) => Some(s@),
                None => None,
            },
        ),
{
    match (id, kind, metadata_b64) {
        (Some(id), Some(kind), Some(metadata_b64)) => Challenge::decode(id, kind, metadata_b64),
        _ => Err(DecodeError::MissingHeader),
    }
}

} // verus!
