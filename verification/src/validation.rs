use crate::api::auth;
use crate::challenge::{
    challenge_from_headers, challenge_from_headers_spec, decoded_view, encodable, encode_spec,
    Challenge, ChallengeView, DecodeError, CHALLENGE_ID_HEADER, CHALLENGE_METADATA_HEADER,
    CHALLENGE_TYPE_HEADER,
};
use crate::client::{
    find_header, Body, BodyView, Client, Method, Request, Response, ResponseView, SessionState,
    SessionStateView, TOKEN_HEADER,
};
use crate::json;
use crate::json::{json_document, Json, JsonValue};
use crate::text::{lossy, lossy_text, str_eq};
use crate::{ApiError, ApiErrorView, Error, ErrorView, TransportError};
use vstd::prelude::*;
use vstd::string::*;

verus! {

pub const CHALLENGE_REQUIRED_MESSAGE: &'static str =
    "Challenge is required to authorize the request";

/// One failure as a body reports it: an object with a `message`.
#[derive(Debug, PartialEq, Eq)]
pub struct ErrorJson {
    pub message: String,
}

/// A list of failures: an object whose `errors` is an array of failures.
#[derive(Debug, PartialEq, Eq)]
pub struct ErrorsJson {
    pub errors: Vec<ErrorJson>,
}

/// One failure as some endpoints report it: an object with the text under
/// `error`.
#[derive(Debug, PartialEq, Eq)]
pub struct DataErrorJson {
    pub message: String,
}

/// The message of a document of the form `{"message": ...}`.
pub open spec fn error_message(doc: JsonValue) -> Option<Seq<char>> {
    doc.text_member("message"@)
}

/// The message of a document of the form `{"error": ...}`.
pub open spec fn data_error_message(doc: JsonValue) -> Option<Seq<char>> {
    doc.text_member("error"@)
}

/// The messages of an array in which every element has the form
/// `{"message": ...}`; `None` where one element has not.
pub open spec fn error_items(doc: JsonValue) -> Option<Seq<Seq<char>>> {
    match doc.items() {
        Some(items) => if forall|i: int|
            0 <= i < items.len() ==> error_message(#[trigger] items[i]) is Some {
            Some(Seq::new(items.len(), |i: int| error_message(items[i])->0))
        } else {
            None
        },
        None => None,
    }
}

/// The messages of a document of the form `{"errors": [{"message": ...}, ...]}`.
pub open spec fn error_list(doc: JsonValue) -> Option<Seq<Seq<char>>> {
    match doc.member("errors"@) {
        Some(v) => error_items(v),
        None => None,
    }
}

/// The messages that a body reports. The body's document is tried as a list
/// of failures, then as one failure under `message`, then as one under
/// `error`. A body that is none of these, or no JSON at all, is one message:
/// its own text.
pub open spec fn body_messages(doc: Option<JsonValue>, raw: Seq<char>) -> Seq<Seq<char>> {
    if doc is Some && error_list(doc->0) is Some {
        error_list(doc->0)->0
    } else if doc is Some && error_message(doc->0) is Some {
        seq![error_message(doc->0)->0]
    } else if doc is Some && data_error_message(doc->0) is Some {
        seq![data_error_message(doc->0)->0]
    } else {
        seq![raw]
    }
}

/// The messages that a vector of failures holds.
pub open spec fn messages_of(errors: Seq<ErrorJson>) -> Seq<Seq<char>> {
    Seq::new(errors.len(), |i: int| errors[i].message@)
}

impl View for ErrorsJson {
    type V = Seq<Seq<char>>;

    open spec fn view(&self) -> Seq<Seq<char>> {
        messages_of(self.errors@)
    }
}

impl ErrorJson {
    /// Reads `{"message": ...}`.
    pub fn from_json(doc: &Json) -> (r: Option<ErrorJson>)
        ensures
            match r {
                Some(e) => error_message(doc@) == Some(e.message@),
                None => error_message(doc@) is None,
            },
    {
        match doc.text_member("message") {
            Some(m) => Some(ErrorJson { message: String::from_str(m) }),
            None => None,
        }
    }
}

impl DataErrorJson {
    /// Reads `{"error": ...}`.
    pub fn from_json(doc: &Json) -> (r: Option<DataErrorJson>)
        ensures
            match r {
                Some(e) => data_error_message(doc@) == Some(e.message@),
                None => data_error_message(doc@) is None,
            },
    {
        match doc.text_member("error") {
            Some(m) => Some(DataErrorJson { message: String::from_str(m) }),
            None => None,
        }
    }
}

fn read_error_items(doc: &Json) -> (r: Option<Vec<ErrorJson>>)
    ensures
        match r {
            Some(v) => error_items(doc@) == Some(messages_of(v@)),
            None => error_items(doc@) is None,
        },
{
    match doc.as_items() {
        None => None,
        Some(items) => {
            let ghost all = doc@.items()->0;
            let mut out: Vec<ErrorJson> = Vec::new();
            let mut i: usize = 0;
            while i < items.len()
                invariant
                    i <= items.len(),
                    doc@.items() == Some(all),
                    all.len() == items@.len(),
                    forall|k: int| 0 <= k < items@.len() ==> all[k] == items@[k]@,
                    out@.len() == i,
                    forall|k: int|
                        0 <= k < i ==> error_message(#[trigger] all[k]) == Some(out@[k].message@),
                decreases items.len() - i,
            {
                match ErrorJson::from_json(&items[i]) {
                    Some(e) => {
                        out.push(e);
                    },
                    None => {
                        assert(error_message(all[i as int]) is None);
                        return None;
                    },
                }
                i = i + 1;
            }
            assert(messages_of(out@) =~= Seq::new(
                all.len(),
                |i: int| error_message(all[i])->0,
            ));
            Some(out)
        },
    }
}

impl ErrorsJson {
    /// Reads `{"errors": [{"message": ...}, ...]}`.
    pub fn from_json(doc: &Json) -> (r: Option<ErrorsJson>)
        ensures
            match r {
                Some(e) => error_list(doc@) == Some(e@),
                None => error_list(doc@) is None,
            },
    {
        match doc.member("errors") {
            Some(v) => match read_error_items(v) {
                Some(errors) => Some(ErrorsJson { errors }),
                None => None,
            },
            None => None,
        }
    }

    /// The failures that a body reports: `doc` is the body read as JSON,
    /// where it is JSON, and `raw` the body read as text.
    pub fn from_body(doc: Option<&Json>, raw: &str) -> (r: ErrorsJson)
        ensures
            r@ == body_messages(
                match doc {
                    Some(d) => Some(d@),
                    None => None,
                },
                raw@,
            ),
    {
        match doc {
            Some(d) => {
                match ErrorsJson::from_json(d) {
                    Some(errors) => {
                        return errors;
                    },
                    None => {},
                }
                match ErrorJson::from_json(d) {
                    Some(error) => {
                        let mut errors: Vec<ErrorJson> = Vec::new();
                        errors.push(error);
                        assert(messages_of(errors@) =~= seq![error_message(d@)->0]);
                        return ErrorsJson { errors };
                    },
                    None => {},
                }
                match DataErrorJson::from_json(d) {
                    Some(error) => {
                        let mut errors: Vec<ErrorJson> = Vec::new();
                        errors.push(ErrorJson { message: error.message });
                        assert(messages_of(errors@) =~= seq![data_error_message(d@)->0]);
                        return ErrorsJson { errors };
                    },
                    None => {},
                }
            },
            None => {},
        }
        let mut errors: Vec<ErrorJson> = Vec::new();
        errors.push(ErrorJson { message: String::from_str(raw) });
        assert(messages_of(errors@) =~= seq![raw@]);
        ErrorsJson { errors }
    }
}

/// The table of known messages: the failure that each one names, and `None`
/// for a message that is not in it. The message that asks for a challenge
/// is not in this table: what it names depends on the response's headers.
pub open spec fn known_error_spec(message: Seq<char>) -> Option<ApiErrorView> {
    if message == "The asset id is invalid."@ {
        Some(ApiErrorView::InvalidAssetId)
    } else if message == "Invalid challenge ID."@ {
        Some(ApiErrorView::InvalidChallengeId)
    } else if message == "User not found."@ {
        Some(ApiErrorView::InvalidUser)
    } else if message == "The user ID is invalid."@ {
        Some(ApiErrorView::InvalidUserId)
    } else if message == "The gender provided is invalid."@ {
        Some(ApiErrorView::InvalidGender)
    } else if message == "The two step verification challenge code is invalid."@ {
        Some(ApiErrorView::InvalidTwoStepVerificationCode)
    } else if message == "Invalid display name."@ {
        Some(ApiErrorView::InvalidDisplayName)
    } else if message == "Request must contain a birthdate"@ {
        Some(ApiErrorView::RequestMissingArgument("Birthdate"@))
    } else if message == "Token Validation Failed"@ {
        Some(ApiErrorView::TokenValidation)
    } else if message == "XSRF token invalid"@ {
        Some(ApiErrorView::TokenValidation)
    } else if message == "XSRF Token Validation Failed"@ {
        Some(ApiErrorView::TokenValidation)
    } else if message == "\"XSRF Token Validation Failed\""@ {
        Some(ApiErrorView::TokenValidation)
    } else if message == "Incorrect username or password. Please try again."@ {
        Some(ApiErrorView::InvalidCredentials)
    } else if message == "You must pass the robot test before logging in."@ {
        Some(ApiErrorView::CaptchaFailed)
    } else if message == "Account has been locked. Please request a password reset."@ {
        Some(ApiErrorView::AccontLocked)
    } else if message == "Unable to login. Please use Social Network sign on."@ {
        Some(ApiErrorView::SocialNetworkLoginRequired)
    } else if message == "Account issue. Please contact Support."@ {
        Some(ApiErrorView::AccountIssue)
    } else if message == "Unable to login with provided credentials. Default login is required."@ {
        Some(ApiErrorView::DefaultLoginRequired)
    } else if message == "Received credentials are unverified."@ {
        Some(ApiErrorView::UnverifiedCredentials)
    } else if message == "Existing login session found. Please log out first."@ {
        Some(ApiErrorView::ExistingLoginSession)
    } else if message == "The account is unable to log in. Please log in to the LuoBu app."@ {
        Some(ApiErrorView::LuoBuAppLoginRequired)
    } else if message == "Too many attempts. Please wait a bit."@ {
        Some(ApiErrorView::Ratelimited)
    } else if message == "The account is unable to login. Please log in with the VNG app."@ {
        Some(ApiErrorView::VNGAppLoginRequired)
    } else if message == "PIN is locked."@ {
        Some(ApiErrorView::PinIsLocked)
    } else if message == "Invalid birthdate change."@ {
        Some(ApiErrorView::InvalidBirthdate)
    } else if message == "Challenge failed to authorize request"@ {
        Some(ApiErrorView::ChallengeFailed)
    } else if message == "You do not have permission to view the owners of this asset."@ {
        Some(ApiErrorView::PermissionError)
    } else if message == "Request Context BrowserTrackerID is missing or invalid."@ {
        Some(ApiErrorView::InvalidBrowserTrackerId)
    } else if message == "an internal error occurred"@ {
        Some(ApiErrorView::Internal)
    } else if message == "You are already a member of this group."@ {
        Some(ApiErrorView::AlreadyInGroup)
    } else if message == "You have already requested to join this group."@ {
        Some(ApiErrorView::AlreadyInGroupRequests)
    } else {
        None
    }
}

/// The view of an optional failure.
pub open spec fn option_error(e: Option<ApiError>) -> Option<ApiErrorView> {
    match e {
        Some(e) => Some(e@),
        None => None,
    }
}

/// Looks a message up in the table of known messages.
pub fn known_error(message: &str) -> (r: Option<ApiError>)
    ensures
        option_error(r) == known_error_spec(message@),
{
    if str_eq(message, "The asset id is invalid.") {
        Some(ApiError::InvalidAssetId)
    } else if str_eq(message, "Invalid challenge ID.") {
        Some(ApiError::InvalidChallengeId)
    } else if str_eq(message, "User not found.") {
        Some(ApiError::InvalidUser)
    } else if str_eq(message, "The user ID is invalid.") {
        Some(ApiError::InvalidUserId)
    } else if str_eq(message, "The gender provided is invalid.") {
        Some(ApiError::InvalidGender)
    } else if str_eq(message, "The two step verification challenge code is invalid.") {
        Some(ApiError::InvalidTwoStepVerificationCode)
    } else if str_eq(message, "Invalid display name.") {
        Some(ApiError::InvalidDisplayName)
    } else if str_eq(message, "Request must contain a birthdate") {
        Some(ApiError::RequestMissingArgument(String::from_str("Birthdate")))
    } else if str_eq(message, "Token Validation Failed") {
        Some(ApiError::TokenValidation)
    } else if str_eq(message, "XSRF token invalid") {
        Some(ApiError::TokenValidation)
    } else if str_eq(message, "XSRF Token Validation Failed") {
        Some(ApiError::TokenValidation)
    } else if str_eq(message, "\"XSRF Token Validation Failed\"") {
        Some(ApiError::TokenValidation)
    } else if str_eq(message, "Incorrect username or password. Please try again.") {
        Some(ApiError::InvalidCredentials)
    } else if str_eq(message, "You must pass the robot test before logging in.") {
        Some(ApiError::CaptchaFailed)
    } else if str_eq(message, "Account has been locked. Please request a password reset.") {
        Some(ApiError::AccontLocked)
    } else if str_eq(message, "Unable to login. Please use Social Network sign on.") {
        Some(ApiError::SocialNetworkLoginRequired)
    } else if str_eq(message, "Account issue. Please contact Support.") {
        Some(ApiError::AccountIssue)
    } else if str_eq(
        message,
        "Unable to login with provided credentials. Default login is required.",
    ) {
        Some(ApiError::DefaultLoginRequired)
    } else if str_eq(message, "Received credentials are unverified.") {
        Some(ApiError::UnverifiedCredentials)
    } else if str_eq(message, "Existing login session found. Please log out first.") {
        Some(ApiError::ExistingLoginSession)
    } else if str_eq(message, "The account is unable to log in. Please log in to the LuoBu app.") {
        Some(ApiError::LuoBuAppLoginRequired)
    } else if str_eq(message, "Too many attempts. Please wait a bit.") {
        Some(ApiError::Ratelimited)
    } else if str_eq(message, "The account is unable to login. Please log in with the VNG app.") {
        Some(ApiError::VNGAppLoginRequired)
    } else if str_eq(message, "PIN is locked.") {
        Some(ApiError::PinIsLocked)
    } else if str_eq(message, "Invalid birthdate change.") {
        Some(ApiError::InvalidBirthdate)
    } else if str_eq(message, "Challenge failed to authorize request") {
        Some(ApiError::ChallengeFailed)
    } else if str_eq(message, "You do not have permission to view the owners of this asset.") {
        Some(ApiError::PermissionError)
    } else if str_eq(message, "Request Context BrowserTrackerID is missing or invalid.") {
        Some(ApiError::InvalidBrowserTrackerId)
    } else if str_eq(message, "an internal error occurred") {
        Some(ApiError::Internal)
    } else if str_eq(message, "You are already a member of this group.") {
        Some(ApiError::AlreadyInGroup)
    } else if str_eq(message, "You have already requested to join this group.") {
        Some(ApiError::AlreadyInGroupRequests)
    } else {
        None
    }
}

/// The failure that one message names in a response with this status and
/// this challenge in its headers. A message that is not known gives
/// `Unknown` with the status and the message.
pub open spec fn classify_message_spec(
    status: u16,
    message: Seq<char>,
    challenge: Result<ChallengeView, DecodeError>,
) -> ApiErrorView {
    if message == CHALLENGE_REQUIRED_MESSAGE@ {
        match challenge {
            Ok(c) => ApiErrorView::ChallengeRequired(c),
            Err(e) => ApiErrorView::MalformedChallenge(e),
        }
    } else {
        match known_error_spec(message) {
            Some(e) => e,
            None => ApiErrorView::Unknown(status, Some(message)),
        }
    }
}

/// The failure that a response with this status and these messages stands
/// for. The statuses 401, 429 and 500 decide alone. Otherwise one message
/// gives its own failure, and any other number of them gives `Multiple`, in
/// the order received.
pub open spec fn classify_spec(
    status: u16,
    messages: Seq<Seq<char>>,
    challenge: Result<ChallengeView, DecodeError>,
) -> ApiErrorView {
    if status == 401 {
        ApiErrorView::Unauthorized
    } else if status == 429 {
        ApiErrorView::Ratelimited
    } else if status == 500 {
        ApiErrorView::Internal
    } else if messages.len() == 1 {
        classify_message_spec(status, messages[0], challenge)
    } else {
        ApiErrorView::Multiple(
            Seq::new(
                messages.len(),
                |i: int| classify_message_spec(status, messages[i], challenge),
            ),
        )
    }
}

/// Names the failure behind one message.
pub fn classify_message(
    status: u16,
    message: &str,
    challenge: &Result<Challenge, DecodeError>,
) -> (r: ApiError)
    ensures
        r@ == classify_message_spec(status, message@, decoded_view(*challenge)),
{
    if str_eq(message, CHALLENGE_REQUIRED_MESSAGE) {
        match challenge {
            Ok(c) => ApiError::ChallengeRequired(c.clone()),
            Err(e) => ApiError::MalformedChallenge(*e),
        }
    } else {
        match known_error(message) {
            Some(e) => e,
            None => ApiError::Unknown(status, Some(String::from_str(message))),
        }
    }
}

/// Names the failure behind a response that is no success.
pub fn classify(
    status: u16,
    errors: &ErrorsJson,
    challenge: &Result<Challenge, DecodeError>,
) -> (r: ApiError)
    ensures
        r@ == classify_spec(status, errors@, decoded_view(*challenge)),
{
    if status == 401 {
        ApiError::Unauthorized
    } else if status == 429 {
        ApiError::Ratelimited
    } else if status == 500 {
        ApiError::Internal
    } else if errors.errors.len() == 1 {
        classify_message(status, errors.errors[0].message.as_str(), challenge)
    } else {
        let mut out: Vec<ApiError> = Vec::new();
        let mut i: usize = 0;
        while i < errors.errors.len()
            invariant
                i <= errors.errors.len(),
                out@.len() == i,
                forall|k: int|
                    0 <= k < i ==> out@[k]@ == classify_message_spec(
                        status,
                        errors@[k],
                        decoded_view(*challenge),
                    ),
            decreases errors.errors.len() - i,
        {
            out.push(classify_message(status, errors.errors[i].message.as_str(), challenge));
            i = i + 1;
        }
        let r = ApiError::Multiple(out);
        assert(r@->Multiple_0 =~= Seq::new(
            errors@.len(),
            |i: int| classify_message_spec(status, errors@[i], decoded_view(*challenge)),
        ));
        r
    }
}

/// The challenge that a response's headers describe.
pub open spec fn response_challenge(response: ResponseView) -> Result<ChallengeView, DecodeError> {
    challenge_from_headers_spec(
        find_header(response.headers, CHALLENGE_ID_HEADER@),
        find_header(response.headers, CHALLENGE_TYPE_HEADER@),
        find_header(response.headers, CHALLENGE_METADATA_HEADER@),
    )
}

/// The failure that a response with another status than 200 stands for.
pub open spec fn failure_of(response: ResponseView) -> ApiErrorView {
    classify_spec(
        response.status,
        body_messages(json_document(response.body), lossy_text(response.body)),
        response_challenge(response),
    )
}

/// What a transport hands over: a response, or the description of a failure
/// below HTTP.
pub open spec fn outcome_view(result: Result<Response, TransportError>) -> Result<
    ResponseView,
    Seq<char>,
> {
    match result {
        Ok(response) => Ok(response@),
        Err(e) => Err(e.message@),
    }
}

/// The view of a validated result.
pub open spec fn validated_view(result: Result<Response, Error>) -> Result<
    ResponseView,
    ErrorView,
> {
    match result {
        Ok(response) => Ok(response@),
        Err(e) => Err(e@),
    }
}

/// What validation returns: a failure of the transport as it is, a response
/// with status 200 as it is, and for any other response the failure that it
/// stands for.
pub open spec fn validate_spec(result: Result<ResponseView, Seq<char>>) -> Result<
    ResponseView,
    ErrorView,
> {
    match result {
        Err(e) => Err(ErrorView::Transport(e)),
        Ok(response) => if response.status == 200 {
            Ok(response)
        } else {
            Err(ErrorView::ApiError(failure_of(response)))
        },
    }
}

/// The session after a result was validated. The proof is gone, whatever
/// came back. A response that carries a token replaces the one held.
pub open spec fn session_after(
    before: SessionStateView,
    result: Result<ResponseView, Seq<char>>,
) -> SessionStateView {
    SessionStateView {
        csrf_token: match result {
            Ok(response) => match find_header(response.headers, TOKEN_HEADER@) {
                Some(token) => Some(token),
                None => before.csrf_token,
            },
            Err(_) => before.csrf_token,
        },
        challenge_proof: None,
    }
}

/// Names the failure behind a response that is no success, from its
/// headers and its body.
pub fn failure(response: &Response) -> (r: ApiError)
    ensures
        r@ == failure_of(response@),
{
    let challenge = challenge_from_headers(
        response.header(CHALLENGE_ID_HEADER),
        response.header(CHALLENGE_TYPE_HEADER),
        response.header(CHALLENGE_METADATA_HEADER),
    );
    let doc = json::parse(response.body.as_slice());
    let raw = lossy(response.body.as_slice());
    let errors = match &doc {
        Some(d) => ErrorsJson::from_body(Some(d), raw.as_str()),
        None => ErrorsJson::from_body(None, raw.as_str()),
    };
    classify(response.status, &errors, &challenge)
}

impl SessionState {
    /// Validates what a transport handed over for one request, and brings
    /// the session up to date with it.
    pub fn validate(&mut self, result: Result<Response, TransportError>) -> (r: Result<
        Response,
        Error,
    >)
        ensures
            validated_view(r) == validate_spec(outcome_view(result)),
            final(self)@ == session_after(old(self)@, outcome_view(result)),
            result is Ok && result->Ok_0.status == 200 ==> r == Ok::<Response, Error>(result->Ok_0),
    {
        self.remove_challenge();
        match result {
            Ok(response) => {
                match response.header(TOKEN_HEADER) {
                    Some(token) => {
                        self.set_token(token);
                    },
                    None => {},
                }
                if response.status == 200 {
                    Ok(response)
                } else {
                    Err(Error::ApiError(failure(&response)))
                }
            },
            Err(e) => Err(Error::Transport(e)),
        }
    }
}

/// What the token bootstrap makes of a validated result: a response counts,
/// and so does the failure `TokenValidation`, with which the server still
/// hands out a token. Any other failure stays.
pub open spec fn token_outcome(validated: Result<ResponseView, ErrorView>) -> Result<
    (),
    ErrorView,
> {
    match validated {
        Ok(_) => Ok(()),
        Err(ErrorView::ApiError(ApiErrorView::TokenValidation)) => Ok(()),
        Err(e) => Err(e),
    }
}

/// The view of a result that carries nothing on success.
pub open spec fn unit_view(result: Result<(), Error>) -> Result<(), ErrorView> {
    match result {
        Ok(_) => Ok(()),
        Err(e) => Err(e@),
    }
}

/// What `queue_challenge` returns for a challenge, a token and what came
/// back from the request that continues the challenge.
pub open spec fn queue_outcome(
    challenge: ChallengeView,
    verification_token: Seq<char>,
    result: Result<ResponseView, Seq<char>>,
) -> Result<(), ErrorView> {
    if !challenge.kind.resolvable_spec() {
        Err(ErrorView::UnsupportedChallenge(challenge.kind))
    } else {
        match validate_spec(result) {
            Err(e) => Err(e),
            Ok(_) => if encodable(challenge, verification_token) {
                Ok(())
            } else {
                Err(ErrorView::ProofTooLong)
            },
        }
    }
}

/// The session after `queue_challenge`. A challenge that cannot be resolved
/// leaves it as it was. Otherwise the result is validated, and where that
/// gave a success and the proof can be written, the proof is armed.
pub open spec fn session_after_queue(
    before: SessionStateView,
    challenge: ChallengeView,
    verification_token: Seq<char>,
    result: Result<ResponseView, Seq<char>>,
) -> SessionStateView {
    if !challenge.kind.resolvable_spec() {
        before
    } else if queue_outcome(challenge, verification_token, result) is Ok {
        SessionStateView {
            csrf_token: session_after(before, result).csrf_token,
            challenge_proof: Some(encode_spec(challenge, verification_token)),
        }
    } else {
        session_after(before, result)
    }
}

impl Client {
    /// Stores a token in place of the one held.
    pub fn set_token(&mut self, token: &str)
        ensures
            final(self)@.session.csrf_token == Some(token@),
            final(self)@.session.challenge_proof == old(self)@.session.challenge_proof,
            final(self)@.base_headers == old(self)@.base_headers,
            final(self)@.ratelimit == old(self)@.ratelimit,
    {
        self.requestor.session.set_token(token);
    }

    /// Validates what a transport handed over for one request. A response
    /// with status 200 comes back as it is, body and all. An armed proof is
    /// dropped, and a token in the response is kept, whatever the outcome.
    pub fn validate_response(&mut self, result: Result<Response, TransportError>) -> (r: Result<
        Response,
        Error,
    >)
        ensures
            validated_view(r) == validate_spec(outcome_view(result)),
            final(self)@.session == session_after(old(self)@.session, outcome_view(result)),
            final(self)@.base_headers == old(self)@.base_headers,
            final(self)@.ratelimit == old(self)@.ratelimit,
            result is Ok && result->Ok_0.status == 200 ==> r == Ok::<Response, Error>(result->Ok_0),
    {
        self.requestor.session.validate(result)
    }

    /// The request that asks the server for a token: an empty `POST`, sent
    /// for the sake of the header that comes back.
    pub fn token_request(&self) -> (r: Request)
        ensures
            r@.method == Method::Post,
            r@.url == auth::v1::URL@ + "//"@,
            r@.query == Seq::<crate::client::HeaderView>::empty(),
            r@.headers == self@.default_headers(),
            r@.body == BodyView::Empty,
    {
        let mut url = String::from_str(auth::v1::URL);
        url.append("//");
        self.request(Method::Post, url, Body::Empty)
    }

    /// Reads what came back from `token_request`. The response's token is
    /// kept by validation; the failure `TokenValidation` counts as success.
    pub fn ensure_token(&mut self, result: Result<Response, TransportError>) -> (r: Result<
        (),
        Error,
    >)
        ensures
            unit_view(r) == token_outcome(validate_spec(outcome_view(result))),
            final(self)@.session == session_after(old(self)@.session, outcome_view(result)),
            final(self)@.base_headers == old(self)@.base_headers,
            final(self)@.ratelimit == old(self)@.ratelimit,
    {
        match self.validate_response(result) {
            Ok(_) => Ok(()),
            Err(Error::ApiError(ApiError::TokenValidation)) => Ok(()),
            Err(e) => Err(e),
        }
    }

    /// Reads what came back from the request that continues a challenge,
    /// and on success arms the session with the proof for the next request.
    /// A challenge of a kind that cannot be resolved fails at once and
    /// leaves the session alone.
    pub fn queue_challenge(
        &mut self,
        challenge: &Challenge,
        verification_token: &str,
        result: Result<Response, TransportError>,
    ) -> (r: Result<(), Error>)
        ensures
            unit_view(r) == queue_outcome(challenge@, verification_token@, outcome_view(result)),
            final(self)@.session == session_after_queue(
                old(self)@.session,
                challenge@,
                verification_token@,
                outcome_view(result),
            ),
            final(self)@.base_headers == old(self)@.base_headers,
            final(self)@.ratelimit == old(self)@.ratelimit,
    {
        if !challenge.kind.is_resolvable() {
            return Err(Error::UnsupportedChallenge(challenge.kind));
        }
        match self.validate_response(result) {
            Err(e) => Err(e),
            Ok(_) => match challenge.encode(verification_token) {
                Some(proof) => {
                    self.requestor.queue_challenge(proof);
                    Ok(())
                },
                None => Err(Error::ProofTooLong),
            },
        }
    }
}

} // verus!
