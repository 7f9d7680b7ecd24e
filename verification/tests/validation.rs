use roblox_api::challenge::{
    ActionType, Challenge, ChallengeMetadata, ChallengeType, DecodeError,
};
use roblox_api::client::{Client, Cookie, Header, Response, SessionState};
use roblox_api::json::{parse, Json, JsonMember};
use roblox_api::validation::{
    classify, classify_message, failure, known_error, DataErrorJson, ErrorJson, ErrorsJson,
};
use roblox_api::{ApiError, Error, TransportError};

const LOGIN_METADATA: &str =
    "eyJ1c2VySWQiOiIxMjM0IiwiY2hhbGxlbmdlSWQiOiJzcnYtMSIsImFjdGlvblR5cGUiOiJMb2dpbiIsInJlbWVtYmVyRGV2aWNlIjp0cnVlfQ==";

fn response(status: u16, headers: &[(&str, &str)], body: &str) -> Response {
    Response {
        status,
        headers: headers.iter().map(|(n, v)| Header::new(n, v)).collect(),
        body: body.as_bytes().to_vec(),
    }
}

fn no_challenge() -> Result<Challenge, DecodeError> {
    Err(DecodeError::MissingHeader)
}

fn api_error(result: Result<Response, Error>) -> ApiError {
    match result {
        Err(Error::ApiError(e)) => e,
        other => panic!("expected a failure of the server, got {:?}", other),
    }
}

#[test]
fn two_errors_come_back_as_multiple_in_their_order() {
    let mut client = Client::default();
    let body = r#"{"errors":[{"message":"User not found."},{"message":"The gender provided is invalid."}]}"#;
    let result = client.validate_response(Ok(response(400, &[], body)));
    assert_eq!(
        api_error(result),
        ApiError::Multiple(vec![ApiError::InvalidUser, ApiError::InvalidGender])
    );
}

#[test]
fn status_200_hands_the_response_on_with_its_body() {
    let mut client = Client::default();
    let sent = response(200, &[("content-type", "application/json")], r#"{"id":1}"#);
    let result = client.validate_response(Ok(response(
        200,
        &[("content-type", "application/json")],
        r#"{"id":1}"#,
    )));
    assert_eq!(result, Ok(sent));
}

#[test]
fn status_200_is_a_success_even_with_an_error_in_the_body() {
    let mut client = Client::default();
    let result = client.validate_response(Ok(response(200, &[], r#"{"message":"User not found."}"#)));
    assert!(result.is_ok());
}

#[test]
fn other_2xx_statuses_are_failures() {
    let mut client = Client::default();
    let result = client.validate_response(Ok(response(201, &[], r#"{"message":"User not found."}"#)));
    assert_eq!(api_error(result), ApiError::InvalidUser);
    let result = client.validate_response(Ok(response(204, &[], "")));
    assert_eq!(api_error(result), ApiError::Unknown(204, Some(String::new())));
}

#[test]
fn a_required_challenge_is_read_from_the_headers() {
    let mut client = Client::default();
    let result = client.validate_response(Ok(response(
        403,
        &[
            ("rblx-challenge-id", "challenge-1"),
            ("rblx-challenge-type", "generic"),
            ("rblx-challenge-metadata", LOGIN_METADATA),
        ],
        r#"{"errors":[{"code":0,"message":"Challenge is required to authorize the request"}]}"#,
    )));
    assert_eq!(
        api_error(result),
        ApiError::ChallengeRequired(Challenge {
            id: "challenge-1".to_string(),
            kind: ChallengeType::Generic,
            metadata: ChallengeMetadata {
                user_id: "1234".to_string(),
                server_challenge_id: "srv-1".to_string(),
                action_type: ActionType::Login,
                remember_device: true,
            },
        })
    );
}

#[test]
fn a_required_challenge_without_headers_is_malformed() {
    let mut client = Client::default();
    let body = r#"{"message":"Challenge is required to authorize the request"}"#;
    let result = client.validate_response(Ok(response(403, &[], body)));
    assert_eq!(api_error(result), ApiError::MalformedChallenge(DecodeError::MissingHeader));
    let result = client.validate_response(Ok(response(
        403,
        &[("rblx-challenge-id", "challenge-1"), ("rblx-challenge-type", "generic")],
        body,
    )));
    assert_eq!(api_error(result), ApiError::MalformedChallenge(DecodeError::MissingHeader));
}

#[test]
fn a_required_challenge_with_bad_headers_is_malformed() {
    let mut client = Client::default();
    let body = r#"{"message":"Challenge is required to authorize the request"}"#;
    let with_metadata = |metadata: &str| {
        response(
            403,
            &[
                ("rblx-challenge-id", "challenge-1"),
                ("rblx-challenge-type", "generic"),
                ("rblx-challenge-metadata", metadata),
            ],
            body,
        )
    };
    let result = client.validate_response(Ok(with_metadata("***")));
    assert_eq!(api_error(result), ApiError::MalformedChallenge(DecodeError::InvalidBase64));
    let result = client.validate_response(Ok(with_metadata("bm90IGpzb24=")));
    assert_eq!(api_error(result), ApiError::MalformedChallenge(DecodeError::InvalidJson));
    let result = client.validate_response(Ok(with_metadata("e30=")));
    assert_eq!(api_error(result), ApiError::MalformedChallenge(DecodeError::InvalidMetadata));
}

#[test]
fn challenge_headers_are_passed_over_without_the_message() {
    let mut client = Client::default();
    let result = client.validate_response(Ok(response(
        403,
        &[
            ("rblx-challenge-id", "challenge-1"),
            ("rblx-challenge-type", "generic"),
            ("rblx-challenge-metadata", "***"),
        ],
        r#"{"message":"Challenge failed to authorize request"}"#,
    )));
    assert_eq!(api_error(result), ApiError::ChallengeFailed);
}

#[test]
fn the_three_shapes_give_the_same_failure() {
    let messages = [
        "User not found.",
        "Token Validation Failed",
        "Something that nobody has seen",
        "Request must contain a birthdate",
    ];
    for message in messages {
        let quoted = format!("{:?}", message);
        let list = format!(r#"{{"errors":[{{"message":{}}}]}}"#, quoted);
        let single = format!(r#"{{"message":{}}}"#, quoted);
        let data = format!(r#"{{"isValid":false,"data":null,"error":{}}}"#, quoted);
        let from_list = failure(&response(400, &[], &list));
        let from_single = failure(&response(400, &[], &single));
        let from_data = failure(&response(400, &[], &data));
        assert_eq!(from_list, from_single);
        assert_eq!(from_single, from_data);
        assert_eq!(from_list, classify_message(400, message, &no_challenge()));
    }
}

#[test]
fn status_401_is_unauthorized_whatever_the_body() {
    let bodies = [
        "",
        "{",
        "\u{0}\u{1}",
        r#"{"message":"User not found."}"#,
        r#"{"errors":[{"message":"a"},{"message":"b"}]}"#,
        r#"{"message":"Challenge is required to authorize the request"}"#,
    ];
    for body in bodies {
        let mut client = Client::default();
        let result = client.validate_response(Ok(response(401, &[], body)));
        assert_eq!(api_error(result), ApiError::Unauthorized);
    }
    let mut client = Client::default();
    let result = client.validate_response(Ok(Response {
        status: 401,
        headers: vec![],
        body: vec![0xff, 0xfe, 0x00],
    }));
    assert_eq!(api_error(result), ApiError::Unauthorized);
}

#[test]
fn status_429_is_ratelimited_and_500_is_internal() {
    let bodies = ["", "not json", r#"{"message":"User not found."}"#, r#"{"errors":[]}"#];
    for body in bodies {
        let mut client = Client::default();
        let result = client.validate_response(Ok(response(429, &[], body)));
        assert_eq!(api_error(result), ApiError::Ratelimited);
        let result = client.validate_response(Ok(response(500, &[], body)));
        assert_eq!(api_error(result), ApiError::Internal);
    }
}

#[test]
fn an_unknown_message_keeps_status_and_text() {
    let mut client = Client::default();
    let result = client.validate_response(Ok(response(418, &[], r#"{"message":"I am a teapot"}"#)));
    assert_eq!(api_error(result), ApiError::Unknown(418, Some("I am a teapot".to_string())));
}

#[test]
fn a_body_of_no_known_shape_is_its_own_message() {
    let mut client = Client::default();
    let result = client.validate_response(Ok(response(400, &[], "<html>Bad Request</html>")));
    assert_eq!(
        api_error(result),
        ApiError::Unknown(400, Some("<html>Bad Request</html>".to_string()))
    );
    let result = client.validate_response(Ok(response(400, &[], r#"{"code":7}"#)));
    assert_eq!(api_error(result), ApiError::Unknown(400, Some(r#"{"code":7}"#.to_string())));
    let result = client.validate_response(Ok(response(403, &[], "Token Validation Failed")));
    assert_eq!(api_error(result), ApiError::TokenValidation);
}

#[test]
fn bytes_that_are_no_text_are_read_with_replacement_characters() {
    let mut client = Client::default();
    let result = client.validate_response(Ok(Response {
        status: 400,
        headers: vec![],
        body: vec![b'a', 0xff, b'b'],
    }));
    assert_eq!(api_error(result), ApiError::Unknown(400, Some("a\u{fffd}b".to_string())));
}

#[test]
fn a_list_with_a_broken_entry_is_no_list() {
    // The second entry has no message, so the body is not a list of failures;
    // it has a message of its own, which is taken.
    let body = r#"{"errors":[{"message":"User not found."},{"code":1}],"message":"PIN is locked."}"#;
    assert_eq!(failure(&response(400, &[], body)), ApiError::PinIsLocked);
    let body = r#"{"errors":"none","error":"Invalid display name."}"#;
    assert_eq!(failure(&response(400, &[], body)), ApiError::InvalidDisplayName);
}

#[test]
fn an_empty_list_of_errors_is_an_empty_multiple() {
    assert_eq!(failure(&response(400, &[], r#"{"errors":[]}"#)), ApiError::Multiple(vec![]));
}

#[test]
fn the_list_comes_before_the_single_shapes() {
    let body = r#"{"message":"PIN is locked.","error":"Invalid display name.","errors":[{"message":"User not found."}]}"#;
    assert_eq!(failure(&response(400, &[], body)), ApiError::InvalidUser);
    let body = r#"{"error":"Invalid display name.","message":"PIN is locked."}"#;
    assert_eq!(failure(&response(400, &[], body)), ApiError::PinIsLocked);
}

#[test]
fn every_known_message_names_its_failure() {
    let table: Vec<(&str, ApiError)> = vec![
        ("The asset id is invalid.", ApiError::InvalidAssetId),
        ("Invalid challenge ID.", ApiError::InvalidChallengeId),
        ("User not found.", ApiError::InvalidUser),
        ("The user ID is invalid.", ApiError::InvalidUserId),
        ("The gender provided is invalid.", ApiError::InvalidGender),
        (
            "The two step verification challenge code is invalid.",
            ApiError::InvalidTwoStepVerificationCode,
        ),
        ("Invalid display name.", ApiError::InvalidDisplayName),
        (
            "Request must contain a birthdate",
            ApiError::RequestMissingArgument("Birthdate".to_string()),
        ),
        ("Token Validation Failed", ApiError::TokenValidation),
        ("XSRF token invalid", ApiError::TokenValidation),
        ("XSRF Token Validation Failed", ApiError::TokenValidation),
        ("\"XSRF Token Validation Failed\"", ApiError::TokenValidation),
        ("Incorrect username or password. Please try again.", ApiError::InvalidCredentials),
        ("You must pass the robot test before logging in.", ApiError::CaptchaFailed),
        ("Account has been locked. Please request a password reset.", ApiError::AccontLocked),
        (
            "Unable to login. Please use Social Network sign on.",
            ApiError::SocialNetworkLoginRequired,
        ),
        ("Account issue. Please contact Support.", ApiError::AccountIssue),
        (
            "Unable to login with provided credentials. Default login is required.",
            ApiError::DefaultLoginRequired,
        ),
        ("Received credentials are unverified.", ApiError::UnverifiedCredentials),
        ("Existing login session found. Please log out first.", ApiError::ExistingLoginSession),
        (
            "The account is unable to log in. Please log in to the LuoBu app.",
            ApiError::LuoBuAppLoginRequired,
        ),
        ("Too many attempts. Please wait a bit.", ApiError::Ratelimited),
        (
            "The account is unable to login. Please log in with the VNG app.",
            ApiError::VNGAppLoginRequired,
        ),
        ("PIN is locked.", ApiError::PinIsLocked),
        ("Invalid birthdate change.", ApiError::InvalidBirthdate),
        ("Challenge failed to authorize request", ApiError::ChallengeFailed),
        (
            "You do not have permission to view the owners of this asset.",
            ApiError::PermissionError,
        ),
        (
            "Request Context BrowserTrackerID is missing or invalid.",
            ApiError::InvalidBrowserTrackerId,
        ),
        ("an internal error occurred", ApiError::Internal),
        ("You are already a member of this group.", ApiError::AlreadyInGroup),
        ("You have already requested to join this group.", ApiError::AlreadyInGroupRequests),
    ];
    for (message, error) in table {
        assert_eq!(known_error(message), Some(error.clone()));
        assert_eq!(classify_message(403, message, &no_challenge()), error);
    }
    assert_eq!(known_error("user not found."), None);
    assert_eq!(known_error("Challenge is required to authorize the request"), None);
    assert_eq!(known_error(""), None);
}

#[test]
fn classify_on_lists_written_by_hand() {
    let one = ErrorsJson { errors: vec![ErrorJson { message: "PIN is locked.".to_string() }] };
    assert_eq!(classify(400, &one, &no_challenge()), ApiError::PinIsLocked);
    assert_eq!(classify(401, &one, &no_challenge()), ApiError::Unauthorized);
    assert_eq!(classify(429, &one, &no_challenge()), ApiError::Ratelimited);
    assert_eq!(classify(500, &one, &no_challenge()), ApiError::Internal);
    let challenge = Challenge {
        id: "c".to_string(),
        kind: ChallengeType::Captcha,
        metadata: ChallengeMetadata {
            user_id: "1".to_string(),
            server_challenge_id: "s".to_string(),
            action_type: ActionType::Generic,
            remember_device: false,
        },
    };
    let two = ErrorsJson {
        errors: vec![
            ErrorJson { message: "Challenge is required to authorize the request".to_string() },
            ErrorJson { message: "what".to_string() },
        ],
    };
    assert_eq!(
        classify(403, &two, &Ok(challenge.clone())),
        ApiError::Multiple(vec![
            ApiError::ChallengeRequired(challenge),
            ApiError::Unknown(403, Some("what".to_string())),
        ])
    );
}

#[test]
fn the_shapes_are_read_from_documents() {
    let doc = parse(br#"{"errors":[{"message":"a","code":1},{"message":"b"}]}"#).unwrap();
    assert_eq!(
        ErrorsJson::from_json(&doc),
        Some(ErrorsJson {
            errors: vec![
                ErrorJson { message: "a".to_string() },
                ErrorJson { message: "b".to_string() },
            ],
        })
    );
    assert_eq!(ErrorJson::from_json(&doc), None);
    assert_eq!(DataErrorJson::from_json(&doc), None);
    let single = Json::Object(vec![JsonMember {
        name: "message".to_string(),
        value: Json::Text("m".to_string()),
    }]);
    assert_eq!(ErrorJson::from_json(&single), Some(ErrorJson { message: "m".to_string() }));
    assert_eq!(ErrorsJson::from_json(&single), None);
    let data = parse(br#"{"error":"e","isValid":false}"#).unwrap();
    assert_eq!(DataErrorJson::from_json(&data), Some(DataErrorJson { message: "e".to_string() }));
    let not_text = parse(br#"{"message":null,"error":5}"#).unwrap();
    assert_eq!(ErrorJson::from_json(&not_text), None);
    assert_eq!(DataErrorJson::from_json(&not_text), None);
    assert_eq!(
        ErrorsJson::from_body(Some(&not_text), "raw"),
        ErrorsJson { errors: vec![ErrorJson { message: "raw".to_string() }] }
    );
    assert_eq!(
        ErrorsJson::from_body(None, "raw"),
        ErrorsJson { errors: vec![ErrorJson { message: "raw".to_string() }] }
    );
}

#[test]
fn a_failure_of_the_transport_is_handed_on() {
    let mut client = Client::default();
    client.set_token("t");
    let result =
        client.validate_response(Err(TransportError { message: "connection refused".to_string() }));
    assert_eq!(
        result,
        Err(Error::Transport(TransportError { message: "connection refused".to_string() }))
    );
    assert_eq!(client.requestor.session.csrf_token, Some("t".to_string()));
}

#[test]
fn a_token_in_the_response_replaces_the_one_held() {
    let mut client = Client::default();
    assert_eq!(client.requestor.session.csrf_token, None);
    let _ = client.validate_response(Ok(response(403, &[("x-csrf-token", "first")], "")));
    assert_eq!(client.requestor.session.csrf_token, Some("first".to_string()));
    let _ = client.validate_response(Ok(response(200, &[("x-csrf-token", "second")], "{}")));
    assert_eq!(client.requestor.session.csrf_token, Some("second".to_string()));
    let _ = client.validate_response(Ok(response(200, &[], "{}")));
    assert_eq!(client.requestor.session.csrf_token, Some("second".to_string()));
    let headers = client.default_headers();
    assert_eq!(headers, vec![Header::new("x-csrf-token", "second")]);
}

#[test]
fn ensure_token_takes_token_validation_for_success() {
    let mut client = Client::from_cookie(Cookie::from("secret"));
    let request = client.token_request();
    assert_eq!(request.url, "https://auth.roblox.com/v1//");
    let result = client.ensure_token(Ok(response(
        403,
        &[("x-csrf-token", "fresh")],
        r#"{"errors":[{"code":0,"message":"XSRF Token Validation Failed"}]}"#,
    )));
    assert_eq!(result, Ok(()));
    assert_eq!(client.requestor.session.csrf_token, Some("fresh".to_string()));
}

#[test]
fn ensure_token_hands_other_failures_on() {
    let mut client = Client::default();
    assert_eq!(client.ensure_token(Ok(response(200, &[], ""))), Ok(()));
    assert_eq!(
        client.ensure_token(Ok(response(403, &[], "Token Validation Failed"))),
        Ok(())
    );
    assert_eq!(
        client.ensure_token(Ok(response(401, &[], ""))),
        Err(Error::ApiError(ApiError::Unauthorized))
    );
    assert_eq!(
        client.ensure_token(Ok(response(
            403,
            &[],
            r#"{"errors":[{"message":"XSRF Token Validation Failed"},{"message":"PIN is locked."}]}"#
        ))),
        Err(Error::ApiError(ApiError::Multiple(vec![
            ApiError::TokenValidation,
            ApiError::PinIsLocked
        ])))
    );
    assert_eq!(
        client.ensure_token(Err(TransportError { message: "down".to_string() })),
        Err(Error::Transport(TransportError { message: "down".to_string() }))
    );
}

#[test]
fn session_state_validates_by_itself() {
    let mut session = SessionState::new();
    let result = session.validate(Ok(response(404, &[("x-csrf-token", "t")], r#"{"error":"User not found."}"#)));
    assert_eq!(result, Err(Error::ApiError(ApiError::InvalidUser)));
    assert_eq!(session.csrf_token, Some("t".to_string()));
    assert_eq!(session.challenge_proof, None);
}

#[test]
fn a_failure_is_written_out_by_its_name() {
    assert_eq!(ApiError::Internal.to_string(), "Internal");
    assert_eq!(ApiError::Unknown(400, None).to_string(), "Unknown");
    assert_eq!(ApiError::Multiple(vec![]).to_string(), "Multiple");
    assert_eq!(ApiError::AccontLocked.to_string(), "AccontLocked");
    assert_eq!(
        ApiError::MalformedChallenge(DecodeError::MissingHeader).to_string(),
        "MalformedChallenge"
    );
}

#[test]
fn api_error_clone_copies_every_level() {
    let error = ApiError::Multiple(vec![
        ApiError::Unknown(400, Some("x".to_string())),
        ApiError::Unknown(400, None),
        ApiError::RequestMissingArgument("Birthdate".to_string()),
        ApiError::Multiple(vec![ApiError::Internal]),
        ApiError::MalformedChallenge(DecodeError::InvalidJson),
    ]);
    assert_eq!(error.clone(), error);
}
