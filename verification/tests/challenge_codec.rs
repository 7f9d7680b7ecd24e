use roblox_api::challenge::{
    challenge_from_headers, ActionType, Challenge, ChallengeMetadata, ChallengeMetadataRequest,
    ChallengeType, ChefChallengeMetadata, DecodeError,
};
use roblox_api::json::{parse, Json, JsonMember};

const LOGIN_METADATA: &str =
    "eyJ1c2VySWQiOiIxMjM0IiwiY2hhbGxlbmdlSWQiOiJzcnYtMSIsImFjdGlvblR5cGUiOiJMb2dpbiIsInJlbWVtYmVyRGV2aWNlIjp0cnVlfQ==";

const CHEF_METADATA: &str =
    "eyJ1c2VySWQiOiI3NyIsImNoYWxsZW5nZUlkIjoiY2hlZi05IiwiZXhwZWN0ZWRTeW1ib2xzIjpbImEiLCJiIl0sInNjcmlwdElkZW50aWZpZXJzIjpbInMxIl19";

fn login_challenge(kind: ChallengeType) -> Challenge {
    Challenge {
        id: "challenge-1".to_string(),
        kind,
        metadata: ChallengeMetadata {
            user_id: "1234".to_string(),
            server_challenge_id: "srv-1".to_string(),
            action_type: ActionType::Login,
            remember_device: true,
        },
    }
}

fn member(name: &str, value: Json) -> JsonMember {
    JsonMember { name: name.to_string(), value }
}

fn text(s: &str) -> Json {
    Json::Text(s.to_string())
}

#[test]
fn decode_reads_the_three_headers() {
    let challenge = Challenge::decode("challenge-1", "twostepverification", LOGIN_METADATA).unwrap();
    assert_eq!(challenge, login_challenge(ChallengeType::TwoStepVerification));
}

#[test]
fn decode_takes_an_unknown_kind_for_generic() {
    let challenge = Challenge::decode("challenge-1", "something-new", LOGIN_METADATA).unwrap();
    assert_eq!(challenge.kind, ChallengeType::Generic);
}

#[test]
fn decode_reads_each_kind_by_its_wire_name() {
    let kinds = [
        ChallengeType::Generic,
        ChallengeType::Captcha,
        ChallengeType::TwoStepVerification,
        ChallengeType::Reauthentication,
        ChallengeType::SecurityQuestions,
    ];
    for kind in kinds {
        let challenge = Challenge::decode("challenge-1", kind.wire_name(), LOGIN_METADATA).unwrap();
        assert_eq!(challenge, login_challenge(kind));
        assert_eq!(ChallengeType::from(kind.wire_name()), kind);
    }
    assert_eq!(ChallengeType::from("chef"), ChallengeType::Chef);
}

#[test]
fn decode_of_chef_checks_the_shape_of_that_kind() {
    let challenge = Challenge::decode("challenge-2", "chef", CHEF_METADATA).unwrap();
    assert_eq!(
        challenge,
        Challenge {
            id: "challenge-2".to_string(),
            kind: ChallengeType::Chef,
            metadata: ChallengeMetadata {
                user_id: "77".to_string(),
                server_challenge_id: "chef-9".to_string(),
                action_type: ActionType::Unknown,
                remember_device: false,
            },
        }
    );
    assert_eq!(
        Challenge::decode("challenge-2", "chef", LOGIN_METADATA),
        Err(DecodeError::InvalidMetadata)
    );
    assert_eq!(
        Challenge::decode("challenge-2", "generic", CHEF_METADATA),
        Err(DecodeError::InvalidMetadata)
    );
}

#[test]
fn chef_metadata_is_read_from_json() {
    let doc = parse(
        br#"{"userId":"77","challengeId":"chef-9","expectedSymbols":["a","b"],"scriptIdentifiers":["s1"]}"#,
    )
    .unwrap();
    assert_eq!(
        ChefChallengeMetadata::from_json(&doc),
        Some(ChefChallengeMetadata {
            user_id: "77".to_string(),
            server_challenge_id: "chef-9".to_string(),
            expected_symbols: vec!["a".to_string(), "b".to_string()],
            script_identifiers: vec!["s1".to_string()],
        })
    );
    let wrong = parse(
        br#"{"userId":"77","challengeId":"chef-9","expectedSymbols":["a",1],"scriptIdentifiers":[]}"#,
    )
    .unwrap();
    assert_eq!(ChefChallengeMetadata::from_json(&wrong), None);
}

#[test]
fn decode_names_each_way_to_fail() {
    assert_eq!(
        Challenge::decode("c", "generic", "@@@ not base64 @@@"),
        Err(DecodeError::InvalidBase64)
    );
    assert_eq!(Challenge::decode("c", "generic", "bm90IGpzb24="), Err(DecodeError::InvalidJson));
    // no `rememberDevice`
    assert_eq!(
        Challenge::decode(
            "c",
            "generic",
            "eyJ1c2VySWQiOiIxMjM0IiwiY2hhbGxlbmdlSWQiOiJzcnYtMSIsImFjdGlvblR5cGUiOiJMb2dpbiJ9"
        ),
        Err(DecodeError::InvalidMetadata)
    );
    // an action that does not exist
    assert_eq!(
        Challenge::decode(
            "c",
            "generic",
            "eyJ1c2VySWQiOiIxIiwiY2hhbGxlbmdlSWQiOiJjIiwiYWN0aW9uVHlwZSI6Ik5vcGUiLCJyZW1lbWJlckRldmljZSI6dHJ1ZX0="
        ),
        Err(DecodeError::InvalidMetadata)
    );
}

#[test]
fn challenge_from_headers_wants_all_three() {
    assert_eq!(
        challenge_from_headers(Some("challenge-1"), Some("generic"), Some(LOGIN_METADATA)),
        Ok(login_challenge(ChallengeType::Generic))
    );
    assert_eq!(
        challenge_from_headers(None, Some("generic"), Some(LOGIN_METADATA)),
        Err(DecodeError::MissingHeader)
    );
    assert_eq!(
        challenge_from_headers(Some("challenge-1"), None, Some(LOGIN_METADATA)),
        Err(DecodeError::MissingHeader)
    );
    assert_eq!(
        challenge_from_headers(Some("challenge-1"), Some("generic"), None),
        Err(DecodeError::MissingHeader)
    );
    assert_eq!(challenge_from_headers(None, None, None), Err(DecodeError::MissingHeader));
}

#[test]
fn from_document_reads_a_document_written_by_hand() {
    let doc = Json::Object(vec![
        member("userId", text("1234")),
        member("challengeId", text("srv-1")),
        member("actionType", text("Login")),
        member("rememberDevice", Json::Bool(true)),
        member("somethingElse", Json::Null),
    ]);
    assert_eq!(
        Challenge::from_document("challenge-1", ChallengeType::Reauthentication, &doc),
        Ok(login_challenge(ChallengeType::Reauthentication))
    );
    let wrong_type = Json::Object(vec![
        member("userId", Json::Number("1234".to_string())),
        member("challengeId", text("srv-1")),
        member("actionType", text("Login")),
        member("rememberDevice", Json::Bool(true)),
    ]);
    assert_eq!(
        Challenge::from_document("challenge-1", ChallengeType::Generic, &wrong_type),
        Err(DecodeError::InvalidMetadata)
    );
    assert_eq!(
        Challenge::from_document("challenge-1", ChallengeType::Generic, &Json::Array(vec![])),
        Err(DecodeError::InvalidMetadata)
    );
}

#[test]
fn encode_writes_the_three_proof_headers() {
    let challenge = Challenge {
        id: "challenge-1".to_string(),
        kind: ChallengeType::Generic,
        metadata: ChallengeMetadata {
            user_id: "1234".to_string(),
            server_challenge_id: "abc".to_string(),
            action_type: ActionType::Generic,
            remember_device: true,
        },
    };
    let proof = challenge.encode("tok").unwrap();
    assert_eq!(proof.id, "challenge-1");
    assert_eq!(proof.kind, "generic");
    assert_eq!(
        proof.metadata,
        "eyJ2ZXJpZmljYXRpb25Ub2tlbiI6InRvayIsImNoYWxsZW5nZUlkIjoiYWJjIiwiYWN0aW9uVHlwZSI6IkdlbmVyaWMiLCJyZW1lbWJlckRldmljZSI6dHJ1ZX0="
    );
}

#[test]
fn encode_escapes_the_token_and_writes_the_lower_case_kind() {
    let mut challenge = login_challenge(ChallengeType::TwoStepVerification);
    challenge.metadata.remember_device = false;
    let proof = challenge.encode("a\"b").unwrap();
    assert_eq!(proof.kind, "twostepverification");
    assert_eq!(
        proof.metadata,
        "eyJ2ZXJpZmljYXRpb25Ub2tlbiI6ImFcImIiLCJjaGFsbGVuZ2VJZCI6InNydi0xIiwiYWN0aW9uVHlwZSI6IkxvZ2luIiwicmVtZW1iZXJEZXZpY2UiOmZhbHNlfQ=="
    );
    assert_eq!(
        login_challenge(ChallengeType::SecurityQuestions).encode("t").unwrap().kind,
        "security-questions"
    );
}

#[test]
fn the_answer_is_written_as_json_in_a_fixed_order() {
    let request = ChallengeMetadataRequest::new(&login_challenge(ChallengeType::Generic), "line\nbreak");
    assert_eq!(request.verification_token, "line\nbreak");
    assert_eq!(request.challenge_id, "srv-1");
    assert_eq!(request.action_type, ActionType::Login);
    assert!(request.remember_device);
    assert_eq!(
        request.to_json(),
        r#"{"verificationToken":"line\nbreak","challengeId":"srv-1","actionType":"Login","rememberDevice":true}"#
    );
}

#[test]
fn what_encode_writes_lacks_the_user_and_does_not_decode() {
    let challenge = login_challenge(ChallengeType::Generic);
    let proof = challenge.encode("tok").unwrap();
    assert_eq!(
        Challenge::decode(&proof.id, &proof.kind, &proof.metadata),
        Err(DecodeError::InvalidMetadata)
    );
}

#[test]
fn kinds_and_actions_come_back_from_their_names() {
    let actions = [
        ActionType::Unknown,
        ActionType::Login,
        ActionType::RobuxSpend,
        ActionType::ItemTrade,
        ActionType::Resale,
        ActionType::PasswordReset,
        ActionType::RevertAccount,
        ActionType::Generic,
        ActionType::GenericWithRecoveryCodes,
    ];
    for action in actions {
        assert_eq!(ActionType::from_name(action.name()), Some(action));
        assert_eq!(action.to_string(), action.name());
    }
    assert_eq!(ActionType::from_name("login"), None);
    assert_eq!(ActionType::default(), ActionType::Unknown);
    assert_eq!(ChallengeType::default(), ChallengeType::Generic);
    assert_eq!(ChallengeType::TwoStepVerification.to_string(), "TwoStepVerification");
    assert!(ChallengeType::Generic.is_resolvable());
    assert!(ChallengeType::TwoStepVerification.is_resolvable());
    assert!(!ChallengeType::Captcha.is_resolvable());
    assert!(!ChallengeType::Chef.is_resolvable());
}

#[test]
fn metadata_round_trip_through_a_document() {
    let metadata = ChallengeMetadata {
        user_id: "9".to_string(),
        server_challenge_id: "s".to_string(),
        action_type: ActionType::RobuxSpend,
        remember_device: false,
    };
    let doc = Json::Object(vec![
        member("userId", text("9")),
        member("challengeId", text("s")),
        member("actionType", text(ActionType::RobuxSpend.name())),
        member("rememberDevice", Json::Bool(false)),
    ]);
    assert_eq!(metadata.to_json(), doc);
    assert_eq!(ChallengeMetadata::from_json(&doc), Some(metadata));
}

#[test]
fn metadata_that_was_written_is_read_back() {
    let actions = [ActionType::Unknown, ActionType::Login, ActionType::GenericWithRecoveryCodes];
    for action_type in actions {
        for remember_device in [false, true] {
            let metadata = ChallengeMetadata {
                user_id: "u\"1".to_string(),
                server_challenge_id: String::new(),
                action_type,
                remember_device,
            };
            assert_eq!(ChallengeMetadata::from_json(&metadata.to_json()), Some(metadata));
        }
    }
}
