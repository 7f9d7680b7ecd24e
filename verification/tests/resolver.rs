use roblox_api::api::challenge::v1::continue_challenge;
use roblox_api::challenge::{
    ActionType, Challenge, ChallengeMetadata, ChallengeProof, ChallengeType,
};
use roblox_api::client::{
    header_value, insert_header, Body, Client, ClientRequestor, Cookie, Header, Method, Response,
    SessionState,
};
use roblox_api::ratelimit::Ratelimit;
use roblox_api::{ApiError, Error, TransportError};

fn challenge(kind: ChallengeType) -> Challenge {
    Challenge {
        id: "challenge-1".to_string(),
        kind,
        metadata: ChallengeMetadata {
            user_id: "1234".to_string(),
            server_challenge_id: "abc".to_string(),
            action_type: ActionType::Generic,
            remember_device: true,
        },
    }
}

fn response(status: u16, headers: &[(&str, &str)], body: &str) -> Response {
    Response {
        status,
        headers: headers.iter().map(|(n, v)| Header::new(n, v)).collect(),
        body: body.as_bytes().to_vec(),
    }
}

const PROOF_METADATA: &str =
    "eyJ2ZXJpZmljYXRpb25Ub2tlbiI6InRvayIsImNoYWxsZW5nZUlkIjoiYWJjIiwiYWN0aW9uVHlwZSI6IkdlbmVyaWMiLCJyZW1lbWJlckRldmljZSI6dHJ1ZX0=";

#[test]
fn continue_challenge_asks_with_the_answer_as_a_string() {
    let client = Client::from_cookie(Cookie::from("secret"));
    let request = continue_challenge(&client, &challenge(ChallengeType::TwoStepVerification), "tok")
        .unwrap();
    assert_eq!(request.method, Method::Post);
    assert_eq!(request.url, "https://apis.roblox.com/challenge/v1/continue");
    assert!(request.query.is_empty());
    assert_eq!(request.headers, client.default_headers());
    assert_eq!(
        request.body,
        Body::Json(
            r#"{"challengeId":"challenge-1","challengeType":"twostepverification","challengeMetadata":"{\"verificationToken\":\"tok\",\"challengeId\":\"abc\",\"actionType\":\"Generic\",\"rememberDevice\":true}"}"#
                .to_string()
        )
    );
}

#[test]
fn captcha_and_chef_cannot_be_resolved() {
    let mut client = Client::default();
    for kind in [ChallengeType::Captcha, ChallengeType::Chef] {
        assert_eq!(
            continue_challenge(&client, &challenge(kind), "tok"),
            Err(Error::UnsupportedChallenge(kind))
        );
        client.set_token("t");
        let result = client.queue_challenge(&challenge(kind), "tok", Ok(response(200, &[], "{}")));
        assert_eq!(result, Err(Error::UnsupportedChallenge(kind)));
        assert_eq!(client.requestor.session.challenge_proof, None);
        assert_eq!(client.requestor.session.csrf_token, Some("t".to_string()));
    }
}

#[test]
fn a_proof_is_carried_by_one_request_and_gone_after_one_response() {
    let mut client = Client::from_cookie(Cookie::from("secret"));
    client.set_token("token-1");
    let result = client.queue_challenge(
        &challenge(ChallengeType::Generic),
        "tok",
        Ok(response(200, &[], "{}")),
    );
    assert_eq!(result, Ok(()));
    assert_eq!(
        client.requestor.session.challenge_proof,
        Some(ChallengeProof {
            id: "challenge-1".to_string(),
            kind: "generic".to_string(),
            metadata: PROOF_METADATA.to_string(),
        })
    );

    // The next request carries the proof.
    let headers = client.default_headers();
    assert_eq!(
        headers,
        vec![
            Header::new("user-agent", "Roblox/WinInet"),
            Header::new("cookie", ".ROBLOSECURITY=secret"),
            Header::new("cookie", "RBXEventTrackerV2=&browserid=2"),
            Header::new("x-csrf-token", "token-1"),
            Header::new("rblx-challenge-id", "challenge-1"),
            Header::new("rblx-challenge-type", "generic"),
            Header::new("rblx-challenge-metadata", PROOF_METADATA),
        ]
    );
    assert_eq!(header_value(&headers, "rblx-challenge-id"), Some("challenge-1"));

    // One response later it is gone, success or not.
    let result = client.validate_response(Ok(response(400, &[], r#"{"message":"PIN is locked."}"#)));
    assert_eq!(result, Err(Error::ApiError(ApiError::PinIsLocked)));
    assert_eq!(client.requestor.session.challenge_proof, None);
    let headers = client.default_headers();
    assert_eq!(headers.len(), 4);
    assert_eq!(header_value(&headers, "rblx-challenge-id"), None);
    assert_eq!(header_value(&headers, "rblx-challenge-type"), None);
    assert_eq!(header_value(&headers, "rblx-challenge-metadata"), None);
    assert_eq!(header_value(&headers, "x-csrf-token"), Some("token-1"));
}

#[test]
fn a_proof_is_gone_after_a_success_and_after_a_failed_transport_too() {
    for outcome in 0..2 {
        let mut client = Client::default();
        assert_eq!(
            client.queue_challenge(
                &challenge(ChallengeType::Reauthentication),
                "tok",
                Ok(response(200, &[], "")),
            ),
            Ok(())
        );
        assert!(client.requestor.session.challenge_proof.is_some());
        let next = if outcome == 0 {
            Ok(response(200, &[], "{}"))
        } else {
            Err(TransportError { message: "timed out".to_string() })
        };
        let _ = client.validate_response(next);
        assert_eq!(client.requestor.session.challenge_proof, None);
        assert!(client.default_headers().is_empty());
    }
}

#[test]
fn a_failed_continue_arms_nothing() {
    let mut client = Client::default();
    let result = client.queue_challenge(
        &challenge(ChallengeType::Generic),
        "tok",
        Ok(response(400, &[("x-csrf-token", "t2")], r#"{"message":"Invalid challenge ID."}"#)),
    );
    assert_eq!(result, Err(Error::ApiError(ApiError::InvalidChallengeId)));
    assert_eq!(client.requestor.session.challenge_proof, None);
    assert_eq!(client.requestor.session.csrf_token, Some("t2".to_string()));
    let result = client.queue_challenge(
        &challenge(ChallengeType::Generic),
        "tok",
        Err(TransportError { message: "down".to_string() }),
    );
    assert_eq!(result, Err(Error::Transport(TransportError { message: "down".to_string() })));
    assert_eq!(client.requestor.session.challenge_proof, None);
}

#[test]
fn queueing_twice_keeps_the_later_proof() {
    let mut client = Client::default();
    client.requestor.queue_challenge(ChallengeProof {
        id: "old".to_string(),
        kind: "generic".to_string(),
        metadata: "m".to_string(),
    });
    let result = client.queue_challenge(
        &challenge(ChallengeType::Generic),
        "tok",
        Ok(response(200, &[], "")),
    );
    assert_eq!(result, Ok(()));
    assert_eq!(client.requestor.session.challenge_proof.as_ref().unwrap().id, "challenge-1");
    client.requestor.remove_challenge();
    assert_eq!(client.requestor.session.challenge_proof, None);
}

#[test]
fn session_state_arms_and_disarms() {
    let mut session = SessionState::new();
    assert_eq!(session, SessionState::default());
    session.set_token("a");
    session.arm(ChallengeProof {
        id: "i".to_string(),
        kind: "k".to_string(),
        metadata: "m".to_string(),
    });
    let mut out = vec![Header::new("accept", "*/*")];
    session.write_headers(&mut out);
    assert_eq!(
        out,
        vec![
            Header::new("accept", "*/*"),
            Header::new("x-csrf-token", "a"),
            Header::new("rblx-challenge-id", "i"),
            Header::new("rblx-challenge-type", "k"),
            Header::new("rblx-challenge-metadata", "m"),
        ]
    );
    session.remove_challenge();
    assert_eq!(session.challenge_proof, None);
    assert_eq!(session.csrf_token, Some("a".to_string()));
}

#[test]
fn a_cookie_is_written_with_its_name() {
    assert_eq!(Cookie::from("abc").to_string(), ".ROBLOSECURITY=abc");
    assert_eq!(Cookie::new("").0, ".ROBLOSECURITY=");
    assert_eq!(Cookie::default().to_string(), "");
}

#[test]
fn a_client_from_a_cookie_sends_agent_and_cookies() {
    let client = Client::from_cookie(Cookie::from("abc"));
    assert_eq!(
        client.requestor.base_headers,
        vec![
            Header::new("user-agent", "Roblox/WinInet"),
            Header::new("cookie", ".ROBLOSECURITY=abc"),
            Header::new("cookie", "RBXEventTrackerV2=&browserid=2"),
        ]
    );
    assert_eq!(client.requestor.session, SessionState::new());
    assert_eq!(client.ratelimits(), None);
    assert_eq!(client.default_headers(), client.requestor.default_headers());
}

#[test]
fn ratelimits_hands_out_a_copy() {
    let limit = Ratelimit { remaining: 3, reset_in_seconds: 60, windows: vec![(10, 60), (100, 3600)] };
    let client = Client {
        requestor: ClientRequestor {
            base_headers: vec![],
            session: SessionState::new(),
            ratelimit: Some(limit.clone()),
        },
    };
    assert_eq!(client.ratelimits(), Some(limit));
    assert_eq!(Ratelimit::default().windows, vec![]);
}

#[test]
fn insert_header_replaces_every_header_of_the_name() {
    let headers = vec![
        Header::new("cookie", "a"),
        Header::new("accept", "x"),
        Header::new("cookie", "b"),
    ];
    assert_eq!(
        insert_header(headers, "cookie", "c"),
        vec![Header::new("accept", "x"), Header::new("cookie", "c")]
    );
    assert_eq!(insert_header(vec![], "accept", "*/*"), vec![Header::new("accept", "*/*")]);
}

#[test]
fn a_response_gives_the_first_header_of_a_name() {
    let r = response(200, &[("a", "1"), ("b", "2"), ("a", "3")], "");
    assert_eq!(r.header("a"), Some("1"));
    assert_eq!(r.header("b"), Some("2"));
    assert_eq!(r.header("c"), None);
    assert_eq!(r.header("A"), None);
}
