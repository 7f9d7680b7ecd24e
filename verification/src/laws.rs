use crate::challenge::{
    challenge_of_document, decode_spec, encode_spec, metadata_document, metadata_of_document,
    ActionType,
    ChallengeMetadataView, ChallengeType, ChallengeView, DecodeError, CHALLENGE_ID_HEADER,
    CHALLENGE_METADATA_HEADER, CHALLENGE_TYPE_HEADER,
};
use crate::client::{
    find_header, session_headers, HeaderView, ResponseView, SessionStateView, TOKEN_HEADER,
};
use crate::json::{lookup, JsonValue, MemberValue};
use crate::validation::{
    body_messages, classify_message_spec, classify_spec, error_items, error_message, queue_outcome, session_after,
    session_after_queue, token_outcome, validate_spec,
};
use crate::text::{decimal, digit_char, digit_of, digits_value, parsed_u64, unsigned_part};
use crate::{ApiErrorView, ErrorView};
use vstd::prelude::*;

verus! {

/// The document `{"message": m}`.
pub open spec fn message_document(m: Seq<char>) -> JsonValue {
    JsonValue::Object(seq![MemberValue { name: "message"@, value: JsonValue::Text(m) }])
}

/// The document `{"error": m}`.
pub open spec fn data_error_document(m: Seq<char>) -> JsonValue {
    JsonValue::Object(seq![MemberValue { name: "error"@, value: JsonValue::Text(m) }])
}

/// The document `{"errors": [{"message": m}, ...]}`, with one element for
/// each message.
pub open spec fn errors_document(ms: Seq<Seq<char>>) -> JsonValue {
    JsonValue::Object(
        seq![
            MemberValue {
                name: "errors"@,
                value: JsonValue::Array(Seq::new(ms.len(), |i: int| message_document(ms[i]))),
            },
        ],
    )
}

/// The three member names of the failure shapes are three different names.
proof fn lemma_shape_names()
    ensures
        "message"@ != "errors"@,
        "error"@ != "errors"@,
        "error"@ != "message"@,
{
    reveal_strlit("message");
    reveal_strlit("errors");
    reveal_strlit("error");
    assert("message"@.len() == 7);
    assert("errors"@.len() == 6);
    assert("error"@.len() == 5);
}

/// A document of the form `{"message": m}` reports the one message `m`.
pub proof fn lemma_message_shape(m: Seq<char>, raw: Seq<char>)
    ensures
        body_messages(Some(message_document(m)), raw) == seq![m],
{
    lemma_shape_names();
    let members = seq![MemberValue { name: "message"@, value: JsonValue::Text(m) }];
    assert(members.drop_first().len() == 0);
    assert(lookup(members.drop_first(), "errors"@) is None);
    assert(lookup(members, "errors"@) is None);
    assert(lookup(members, "message"@) == Some(JsonValue::Text(m)));
}

/// A document of the form `{"error": m}` reports the one message `m`.
pub proof fn lemma_data_error_shape(m: Seq<char>, raw: Seq<char>)
    ensures
        body_messages(Some(data_error_document(m)), raw) == seq![m],
{
    lemma_shape_names();
    let members = seq![MemberValue { name: "error"@, value: JsonValue::Text(m) }];
    assert(members.drop_first().len() == 0);
    assert(lookup(members.drop_first(), "errors"@) is None);
    assert(lookup(members.drop_first(), "message"@) is None);
    assert(lookup(members, "errors"@) is None);
    assert(lookup(members, "message"@) is None);
    assert(lookup(members, "error"@) == Some(JsonValue::Text(m)));
}

/// A document of the form `{"errors": [{"message": m}, ...]}` reports its
/// messages, in their order.
pub proof fn lemma_errors_shape(ms: Seq<Seq<char>>, raw: Seq<char>)
    ensures
        body_messages(Some(errors_document(ms)), raw) == ms,
{
    let items = Seq::new(ms.len(), |i: int| message_document(ms[i]));
    let members = seq![MemberValue { name: "errors"@, value: JsonValue::Array(items) }];
    assert(lookup(members, "errors"@) == Some(JsonValue::Array(items)));
    assert forall|i: int| 0 <= i < items.len() implies error_message(#[trigger] items[i]) == Some(
        ms[i],
    ) by {
        lemma_message_shape(ms[i], raw);
        let inner = seq![MemberValue { name: "message"@, value: JsonValue::Text(ms[i]) }];
        assert(lookup(inner, "message"@) == Some(JsonValue::Text(ms[i])));
    }
    assert(error_items(JsonValue::Array(items)) is Some);
    assert(error_items(JsonValue::Array(items))->0 =~= ms);
}

/// The three shapes in which a body reports one failure agree: with the same
/// message, each gives the same failure, whatever the status and the
/// challenge in the headers.
pub proof fn lemma_error_shapes_agree(
    status: u16,
    m: Seq<char>,
    challenge: Result<ChallengeView, DecodeError>,
    raw: Seq<char>,
)
    ensures
        classify_spec(status, body_messages(Some(errors_document(seq![m])), raw), challenge)
            == classify_spec(status, body_messages(Some(message_document(m)), raw), challenge),
        classify_spec(status, body_messages(Some(message_document(m)), raw), challenge)
            == classify_spec(status, body_messages(Some(data_error_document(m)), raw), challenge),
{
    lemma_errors_shape(seq![m], raw);
    lemma_message_shape(m, raw);
    lemma_data_error_shape(m, raw);
}

/// One message never names a list of failures: the entries of a `Multiple`
/// are failures of their own, one for each message and in the order of the
/// messages.
pub proof fn lemma_multiple_is_flat(
    status: u16,
    messages: Seq<Seq<char>>,
    challenge: Result<ChallengeView, DecodeError>,
)
    ensures
        forall|m: Seq<char>| !(#[trigger] classify_message_spec(status, m, challenge) is Multiple),
        classify_spec(status, messages, challenge) matches ApiErrorView::Multiple(errors) ==> {
            &&& status != 401 && status != 429 && status != 500
            &&& messages.len() != 1
            &&& errors.len() == messages.len()
            &&& forall|i: int|
                0 <= i < errors.len() ==> #[trigger] errors[i] == classify_message_spec(
                    status,
                    messages[i],
                    challenge,
                )
        },
{
}

/// The statuses 401, 429 and 500 decide alone: the failure is
/// `Unauthorized`, `Ratelimited` or `Internal`, whatever the headers and the
/// body hold.
pub proof fn lemma_status_decides(response: ResponseView)
    ensures
        response.status == 401 ==> validate_spec(Ok(response)) == Err::<ResponseView, ErrorView>(
            ErrorView::ApiError(ApiErrorView::Unauthorized),
        ),
        response.status == 429 ==> validate_spec(Ok(response)) == Err::<ResponseView, ErrorView>(
            ErrorView::ApiError(ApiErrorView::Ratelimited),
        ),
        response.status == 500 ==> validate_spec(Ok(response)) == Err::<ResponseView, ErrorView>(
            ErrorView::ApiError(ApiErrorView::Internal),
        ),
{
}

/// Only the status 200 is a success, and such a response is handed on as it
/// came.
pub proof fn lemma_success_is_200(response: ResponseView)
    ensures
        validate_spec(Ok(response)) is Ok <==> response.status == 200,
        response.status == 200 ==> validate_spec(Ok(response)) == Ok::<ResponseView, ErrorView>(
            response,
        ),
{
}

/// The kind of a challenge survives the header: its wire name names it.
pub proof fn lemma_kind_round_trip(kind: ChallengeType)
    ensures
        ChallengeType::from_wire_spec(kind.wire_name_spec()) == kind,
{
    reveal_strlit("generic");
    reveal_strlit("captcha");
    reveal_strlit("chef");
    reveal_strlit("twostepverification");
    reveal_strlit("reauthentication");
    reveal_strlit("security-questions");
    assert("generic"@.len() == 7 && "generic"@[0] == 'g');
    assert("captcha"@.len() == 7 && "captcha"@[0] == 'c');
    assert("chef"@.len() == 4);
    assert("twostepverification"@.len() == 19);
    assert("reauthentication"@.len() == 16);
    assert("security-questions"@.len() == 18);
}

/// The action of a challenge survives JSON: its name names it.
pub proof fn lemma_action_round_trip(action: ActionType)
    ensures
        ActionType::from_name_spec(action.name_spec()) == Some(action),
{
    reveal_strlit("Unknown");
    reveal_strlit("Login");
    reveal_strlit("RobuxSpend");
    reveal_strlit("ItemTrade");
    reveal_strlit("Resale");
    reveal_strlit("PasswordReset");
    reveal_strlit("RevertAccount");
    reveal_strlit("Generic");
    reveal_strlit("GenericWithRecoveryCodes");
    assert("Unknown"@.len() == 7 && "Unknown"@[0] == 'U');
    assert("Login"@.len() == 5);
    assert("RobuxSpend"@.len() == 10);
    assert("ItemTrade"@.len() == 9);
    assert("Resale"@.len() == 6);
    assert("PasswordReset"@.len() == 13 && "PasswordReset"@[0] == 'P');
    assert("RevertAccount"@.len() == 13 && "RevertAccount"@[0] == 'R');
    assert("Generic"@.len() == 7 && "Generic"@[0] == 'G');
    assert("GenericWithRecoveryCodes"@.len() == 24);
}

/// Reading the object that spells out a metadata value gives that value
/// back: what `ChallengeMetadata::to_json` writes, `from_json` reads.
pub proof fn lemma_metadata_round_trip(m: ChallengeMetadataView)
    ensures
        metadata_of_document(metadata_document(m)) == Some(m),
{
    reveal_strlit("userId");
    reveal_strlit("challengeId");
    reveal_strlit("actionType");
    reveal_strlit("rememberDevice");
    assert("userId"@.len() == 6);
    assert("challengeId"@.len() == 11);
    assert("actionType"@.len() == 10);
    assert("rememberDevice"@.len() == 14);
    lemma_action_round_trip(m.action_type);
    let m0 = MemberValue { name: "userId"@, value: JsonValue::Text(m.user_id) };
    let m1 = MemberValue { name: "challengeId"@, value: JsonValue::Text(m.server_challenge_id) };
    let m2 = MemberValue { name: "actionType"@, value: JsonValue::Text(m.action_type.name_spec()) };
    let m3 = MemberValue { name: "rememberDevice"@, value: JsonValue::Bool(m.remember_device) };
    let s0 = seq![m0, m1, m2, m3];
    let s1 = seq![m1, m2, m3];
    let s2 = seq![m2, m3];
    let s3 = seq![m3];
    assert(s0.drop_first() =~= s1);
    assert(s1.drop_first() =~= s2);
    assert(s2.drop_first() =~= s3);
    assert(lookup(s3, "rememberDevice"@) == Some(m3.value));
    assert(lookup(s2, "rememberDevice"@) == Some(m3.value));
    assert(lookup(s1, "rememberDevice"@) == Some(m3.value));
    assert(lookup(s0, "rememberDevice"@) == Some(m3.value));
    assert(lookup(s2, "actionType"@) == Some(m2.value));
    assert(lookup(s1, "actionType"@) == Some(m2.value));
    assert(lookup(s0, "actionType"@) == Some(m2.value));
    assert(lookup(s1, "challengeId"@) == Some(m1.value));
    assert(lookup(s0, "challengeId"@) == Some(m1.value));
    assert(lookup(s0, "userId"@) == Some(m0.value));
}

/// A challenge of any kind but `Chef` comes back from its identifier, the
/// wire name of its kind and the object that spells out its metadata.
pub proof fn lemma_challenge_round_trip(c: ChallengeView)
    requires
        c.kind != ChallengeType::Chef,
    ensures
        challenge_of_document(
            c.id,
            ChallengeType::from_wire_spec(c.kind.wire_name_spec()),
            metadata_document(c.metadata),
        ) == Ok::<ChallengeView, DecodeError>(c),
{
    lemma_kind_round_trip(c.kind);
    lemma_metadata_round_trip(c.metadata);
}

/// The identifier and the kind of a challenge survive the proof headers:
/// whatever the third header is read as, a challenge that is read from the
/// first two has the identifier and the kind that were written.
pub proof fn lemma_decode_keeps_id_and_kind(
    challenge: ChallengeView,
    verification_token: Seq<char>,
    metadata_b64: Seq<char>,
)
    ensures
        encode_spec(challenge, verification_token).id == challenge.id,
        ChallengeType::from_wire_spec(encode_spec(challenge, verification_token).kind)
            == challenge.kind,
        decode_spec(
            encode_spec(challenge, verification_token).id,
            encode_spec(challenge, verification_token).kind,
            metadata_b64,
        ) matches Ok(decoded) ==> decoded.id == challenge.id && decoded.kind == challenge.kind,
{
    lemma_kind_round_trip(challenge.kind);
}

/// Whether one of the three proof headers is among `headers`.
pub open spec fn carries_proof(headers: Seq<HeaderView>) -> bool {
    exists|i: int|
        0 <= i < headers.len() && (#[trigger] headers[i].name == CHALLENGE_ID_HEADER@
            || headers[i].name == CHALLENGE_TYPE_HEADER@ || headers[i].name
            == CHALLENGE_METADATA_HEADER@)
}

/// The four header names of a session are four different names.
proof fn lemma_session_header_names()
    ensures
        TOKEN_HEADER@ != CHALLENGE_ID_HEADER@,
        TOKEN_HEADER@ != CHALLENGE_TYPE_HEADER@,
        TOKEN_HEADER@ != CHALLENGE_METADATA_HEADER@,
{
    reveal_strlit("x-csrf-token");
    reveal_strlit("rblx-challenge-id");
    reveal_strlit("rblx-challenge-type");
    reveal_strlit("rblx-challenge-metadata");
    assert("x-csrf-token"@.len() == 12);
    assert("rblx-challenge-id"@.len() == 17);
    assert("rblx-challenge-type"@.len() == 19);
    assert("rblx-challenge-metadata"@.len() == 23);
}

/// A proof is used once. After a challenge was queued with success the
/// session's headers are the proof's three, behind the token; and after the
/// next result was validated, whatever it was, the session holds no proof
/// and its headers carry none.
pub proof fn lemma_proof_is_single_use(
    before: SessionStateView,
    challenge: ChallengeView,
    verification_token: Seq<char>,
    continued: Result<ResponseView, Seq<char>>,
    next: Result<ResponseView, Seq<char>>,
)
    requires
        queue_outcome(challenge, verification_token, continued) is Ok,
    ensures
        ({
            let armed = session_after_queue(before, challenge, verification_token, continued);
            let proof = encode_spec(challenge, verification_token);
            let used = session_after(armed, next);
            &&& armed.challenge_proof == Some(proof)
            &&& find_header(session_headers(armed), CHALLENGE_ID_HEADER@) == Some(proof.id)
            &&& find_header(session_headers(armed), CHALLENGE_TYPE_HEADER@) == Some(proof.kind)
            &&& find_header(session_headers(armed), CHALLENGE_METADATA_HEADER@) == Some(
                proof.metadata,
            )
            &&& used.challenge_proof is None
            &&& !carries_proof(session_headers(used))
        }),
{
    lemma_session_header_names();
    reveal_strlit("rblx-challenge-id");
    reveal_strlit("rblx-challenge-type");
    reveal_strlit("rblx-challenge-metadata");
    assert("rblx-challenge-id"@.len() == 17);
    assert("rblx-challenge-type"@.len() == 19);
    assert("rblx-challenge-metadata"@.len() == 23);
    let armed = session_after_queue(before, challenge, verification_token, continued);
    let proof = encode_spec(challenge, verification_token);
    let used = session_after(armed, next);
    let h0 = HeaderView { name: CHALLENGE_ID_HEADER@, value: proof.id };
    let h1 = HeaderView { name: CHALLENGE_TYPE_HEADER@, value: proof.kind };
    let h2 = HeaderView { name: CHALLENGE_METADATA_HEADER@, value: proof.metadata };
    let p0 = seq![h0, h1, h2];
    let p1 = seq![h1, h2];
    let p2 = seq![h2];
    assert(p0.drop_first() =~= p1);
    assert(p1.drop_first() =~= p2);
    assert(find_header(p2, CHALLENGE_METADATA_HEADER@) == Some(proof.metadata));
    assert(find_header(p1, CHALLENGE_METADATA_HEADER@) == Some(proof.metadata));
    assert(find_header(p0, CHALLENGE_METADATA_HEADER@) == Some(proof.metadata));
    assert(find_header(p1, CHALLENGE_TYPE_HEADER@) == Some(proof.kind));
    assert(find_header(p0, CHALLENGE_TYPE_HEADER@) == Some(proof.kind));
    assert(find_header(p0, CHALLENGE_ID_HEADER@) == Some(proof.id));
    match armed.csrf_token {
        Some(t) => {
            let th = HeaderView { name: TOKEN_HEADER@, value: t };
            let all = seq![th] + p0;
            assert(all.drop_first() =~= p0);
            assert(session_headers(armed) =~= all);
        },
        None => {
            assert(session_headers(armed) =~= p0);
        },
    }
    let after = session_headers(used);
    assert forall|i: int| 0 <= i < after.len() implies !(#[trigger] after[i].name
        == CHALLENGE_ID_HEADER@ || after[i].name == CHALLENGE_TYPE_HEADER@ || after[i].name
        == CHALLENGE_METADATA_HEADER@) by {
        assert(after[i].name == TOKEN_HEADER@);
    }
}

/// Validation always uses up the proof: the session after it holds none,
/// whatever it held before and whatever came back.
pub proof fn lemma_validation_clears_proof(
    before: SessionStateView,
    result: Result<ResponseView, Seq<char>>,
)
    ensures
        session_after(before, result).challenge_proof is None,
        result is Err ==> session_after(before, result).csrf_token == before.csrf_token,
{
}

/// The token bootstrap takes the failure `TokenValidation` for a success,
/// and no other failure.
pub proof fn lemma_token_bootstrap(validated: Result<ResponseView, ErrorView>)
    ensures
        token_outcome(validated) is Ok <==> (validated is Ok || validated == Err::<
            ResponseView,
            ErrorView,
        >(ErrorView::ApiError(ApiErrorView::TokenValidation))),
        token_outcome(validated) is Err ==> token_outcome(validated)->Err_0 == validated->Err_0,
{
}

/// The numeral of a number is a row of digits with the number as its value,
/// and it starts with a digit.
proof fn lemma_decimal_value(n: nat)
    ensures
        decimal(n).len() > 0,
        digit_of(decimal(n)[0]) is Some,
        digits_value(decimal(n)) == Some(n),
    decreases n,
{
    if n < 10 {
        let s = seq![digit_char(n)];
        assert(s.drop_last().len() == 0);
        assert(digits_value(s.drop_last()) == Some(0nat));
        assert(digit_of(digit_char(n)) == Some(n));
    } else {
        lemma_decimal_value(n / 10);
        let s = decimal(n / 10).push(digit_char(n % 10));
        assert(s.drop_last() =~= decimal(n / 10));
        assert(s.last() == digit_char(n % 10));
        assert(digit_of(digit_char(n % 10)) == Some(n % 10));
        assert(s[0] == decimal(n / 10)[0]);
    }
}

/// A number that was written in decimal is read back as it was.
pub proof fn lemma_decimal_round_trip(n: u64)
    ensures
        parsed_u64(decimal(n as nat)) == Some(n),
{
    lemma_decimal_value(n as nat);
    assert(unsigned_part(decimal(n as nat)) == decimal(n as nat));
}

} // verus!
