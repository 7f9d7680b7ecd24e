use crate::client::{Body, BodyView, Client, Header, HeaderView, Method, Request, headers_view};
use crate::json::json_string_literal;
use crate::text::decimal_string;
use crate::text::{parse_u64, parsed_u64};
use crate::wire::{
    join_wrapped, json_numbers, json_strings, limit_or, limit_text, push_json_numbers,
    push_json_strings, push_quoted, push_wrapped, slice_texts, text_or,
};
use crate::{DateTime, Paging};
use std::collections::HashMap;
use vstd::prelude::*;
use vstd::string::*;

verus! {

pub const URL: &'static str = "https://apis.roblox.com/platform-chat-api/v1";

#[derive(Clone, Debug, PartialEq, Eq, Structural)]
pub enum ConversationType {
    OneToOne,
    Group,
}

#[derive(Clone, Debug, PartialEq, Eq, Structural)]
pub enum ConversationSource {
    Channels,
    Friends,
}

#[derive(Clone, Debug, PartialEq, Eq)]
pub struct ConversationUser {
    pub id: u64,
    pub name: String,
    pub display_name: String,
    pub combined_name: String,
    pub is_verified: bool,
}

#[derive(Clone, Debug, PartialEq, Eq)]
pub struct Message {
    pub id: String,
    pub content: String,
    pub kind: String,
    pub sender_id: u64,
    pub replies_to: Option<()>,
    pub created: DateTime,
    pub moderation_type: String,
    pub is_deleted: bool,
    pub is_badgeable: bool,
    pub is_previewable: bool,
}

#[derive(Clone, Debug, PartialEq, Eq)]
pub struct Conversation {
    pub id: Option<String>,
    pub name: String,
    pub kind: ConversationType,
    pub source: String,
    pub creator_id: Option<u64>,
    pub participants: Vec<u64>,
    pub users: HashMap<String, ConversationUser>,
    pub messages: Vec<Message>,
    pub preview_message: Option<Message>,
    pub sort_index: u64,
    pub unread_message_count: u64,
    pub created: DateTime,
    pub updated: DateTime,
    pub status: Option<String>,
    pub moderation_type: Option<String>,
    pub user_pending_status: Option<String>,
    pub participant_pending_status: Option<String>,
    pub osa_acknowledgement_status: String,
    pub is_default_name: bool,
}

#[derive(Clone, Debug, PartialEq, Eq)]
pub struct Conversations {
    pub conversations: Vec<Conversation>,
    pub next_cursor: Option<String>,
    pub previous_cursor: Option<String>,
}

#[derive(Clone, Debug, PartialEq, Eq)]
pub struct ConversationMessages {
    pub messages: Vec<Message>,
    pub next_cursor: Option<String>,
    pub previous_cursor: Option<String>,
}

#[derive(Clone, Debug, PartialEq, Eq)]
pub struct ConversationMetadata {
    pub global_unread_count: u64,
    pub global_unread_message_count: u64,
}

#[derive(Clone, Debug, PartialEq, Eq)]
pub struct ParticipantMetadata {
    pub id: u64,
    pub is_pending: bool,
}

#[derive(Clone, Debug, PartialEq, Eq)]
pub struct ConversationsParticipantMetadata {
    pub id: String,
    pub participants: Vec<ParticipantMetadata>,
}

#[derive(Clone, Debug, PartialEq, Eq)]
pub struct ConversationMarkedStatus {
    pub id: String,
    pub status: String,
}

#[derive(Clone, Debug, PartialEq, Eq)]
pub struct ConversationCreateRequest {
    pub name: String,
    pub users: Vec<u64>,
}

/// One conversation to create, as JSON: its name, the type `group` and the
/// users to take part.
pub open spec fn conversation_json(c: ConversationCreateRequest) -> Seq<char> {
    "{\"name\":"@ + json_string_literal(c.name@) + ",\"type\":\"group\",\"participant_user_ids\":"@
        + json_numbers(c.users@) + "}"@
}

/// The conversations to create, as JSON, with a comma between each two.
pub open spec fn join_conversations(cs: Seq<ConversationCreateRequest>) -> Seq<char>
    decreases cs.len(),
{
    if cs.len() == 0 {
        Seq::empty()
    } else if cs.len() == 1 {
        conversation_json(cs[0])
    } else {
        join_conversations(cs.drop_last()) + ","@ + conversation_json(cs.last())
    }
}

/// Appends the conversations to create, as JSON.
pub fn push_conversations(out: &mut String, conversations: &[ConversationCreateRequest])
    ensures
        final(out)@ == old(out)@ + join_conversations(conversations@),
{
    let ghost before = out@;
    assert(out@ =~= before + join_conversations(conversations@.subrange(0, 0)));
    let mut i: usize = 0;
    while i < conversations.len()
        invariant
            i <= conversations.len(),
            out@ == before + join_conversations(conversations@.subrange(0, i as int)),
        decreases conversations.len() - i,
    {
        let ghost done = conversations@.subrange(0, i as int);
        let ghost next = conversations@.subrange(0, i + 1);
        assert(next.drop_last() =~= done);
        assert(next.last() == conversations@[i as int]);
        if i > 0 {
            out.append(",");
        }
        out.append("{\"name\":");
        push_quoted(out, conversations[i].name.as_str());
        out.append(",\"type\":\"group\",\"participant_user_ids\":");
        push_json_numbers(out, conversations[i].users.as_slice());
        out.append("}");
        assert(out@ =~= before + join_conversations(next));
        i = i + 1;
    }
    assert(conversations@.subrange(0, i as int) =~= conversations@);
}

/// One new name for a conversation, as JSON.
pub open spec fn rename_json(id: Seq<char>, name: Seq<char>) -> Seq<char> {
    "{\"id\":"@ + json_string_literal(id) + ",\"name\":"@ + json_string_literal(name) + "}"@
}

/// The first `n` pairs of an identifier and a new name, as JSON, with a comma
/// between each two.
pub open spec fn join_renames(ids: Seq<Seq<char>>, names: Seq<Seq<char>>, n: nat) -> Seq<char>
    decreases n,
{
    if n == 0 {
        Seq::empty()
    } else if n == 1 {
        rename_json(ids[0], names[0])
    } else {
        join_renames(ids, names, (n - 1) as nat) + ","@ + rename_json(ids[n - 1], names[n - 1])
    }
}

/// How many pairs two lists make: as many as the shorter one has entries.
pub open spec fn pairs(a: nat, b: nat) -> nat {
    if a <= b {
        a
    } else {
        b
    }
}

/// Appends the pairs of an identifier and a new name, as JSON. Where one
/// list is longer than the other, what it has too much is left out.
pub fn push_renames(out: &mut String, ids: &[&str], names: &[&str])
    ensures
        final(out)@ == old(out)@ + join_renames(
            slice_texts(ids@),
            slice_texts(names@),
            pairs(ids@.len(), names@.len()),
        ),
{
    let ghost before = out@;
    let n = if ids.len() <= names.len() {
        ids.len()
    } else {
        names.len()
    };
    assert(out@ =~= before + join_renames(slice_texts(ids@), slice_texts(names@), 0));
    let mut i: usize = 0;
    while i < n
        invariant
            i <= n,
            n <= ids.len(),
            n <= names.len(),
            out@ == before + join_renames(slice_texts(ids@), slice_texts(names@), i as nat),
        decreases n - i,
    {
        if i > 0 {
            out.append(",");
        }
        out.append("{\"id\":");
        push_quoted(out, ids[i]);
        out.append(",\"name\":");
        push_quoted(out, names[i]);
        out.append("}");
        assert(out@ =~= before + join_renames(
            slice_texts(ids@),
            slice_texts(names@),
            (i + 1) as nat,
        ));
        i = i + 1;
    }
}

/// Who takes part in one conversation, as a response reports it: the
/// identifier of the conversation, and for each participant the identifier,
/// as text, and whether the invitation still waits.
#[derive(Clone, Debug, PartialEq, Eq)]
pub struct ReportedParticipants {
    pub id: String,
    pub participants: Vec<(String, bool)>,
}

/// The participants of one report, with their identifiers read as numbers;
/// `None` where one of them is no number.
pub open spec fn participants_of(reported: Seq<(String, bool)>) -> Option<
    Seq<ParticipantMetadata>,
> {
    if forall|i: int| 0 <= i < reported.len() ==> parsed_u64((#[trigger] reported[i]).0@) is Some {
        Some(
            Seq::new(
                reported.len(),
                |i: int|
                    ParticipantMetadata {
                        id: parsed_u64(reported[i].0@)->0,
                        is_pending: reported[i].1,
                    },
            ),
        )
    } else {
        None
    }
}

/// Whether `out` is what the reports say, report by report: the same
/// conversation and its participants, in the same order.
pub open spec fn matches_reports(
    out: Seq<ConversationsParticipantMetadata>,
    reports: Seq<ReportedParticipants>,
) -> bool {
    &&& out.len() == reports.len()
    &&& forall|i: int|
        0 <= i < reports.len() ==> (#[trigger] out[i]).id@ == reports[i].id@ && Some(
            out[i].participants@,
        ) == participants_of(reports[i].participants@)
}

/// Reads the participants of one report.
pub fn read_participants(reported: &Vec<(String, bool)>) -> (r: Option<Vec<ParticipantMetadata>>)
    ensures
        match r {
            Some(participants) => participants_of(reported@) == Some(participants@),
            None => participants_of(reported@) is None,
        },
{
    let mut out: Vec<ParticipantMetadata> = Vec::new();
    let mut i: usize = 0;
    while i < reported.len()
        invariant
            i <= reported.len(),
            out@.len() == i,
            forall|k: int|
                0 <= k < i ==> parsed_u64((#[trigger] reported@[k]).0@) == Some(out@[k].id)
                    && out@[k].is_pending == reported@[k].1,
        decreases reported.len() - i,
    {
        match parse_u64(reported[i].0.as_str()) {
            Some(id) => {
                out.push(ParticipantMetadata { id, is_pending: reported[i].1 });
            },
            None => {
                assert(parsed_u64(reported@[i as int].0@) is None);
                return None;
            },
        }
        i = i + 1;
    }
    assert(out@ =~= participants_of(reported@)->0);
    Some(out)
}

/// Turns the reports of a response into the metadata of the conversations,
/// in the order of the reports. `None` where the identifier of a participant
/// is no number, and only then.
pub fn participant_metadata(reports: &Vec<ReportedParticipants>) -> (r: Option<
    Vec<ConversationsParticipantMetadata>,
>)
    ensures
        match r {
            Some(out) => matches_reports(out@, reports@),
            None => exists|i: int|
                0 <= i < reports@.len() && participants_of(
                    (#[trigger] reports@[i]).participants@,
                ) is None,
        },
{
    let mut out: Vec<ConversationsParticipantMetadata> = Vec::new();
    let mut i: usize = 0;
    while i < reports.len()
        invariant
            i <= reports.len(),
            matches_reports(out@, reports@.subrange(0, i as int)),
        decreases reports.len() - i,
    {
        let ghost before = out@;
        match read_participants(&reports[i].participants) {
            Some(participants) => {
                out.push(
                    ConversationsParticipantMetadata { id: reports[i].id.clone(), participants },
                );
            },
            None => {
                return None;
            },
        }
        assert forall|k: int| 0 <= k < i + 1 implies (#[trigger] out@[k]).id@ == reports@.subrange(
            0,
            i + 1,
        )[k].id@ && Some(out@[k].participants@) == participants_of(
            reports@.subrange(0, i + 1)[k].participants@,
        ) by {
            if k < i {
                assert(out@[k] == before[k]);
                assert(reports@.subrange(0, i as int)[k] == reports@[k]);
            }
        }
        i = i + 1;
    }
    assert(reports@.subrange(0, i as int) =~= reports@);
    Some(out)
}

/// Asks for the limits that conversations have.
pub fn conversation_metadata(client: &Client) -> (r: Request)
    ensures
        r@.method == Method::Get,
        r@.url == URL@ + "/get-conversation-metadata"@,
        r@.query == Seq::<HeaderView>::empty(),
        r@.headers == client@.default_headers(),
        r@.body == BodyView::Empty,
{
    let mut url = String::from_str(URL);
    url.append("/get-conversation-metadata");
    let query: Vec<Header> = Vec::new();
    assert(headers_view(query@) =~= Seq::<HeaderView>::empty());
    client.request_with(Method::Get, url, query, Body::Empty)
}

/// Asks who takes part in each of the given conversations.
pub fn conversations_participant_metadata(client: &Client, ids: &[&str]) -> (r: Request)
    ensures
        r@.method == Method::Post,
        r@.url == URL@ + "/get-conversations-participants-metadata"@,
        r@.query == Seq::<HeaderView>::empty(),
        r@.headers == client@.default_headers(),
        r@.body == BodyView::Json(
            "{\"conversation_ids\":"@ + json_strings(slice_texts(ids@)) + "}"@,
        ),
{
    let mut url = String::from_str(URL);
    url.append("/get-conversations-participants-metadata");
    let mut text = String::from_str("{\"conversation_ids\":");
    push_json_strings(&mut text, ids);
    text.append("}");
    let query: Vec<Header> = Vec::new();
    assert(headers_view(query@) =~= Seq::<HeaderView>::empty());
    client.request_with(Method::Post, url, query, Body::Json(text))
}

/// Asks for the given conversations, with their messages, users and participants.
pub fn conversations(client: &Client, ids: &[&str]) -> (r: Request)
    ensures
        r@.method == Method::Post,
        r@.url == URL@ + "/get-conversations"@,
        r@.query == Seq::<HeaderView>::empty(),
        r@.headers == client@.default_headers(),
        r@.body == BodyView::Json(
            "{\"ids\":"@
                + json_strings(slice_texts(ids@))
                + ",\"include_messages\":true,\"include_user_data\":true,\"include_participants\":true}"@,
        ),
{
    let mut url = String::from_str(URL);
    url.append("/get-conversations");
    let mut text = String::from_str("{\"ids\":");
    push_json_strings(&mut text, ids);
    text.append(",\"include_messages\":true,\"include_user_data\":true,\"include_participants\":true}");
    let query: Vec<Header> = Vec::new();
    assert(headers_view(query@) =~= Seq::<HeaderView>::empty());
    client.request_with(Method::Post, url, query, Body::Json(text))
}

/// Asks for the conversations of the user of the session, one page of them.
pub fn user_conversations(client: &Client, paging: Paging<'_>) -> (r: Request)
    ensures
        r@.method == Method::Get,
        r@.url == URL@ + "/get-user-conversations"@,
        r@.query == seq![
            HeaderView { name: "cursor"@, value: text_or(paging.cursor, ""@) },
            HeaderView { name: "include_user_data"@, value: "true"@ },
            HeaderView { name: "pageSize"@, value: limit_text(paging.limit, 20) },
        ],
        r@.headers == client@.default_headers(),
        r@.body == BodyView::Empty,
{
    let mut url = String::from_str(URL);
    url.append("/get-user-conversations");
    let cursor = match paging.cursor {
        Some(text) => text,
        None => "",
    };
    let page_size = decimal_string(limit_or(paging.limit, 20) as u64);
    let mut query: Vec<Header> = Vec::new();
    query.push(Header::new("cursor", cursor));
    query.push(Header::new("include_user_data", "true"));
    query.push(Header::new("pageSize", page_size.as_str()));
    assert(headers_view(query@) =~= seq![
        HeaderView { name: "cursor"@, value: text_or(paging.cursor, ""@) },
        HeaderView { name: "include_user_data"@, value: "true"@ },
        HeaderView { name: "pageSize"@, value: limit_text(paging.limit, 20) },
    ]);
    client.request_with(Method::Get, url, query, Body::Empty)
}

/// Asks for the messages of a conversation.
pub fn conversation_messages(client: &Client, id: &str) -> (r: Request)
    ensures
        r@.method == Method::Get,
        r@.url == URL@ + "/get-conversation-messages"@,
        r@.query == seq![
            HeaderView { name: "conversation_id"@, value: id@ },
        ],
        r@.headers == client@.default_headers(),
        r@.body == BodyView::Empty,
{
    let mut url = String::from_str(URL);
    url.append("/get-conversation-messages");
    let mut query: Vec<Header> = Vec::new();
    query.push(Header::new("conversation_id", id));
    assert(headers_view(query@) =~= seq![
        HeaderView { name: "conversation_id"@, value: id@ },
    ]);
    client.request_with(Method::Get, url, query, Body::Empty)
}

/// Sends messages to a conversation.
pub fn send_messages_in_conversation(
    client: &Client,
    id: &str,
    messages: &[&str],
) -> (r: Request)
    ensures
        r@.method == Method::Post,
        r@.url == URL@ + "/send-messages"@,
        r@.query == Seq::<HeaderView>::empty(),
        r@.headers == client@.default_headers(),
        r@.body == BodyView::Json(
            "{\"conversation_id\":"@
                + json_string_literal(id@)
                + ",\"messages\":["@
                + join_wrapped(slice_texts(messages@), "{\"content\":"@, "}"@)
                + "]}"@,
        ),
{
    let mut url = String::from_str(URL);
    url.append("/send-messages");
    let mut text = String::from_str("{\"conversation_id\":");
    push_quoted(&mut text, id);
    text.append(",\"messages\":[");
    push_wrapped(&mut text, messages, "{\"content\":", "}");
    text.append("]}");
    let query: Vec<Header> = Vec::new();
    assert(headers_view(query@) =~= Seq::<HeaderView>::empty());
    client.request_with(Method::Post, url, query, Body::Json(text))
}

/// Tells a conversation that the user of the session is typing.
pub fn update_typing_status_in_conversation(client: &Client, id: &str) -> (r: Request)
    ensures
        r@.method == Method::Post,
        r@.url == URL@ + "/update-typing-status"@,
        r@.query == Seq::<HeaderView>::empty(),
        r@.headers == client@.default_headers(),
        r@.body == BodyView::Json(
            "{\"conversation_id\":"@ + json_string_literal(id@) + "}"@,
        ),
{
    let mut url = String::from_str(URL);
    url.append("/update-typing-status");
    let mut text = String::from_str("{\"conversation_id\":");
    push_quoted(&mut text, id);
    text.append("}");
    let query: Vec<Header> = Vec::new();
    assert(headers_view(query@) =~= Seq::<HeaderView>::empty());
    client.request_with(Method::Post, url, query, Body::Json(text))
}

/// Adds users to a conversation.
pub fn add_users_to_conversation(client: &Client, id: &str, users: &[u64]) -> (r: Request)
    ensures
        r@.method == Method::Post,
        r@.url == URL@ + "/add-users"@,
        r@.query == Seq::<HeaderView>::empty(),
        r@.headers == client@.default_headers(),
        r@.body == BodyView::Json(
            "{\"conversation_id\":"@
                + json_string_literal(id@)
                + ",\"user_ids\":"@
                + json_numbers(users@)
                + "}"@,
        ),
{
    let mut url = String::from_str(URL);
    url.append("/add-users");
    let mut text = String::from_str("{\"conversation_id\":");
    push_quoted(&mut text, id);
    text.append(",\"user_ids\":");
    push_json_numbers(&mut text, users);
    text.append("}");
    let query: Vec<Header> = Vec::new();
    assert(headers_view(query@) =~= Seq::<HeaderView>::empty());
    client.request_with(Method::Post, url, query, Body::Json(text))
}

/// Removes users from a conversation.
pub fn remove_users_from_conversation(client: &Client, id: &str, users: &[u64]) -> (r: Request)
    ensures
        r@.method == Method::Post,
        r@.url == URL@ + "/remove-users"@,
        r@.query == Seq::<HeaderView>::empty(),
        r@.headers == client@.default_headers(),
        r@.body == BodyView::Json(
            "{\"conversation_id\":"@
                + json_string_literal(id@)
                + ",\"user_ids\":"@
                + json_numbers(users@)
                + "}"@,
        ),
{
    let mut url = String::from_str(URL);
    url.append("/remove-users");
    let mut text = String::from_str("{\"conversation_id\":");
    push_quoted(&mut text, id);
    text.append(",\"user_ids\":");
    push_json_numbers(&mut text, users);
    text.append("}");
    let query: Vec<Header> = Vec::new();
    assert(headers_view(query@) =~= Seq::<HeaderView>::empty());
    client.request_with(Method::Post, url, query, Body::Json(text))
}

/// Creates group conversations.
pub fn create_conversations(
    client: &Client,
    conversations: &[ConversationCreateRequest],
) -> (r: Request)
    ensures
        r@.method == Method::Post,
        r@.url == URL@ + "/create-conversations"@,
        r@.query == Seq::<HeaderView>::empty(),
        r@.headers == client@.default_headers(),
        r@.body == BodyView::Json(
            "{\"conversations\":["@
                + join_conversations(conversations@)
                + "],\"include_user_data\":true}"@,
        ),
{
    let mut url = String::from_str(URL);
    url.append("/create-conversations");
    let mut text = String::from_str("{\"conversations\":[");
    push_conversations(&mut text, conversations);
    text.append("],\"include_user_data\":true}");
    let query: Vec<Header> = Vec::new();
    assert(headers_view(query@) =~= Seq::<HeaderView>::empty());
    client.request_with(Method::Post, url, query, Body::Json(text))
}

/// Gives conversations new names: the first name to the first identifier, and
/// so on.
pub fn rename_conversations(client: &Client, ids: &[&str], names: &[&str]) -> (r: Request)
    ensures
        r@.method == Method::Post,
        r@.url == URL@ + "/update-conversations"@,
        r@.query == Seq::<HeaderView>::empty(),
        r@.headers == client@.default_headers(),
        r@.body == BodyView::Json(
            "{\"conversations\":["@
                + join_renames(slice_texts(ids@), slice_texts(names@), pairs(ids@.len(), names@.len()))
                + "]}"@,
        ),
{
    let mut url = String::from_str(URL);
    url.append("/update-conversations");
    let mut text = String::from_str("{\"conversations\":[");
    push_renames(&mut text, ids, names);
    text.append("]}");
    let query: Vec<Header> = Vec::new();
    assert(headers_view(query@) =~= Seq::<HeaderView>::empty());
    client.request_with(Method::Post, url, query, Body::Json(text))
}

/// Marks conversations as read.
pub fn mark_conversations_as_read(client: &Client, ids: &[&str]) -> (r: Request)
    ensures
        r@.method == Method::Post,
        r@.url == URL@ + "/mark-conversations"@,
        r@.query == Seq::<HeaderView>::empty(),
        r@.headers == client@.default_headers(),
        r@.body == BodyView::Json(
            "{\"conversation_ids\":"@ + json_strings(slice_texts(ids@)) + "}"@,
        ),
{
    let mut url = String::from_str(URL);
    url.append("/mark-conversations");
    let mut text = String::from_str("{\"conversation_ids\":");
    push_json_strings(&mut text, ids);
    text.append("}");
    let query: Vec<Header> = Vec::new();
    assert(headers_view(query@) =~= Seq::<HeaderView>::empty());
    client.request_with(Method::Post, url, query, Body::Json(text))
}

} // verus!
