//! The JSON shape of each response: which members an object has, in which
//! order, and which of them are left out.

use vstd::prelude::*;
use vstd::string::*;
use crate::listing::ListReply;
use crate::model::{
    AddTelegramBotResponse, Agent, AgentDetailResponse, AgentListResponse, AgentResponse,
    ErrorEnvelope,
};

verus! {

/// A JSON value. An object keeps its members in the order in which they are
/// written out.
#[derive(Debug, PartialEq, Eq)]
pub enum Json {
    Null,
    Bool(bool),
    Number(i64),
    Text(String),
    Array(Vec<Json>),
    Object(Vec<Member>),
}

/// One member of a JSON object.
#[derive(Debug, PartialEq, Eq)]
pub struct Member {
    pub name: String,
    pub value: Json,
}

/// Whether `json` is the string `text`.
pub open spec fn is_text(json: Json, text: Seq<char>) -> bool {
    json matches Json::Text(held) && held@ == text
}

/// Whether `json` is the string held by `text`, or `null` where it holds
/// none.
pub open spec fn is_optional_text(json: Json, text: Option<String>) -> bool {
    match text {
        Some(held) => is_text(json, held@),
        None => json is Null,
    }
}

/// Whether `member` is called `name` and holds the string `text`.
pub open spec fn text_member(member: Member, name: Seq<char>, text: Seq<char>) -> bool {
    member.name@ == name && is_text(member.value, text)
}

/// Whether `member` is called `name` and holds the optional string `text`.
pub open spec fn optional_text_member(member: Member, name: Seq<char>, text: Option<String>) -> bool {
    member.name@ == name && is_optional_text(member.value, text)
}

/// Whether `member` is called `name` and holds the boolean `flag`.
pub open spec fn flag_member(member: Member, name: Seq<char>, flag: bool) -> bool {
    member.name@ == name && member.value == Json::Bool(flag)
}

/// Whether `member` is called `name` and holds the number `number`.
pub open spec fn number_member(member: Member, name: Seq<char>, number: i64) -> bool {
    member.name@ == name && member.value == Json::Number(number)
}

/// Whether `members` has `fixed` members and then, where there is an error
/// message, one member `error` with it. Without a message there is no such
/// member, not a `null`.
pub open spec fn closes_with_error(members: Seq<Member>, fixed: int, error: Option<String>) -> bool {
    match error {
        Some(message) => members.len() == fixed + 1 && text_member(
            members[fixed],
            "error"@,
            message@,
        ),
        None => members.len() == fixed,
    }
}

/// Whether `json` is an object with a member called `name`.
pub open spec fn has_member(json: Json, name: Seq<char>) -> bool {
    json matches Json::Object(members) && exists|i: int|
        0 <= i < members@.len() && (#[trigger] members@[i]).name@ == name
}

/// Whether `json` is the object that shows `agent`: name, address, bio,
/// image and creation time, in this order, the creation time as text.
pub open spec fn agent_object(agent: Agent, json: Json) -> bool {
    &&& json matches Json::Object(members)
    &&& agent.created_at.text() matches Some(created)
    &&& members@.len() == 5
    &&& text_member(members@[0], "agent_name"@, agent.agent_name@)
    &&& text_member(members@[1], "subject_address"@, agent.subject_address@)
    &&& optional_text_member(members@[2], "bio"@, agent.bio)
    &&& optional_text_member(members@[3], "image"@, agent.image)
    &&& text_member(members@[4], "created_at"@, created)
}

/// Whether every agent of the sequence has a creation time that can be
/// shown.
pub open spec fn all_dated(agents: Seq<Agent>) -> bool {
    forall|i: int| 0 <= i < agents.len() ==> (#[trigger] agents[i]).created_at.text() is Some
}

/// Whether `json` is the object of a page of the list.
pub open spec fn list_object(body: AgentListResponse, json: Json) -> bool {
    &&& json matches Json::Object(members)
    &&& members@.len() == 4
    &&& members@[0].name@ == "agents"@
    &&& members@[0].value matches Json::Array(items)
    &&& items@.len() == body.agents@.len()
    &&& forall|i: int|
        0 <= i < items@.len() ==> agent_object(body.agents@[i], #[trigger] items@[i])
    &&& number_member(members@[1], "total"@, body.total)
    &&& number_member(members@[2], "page"@, body.page)
    &&& number_member(members@[3], "page_size"@, body.page_size)
}

/// Whether `json` is the object of a lookup by name: the agent or `null`,
/// the success flag, and the error message where there is one.
pub open spec fn lookup_object(body: AgentResponse, json: Json) -> bool {
    &&& json matches Json::Object(members)
    &&& closes_with_error(members@, 2, body.error)
    &&& members@[0].name@ == "agent"@
    &&& match body.agent {
        Some(agent) => agent_object(agent, members@[0].value),
        None => members@[0].value is Null,
    }
    &&& flag_member(members@[1], "success"@, body.success)
}

/// Whether `json` is the object of a detail lookup.
pub open spec fn detail_object(body: AgentDetailResponse, json: Json) -> bool {
    &&& json matches Json::Object(members)
    &&& closes_with_error(members@, 6, body.error)
    &&& text_member(members@[0], "agent_name"@, body.agent_name@)
    &&& text_member(members@[1], "subject_address"@, body.subject_address@)
    &&& text_member(members@[2], "invite_url"@, body.invite_url@)
    &&& optional_text_member(members@[3], "bio"@, body.bio)
    &&& optional_text_member(members@[4], "image"@, body.image)
    &&& flag_member(members@[5], "success"@, body.success)
}

/// Whether `json` is the object of a registration's response.
pub open spec fn registration_object(body: AddTelegramBotResponse, json: Json) -> bool {
    &&& json matches Json::Object(members)
    &&& closes_with_error(members@, 1, body.error)
    &&& flag_member(members@[0], "success"@, body.success)
}

/// Whether `json` is the object of the generic error envelope: the message,
/// then the flag.
pub open spec fn envelope_object(body: ErrorEnvelope, json: Json) -> bool {
    &&& json matches Json::Object(members)
    &&& members@.len() == 2
    &&& text_member(members@[0], "error"@, body.error@)
    &&& flag_member(members@[1], "success"@, body.success)
}

fn text_field(name: &str, text: &String) -> (member: Member)
    ensures
        text_member(member, name@, text@),
{
    Member { name: String::from_str(name), value: Json::Text(text.clone()) }
}

fn optional_text_field(name: &str, text: &Option<String>) -> (member: Member)
    ensures
        optional_text_member(member, name@, *text),
{
    let value = match text {
        Some(held) => Json::Text(held.clone()),
        None => Json::Null,
    };
    Member { name: String::from_str(name), value }
}

fn flag_field(name: &str, flag: bool) -> (member: Member)
    ensures
        flag_member(member, name@, flag),
{
    Member { name: String::from_str(name), value: Json::Bool(flag) }
}

fn number_field(name: &str, number: i64) -> (member: Member)
    ensures
        number_member(member, name@, number),
{
    Member { name: String::from_str(name), value: Json::Number(number) }
}

fn close_with_error(members: &mut Vec<Member>, error: &Option<String>)
    ensures
        closes_with_error(final(members)@, old(members)@.len() as int, *error),
        forall|i: int| 0 <= i < old(members)@.len() ==> final(members)@[i] == old(members)@[i],
{
    match error {
        Some(message) => {
            members.push(text_field("error", message));
        },
        None => {},
    }
}

/// The object that shows an agent. `None` where its creation time is no
/// date and time and so has no text.
pub fn agent_json(agent: &Agent) -> (json: Option<Json>)
    ensures
        json is Some == agent.created_at.text() is Some,
        json matches Some(object) ==> agent_object(*agent, object),
{
    match agent.created_at.to_text() {
        Some(created) => {
            let mut members: Vec<Member> = Vec::new();
            members.push(text_field("agent_name", &agent.agent_name));
            members.push(text_field("subject_address", &agent.subject_address));
            members.push(optional_text_field("bio", &agent.bio));
            members.push(optional_text_field("image", &agent.image));
            members.push(text_field("created_at", &created));
            Some(Json::Object(members))
        },
        None => None,
    }
}

/// The object of a page of the list. `None` where an agent's creation time
/// has no text.
pub fn list_json(body: &AgentListResponse) -> (json: Option<Json>)
    ensures
        json is Some == all_dated(body.agents@),
        json matches Some(object) ==> list_object(*body, object),
{
    let mut items: Vec<Json> = Vec::new();
    let mut at: usize = 0;
    while at < body.agents.len()
        invariant
            at <= body.agents@.len(),
            items@.len() == at,
            forall|i: int| 0 <= i < at ==> agent_object(body.agents@[i], #[trigger] items@[i]),
            forall|i: int| 0 <= i < at ==> (#[trigger] body.agents@[i]).created_at.text() is Some,
        decreases body.agents@.len() - at,
    {
        match agent_json(&body.agents[at]) {
            Some(object) => {
                items.push(object);
            },
            None => {
                assert(body.agents@[at as int].created_at.text() is None);
                return None;
            },
        }
        at = at + 1;
    }
    let mut members: Vec<Member> = Vec::new();
    members.push(Member { name: String::from_str("agents"), value: Json::Array(items) });
    members.push(number_field("total", body.total));
    members.push(number_field("page", body.page));
    members.push(number_field("page_size", body.page_size));
    Some(Json::Object(members))
}

/// The object of a lookup by name. `None` where the agent's creation time
/// has no text.
pub fn lookup_json(body: &AgentResponse) -> (json: Option<Json>)
    ensures
        json is None == (body.agent matches Some(agent) && agent.created_at.text() is None),
        json matches Some(object) ==> lookup_object(*body, object),
{
    let shown = match &body.agent {
        Some(agent) => match agent_json(agent) {
            Some(object) => object,
            None => {
                return None;
            },
        },
        None => Json::Null,
    };
    let mut members: Vec<Member> = Vec::new();
    members.push(Member { name: String::from_str("agent"), value: shown });
    members.push(flag_field("success", body.success));
    close_with_error(&mut members, &body.error);
    Some(Json::Object(members))
}

/// The object of a detail lookup.
pub fn detail_json(body: &AgentDetailResponse) -> (json: Json)
    ensures
        detail_object(*body, json),
{
    let mut members: Vec<Member> = Vec::new();
    members.push(text_field("agent_name", &body.agent_name));
    members.push(text_field("subject_address", &body.subject_address));
    members.push(text_field("invite_url", &body.invite_url));
    members.push(optional_text_field("bio", &body.bio));
    members.push(optional_text_field("image", &body.image));
    members.push(flag_field("success", body.success));
    close_with_error(&mut members, &body.error);
    Json::Object(members)
}

/// The object of a registration's response.
pub fn registration_json(body: &AddTelegramBotResponse) -> (json: Json)
    ensures
        registration_object(*body, json),
{
    let mut members: Vec<Member> = Vec::new();
    members.push(flag_field("success", body.success));
    close_with_error(&mut members, &body.error);
    Json::Object(members)
}

/// The object of the generic error envelope.
pub fn envelope_json(body: &ErrorEnvelope) -> (json: Json)
    ensures
        envelope_object(*body, json),
{
    let mut members: Vec<Member> = Vec::new();
    members.push(text_field("error", &body.error));
    members.push(flag_field("success", body.success));
    Json::Object(members)
}

/// The object of a list request's answer, page or failure.
pub fn list_reply_json(reply: &ListReply) -> (json: Option<Json>)
    ensures
        match *reply {
            ListReply::Page(body) => json is Some == all_dated(body.agents@) && (json matches Some(
                object,
            ) ==> list_object(body, object)),
            ListReply::Failure(body) => json matches Some(object) && envelope_object(body, object),
        },
{
    match reply {
        ListReply::Page(body) => list_json(body),
        ListReply::Failure(body) => Some(envelope_json(body)),
    }
}

/// Whether `name` is one of the columns that no public view shows: the
/// token, the chat group, the invite link, the chain.
pub open spec fn private_column(name: Seq<char>) -> bool {
    name == "bot_token"@ || name == "chat_group_id"@ || name == "invite_url"@ || name
        == "chain_type"@
}

/// The members of an agent object are its name, address, bio, image and
/// creation time, and no others.
pub proof fn agent_object_members(agent: Agent, json: Json, name: Seq<char>)
    requires
        agent_object(agent, json),
    ensures
        has_member(json, name) <==> (name == "agent_name"@ || name == "subject_address"@ || name
            == "bio"@ || name == "image"@ || name == "created_at"@),
{
    let members = json->Object_0@;
    if name == "agent_name"@ {
        assert(members[0].name@ == name);
    }
    if name == "subject_address"@ {
        assert(members[1].name@ == name);
    }
    if name == "bio"@ {
        assert(members[2].name@ == name);
    }
    if name == "image"@ {
        assert(members[3].name@ == name);
    }
    if name == "created_at"@ {
        assert(members[4].name@ == name);
    }
}

/// No private column has the name of a member of an agent object.
pub proof fn private_columns_are_not_shown(name: Seq<char>)
    requires
        private_column(name),
    ensures
        name != "agent_name"@,
        name != "subject_address"@,
        name != "bio"@,
        name != "image"@,
        name != "created_at"@,
{
    reveal_strlit("bot_token");
    reveal_strlit("chat_group_id");
    reveal_strlit("invite_url");
    reveal_strlit("chain_type");
    reveal_strlit("agent_name");
    reveal_strlit("subject_address");
    reveal_strlit("bio");
    reveal_strlit("image");
    reveal_strlit("created_at");
    assert("invite_url"@.len() == 10);
    assert("chain_type"@.len() == 10);
    assert("agent_name"@.len() == 10);
    assert("subject_address"@.len() == 15);
    assert("bio"@.len() == 3);
    assert("image"@.len() == 5);
    assert("created_at"@.len() == 10);
    assert("invite_url"@[0] == 'i');
    assert("chain_type"@[1] == 'h');
    assert("created_at"@[1] == 'r');
}

/// An agent object never has a member for the token, the chat group, the
/// invite link or the chain.
pub proof fn agent_object_hides_private_columns(agent: Agent, json: Json, name: Seq<char>)
    requires
        agent_object(agent, json),
        private_column(name),
    ensures
        !has_member(json, name),
{
    agent_object_members(agent, json, name);
    private_columns_are_not_shown(name);
}

/// No agent of a list page has a member for the token, the chat group, the
/// invite link or the chain.
pub proof fn list_hides_private_columns(
    body: AgentListResponse,
    json: Json,
    at: int,
    name: Seq<char>,
)
    requires
        list_object(body, json),
        0 <= at < body.agents@.len(),
        private_column(name),
    ensures
        json matches Json::Object(members) && members@[0].value matches Json::Array(items)
            && items@.len() == body.agents@.len() && !has_member(items@[at], name),
{
    let items = json->Object_0@[0].value->Array_0@;
    assert(agent_object(body.agents@[at], items[at]));
    agent_object_hides_private_columns(body.agents@[at], items[at], name);
}

/// The agent of a lookup by name has no member for the token, the chat
/// group, the invite link or the chain.
pub proof fn lookup_hides_private_columns(body: AgentResponse, json: Json, name: Seq<char>)
    requires
        lookup_object(body, json),
        private_column(name),
    ensures
        json matches Json::Object(members) && members@.len() >= 2 && !has_member(
            members@[0].value,
            name,
        ),
{
    let shown = json->Object_0@[0].value;
    match body.agent {
        Some(agent) => {
            agent_object_hides_private_columns(agent, shown, name);
        },
        None => {},
    }
}

/// The object of a detail lookup has the member `invite_url`, and it holds
/// the invite link of the response.
pub proof fn detail_object_shows_invite_link(body: AgentDetailResponse, json: Json)
    requires
        detail_object(body, json),
    ensures
        has_member(json, "invite_url"@),
        json matches Json::Object(members) && members@.len() >= 6 && text_member(
            members@[2],
            "invite_url"@,
            body.invite_url@,
        ),
{
    let members = json->Object_0@;
    assert(members[2].name@ == "invite_url"@);
}

/// The object of a registration's response has a member `error` exactly
/// where the response has a message.
pub proof fn error_is_left_out_on_success(body: AddTelegramBotResponse, json: Json)
    requires
        registration_object(body, json),
    ensures
        has_member(json, "error"@) <==> body.error is Some,
{
    reveal_strlit("error");
    reveal_strlit("success");
    assert("error"@.len() == 5);
    assert("success"@.len() == 7);
    let members = json->Object_0@;
    if body.error is Some {
        assert(members[1].name@ == "error"@);
    }
}

} // verus!
