//! Looking one agent up by name, in the public view and in the detail view.

use vstd::prelude::*;
use crate::messages::{database_error, database_error_text, not_found, not_found_text};
use crate::model::{Agent, AgentDetail, AgentDetailResponse, AgentRecord, AgentResponse, Status, says};

verus! {

/// Whether `reply` answers a lookup by name that the store answered with
/// `found`. A name that nobody registered is no error.
pub open spec fn lookup_reply(
    found: Result<Option<Agent>, String>,
    reply: (Status, AgentResponse),
) -> bool {
    match found {
        Ok(Some(agent)) => reply.0 == Status::Success && reply.1.agent == Some(agent)
            && reply.1.success && reply.1.error is None,
        Ok(None) => reply.0 == Status::Success && reply.1.agent is None && reply.1.success
            && reply.1.error is None,
        Err(cause) => reply.0 == Status::Internal && reply.1.agent is None && !reply.1.success
            && says(reply.1.error, database_error_text(cause@)),
    }
}

/// Whether `body` is the failed detail response with the given message:
/// every text empty, no bio, no image.
pub open spec fn empty_detail(body: AgentDetailResponse, message: Seq<char>) -> bool {
    &&& body.agent_name@ == Seq::<char>::empty()
    &&& body.subject_address@ == Seq::<char>::empty()
    &&& body.invite_url@ == Seq::<char>::empty()
    &&& body.bio is None
    &&& body.image is None
    &&& !body.success
    &&& says(body.error, message)
}

/// Whether `reply` answers a detail lookup that the store answered with
/// `found`.
pub open spec fn detail_reply(
    found: Result<Option<AgentDetail>, String>,
    reply: (Status, AgentDetailResponse),
) -> bool {
    match found {
        Ok(Some(detail)) => {
            &&& reply.0 == Status::Success
            &&& reply.1.agent_name == detail.agent_name
            &&& reply.1.subject_address == detail.subject_address
            &&& reply.1.invite_url == detail.invite_url
            &&& reply.1.bio == detail.bio
            &&& reply.1.image == detail.image
            &&& reply.1.success
            &&& reply.1.error is None
        },
        Ok(None) => reply.0 == Status::NotFound && empty_detail(reply.1, not_found_text()),
        Err(cause) => reply.0 == Status::Internal && empty_detail(
            reply.1,
            database_error_text(cause@),
        ),
    }
}

/// The response to a lookup by name.
pub fn get_agent_by_name(found: Result<Option<Agent>, String>) -> (reply: (Status, AgentResponse))
    ensures
        lookup_reply(found, reply),
{
    match found {
        Ok(Some(agent)) => (
            Status::Success,
            AgentResponse { agent: Some(agent), success: true, error: None },
        ),
        Ok(None) => (Status::Success, AgentResponse { agent: None, success: true, error: None }),
        Err(cause) => (
            Status::Internal,
            AgentResponse {
                agent: None,
                success: false,
                error: Some(database_error(cause.as_str())),
            },
        ),
    }
}

fn failed_detail(message: String) -> (body: AgentDetailResponse)
    ensures
        empty_detail(body, message@),
{
    AgentDetailResponse {
        agent_name: String::new(),
        subject_address: String::new(),
        invite_url: String::new(),
        bio: None,
        image: None,
        success: false,
        error: Some(message),
    }
}

/// The response to a detail lookup.
pub fn get_agent_detail(found: Result<Option<AgentDetail>, String>) -> (reply: (
    Status,
    AgentDetailResponse,
))
    ensures
        detail_reply(found, reply),
{
    match found {
        Ok(Some(detail)) => (
            Status::Success,
            AgentDetailResponse {
                agent_name: detail.agent_name,
                subject_address: detail.subject_address,
                invite_url: detail.invite_url,
                bio: detail.bio,
                image: detail.image,
                success: true,
                error: None,
            },
        ),
        Ok(None) => (Status::NotFound, failed_detail(not_found())),
        Err(cause) => (Status::Internal, failed_detail(database_error(cause.as_str()))),
    }
}

/// Whether the table holds a record under `name`.
pub open spec fn registered(table: Seq<AgentRecord>, name: Seq<char>) -> bool {
    exists|i: int| 0 <= i < table.len() && (#[trigger] table[i]).agent_name@ == name
}

/// Whether `found` is a true answer of the table to a lookup of `name` in
/// the public view.
pub open spec fn answers_lookup(
    table: Seq<AgentRecord>,
    name: Seq<char>,
    found: Result<Option<Agent>, String>,
) -> bool {
    match found {
        Ok(Some(agent)) => exists|i: int|
            0 <= i < table.len() && (#[trigger] table[i]).agent_name@ == name
                && table[i].shows_as(agent),
        Ok(None) => !registered(table, name),
        Err(_) => true,
    }
}

/// Whether `found` is a true answer of the table to a lookup of `name` in
/// the detail view.
pub open spec fn answers_detail(
    table: Seq<AgentRecord>,
    name: Seq<char>,
    found: Result<Option<AgentDetail>, String>,
) -> bool {
    match found {
        Ok(Some(detail)) => exists|i: int|
            0 <= i < table.len() && (#[trigger] table[i]).agent_name@ == name
                && table[i].details_as(detail),
        Ok(None) => !registered(table, name),
        Err(_) => true,
    }
}

/// A lookup by a name that nobody registered, answered by the store without
/// failure, succeeds and carries no agent.
pub proof fn unknown_name_is_no_error(
    table: Seq<AgentRecord>,
    name: Seq<char>,
    found: Result<Option<Agent>, String>,
    reply: (Status, AgentResponse),
)
    requires
        !registered(table, name),
        found is Ok,
        answers_lookup(table, name, found),
        lookup_reply(found, reply),
    ensures
        reply.0.code() == 200,
        reply.1.success,
        reply.1.agent is None,
        reply.1.error is None,
{
}

/// A detail lookup by a name that nobody registered, answered by the store
/// without failure, is not found: every text of the response is empty and
/// the message says so.
pub proof fn unknown_name_has_no_detail(
    table: Seq<AgentRecord>,
    name: Seq<char>,
    found: Result<Option<AgentDetail>, String>,
    reply: (Status, AgentDetailResponse),
)
    requires
        !registered(table, name),
        found is Ok,
        answers_detail(table, name, found),
        detail_reply(found, reply),
    ensures
        reply.0.code() == 404,
        empty_detail(reply.1, "Agent not found"@),
{
}

/// The detail response to a registered name carries the invite link of a
/// record under that name.
pub proof fn detail_carries_invite_link(
    table: Seq<AgentRecord>,
    name: Seq<char>,
    found: Result<Option<AgentDetail>, String>,
    reply: (Status, AgentDetailResponse),
)
    requires
        found matches Ok(Some(_)),
        answers_detail(table, name, found),
        detail_reply(found, reply),
    ensures
        reply.0.code() == 200,
        exists|i: int|
            0 <= i < table.len() && (#[trigger] table[i]).agent_name@ == name
                && reply.1.invite_url == table[i].invite_url,
{
    let detail = found->Ok_0->Some_0;
    let i = choose|i: int|
        0 <= i < table.len() && (#[trigger] table[i]).agent_name@ == name && table[i].details_as(
            detail,
        );
    assert(reply.1.invite_url == table[i].invite_url);
}

/// A lookup by name and a detail lookup succeed exactly where their status
/// is a success, and carry a message exactly where they fail.
pub proof fn failure_carries_message(
    by_name: Result<Option<Agent>, String>,
    named: (Status, AgentResponse),
    in_detail: Result<Option<AgentDetail>, String>,
    detailed: (Status, AgentDetailResponse),
)
    requires
        lookup_reply(by_name, named),
        detail_reply(in_detail, detailed),
    ensures
        named.1.success == (named.0 == Status::Success),
        named.1.error is Some == !named.1.success,
        detailed.1.success == (detailed.0 == Status::Success),
        detailed.1.error is Some == !detailed.1.success,
{
}

} // verus!
