//! Registering an agent: normalize, check for a holder of the same address
//! on the same chain, then insert.

use vstd::prelude::*;
use crate::address::{chain_or_default, effective_chain, normalize_address, normalized_address};
use crate::messages::{check_failed, check_failed_text, duplicate, duplicate_text, insert_failed, insert_failed_text};
use crate::model::{AddTelegramBotRequest, AddTelegramBotResponse, AgentRecord, NewAgent, Status, says};

verus! {

/// What a registration does after the duplicate check.
#[derive(Clone, Debug, PartialEq, Eq)]
pub enum Registration {
    /// Insert this row.
    Insert(NewAgent),
    /// Write nothing and answer with this response.
    Reject(Status, AddTelegramBotResponse),
}

/// Whether `row` is what `request` asks to store: the address in stored
/// form, the chain defaulted, every other field as submitted.
pub open spec fn row_of_request(request: AddTelegramBotRequest, row: NewAgent) -> bool {
    &&& row.agent_name == request.agent_name
    &&& row.bot_token == request.bot_token
    &&& row.chat_group_id == request.chat_group_id
    &&& row.subject_address@ == normalized_address(request.subject_address@)
    &&& row.invite_url == request.invite_url
    &&& row.bio == request.bio
    &&& row.image == request.image
    &&& row.chain_type@ == effective_chain(request.chain_type)
}

/// Whether `step` is what follows the answer `existing` of the duplicate
/// check for `row`: the name of the agent that holds the row's address on
/// its chain, `None` where nobody does, or the store's failure.
pub open spec fn registration_step(
    row: NewAgent,
    existing: Result<Option<String>, String>,
    step: Registration,
) -> bool {
    match existing {
        Ok(Some(holder)) => step matches Registration::Reject(status, body) && status
            == Status::Conflict && !body.success && says(body.error, duplicate_text(holder@)),
        Ok(None) => step == Registration::Insert(row),
        Err(cause) => step matches Registration::Reject(status, body) && status
            == Status::Internal && !body.success && says(body.error, check_failed_text(cause@)),
    }
}

/// Whether `reply` answers a registration whose insert ended as `stored`.
pub open spec fn registration_outcome(
    stored: Result<(), String>,
    reply: (Status, AddTelegramBotResponse),
) -> bool {
    match stored {
        Ok(_) => reply.0 == Status::Success && reply.1.success && reply.1.error is None,
        Err(cause) => reply.0 == Status::Internal && !reply.1.success && says(
            reply.1.error,
            insert_failed_text(cause@),
        ),
    }
}

/// The row that a request asks to store. Its address and chain are the key
/// of the duplicate check.
pub fn new_agent(request: AddTelegramBotRequest) -> (row: NewAgent)
    ensures
        row_of_request(request, row),
{
    let subject_address = normalize_address(request.subject_address.as_str());
    let chain_type = chain_or_default(&request.chain_type);
    NewAgent {
        agent_name: request.agent_name,
        bot_token: request.bot_token,
        chat_group_id: request.chat_group_id,
        subject_address,
        invite_url: request.invite_url,
        bio: request.bio,
        image: request.image,
        chain_type,
    }
}

/// Decides a registration from the answer of the duplicate check.
pub fn handle_add_tg_bot(row: NewAgent, existing: Result<Option<String>, String>) -> (step:
    Registration)
    ensures
        registration_step(row, existing, step),
{
    match existing {
        Ok(Some(holder)) => Registration::Reject(
            Status::Conflict,
            AddTelegramBotResponse { success: false, error: Some(duplicate(holder.as_str())) },
        ),
        Ok(None) => Registration::Insert(row),
        Err(cause) => Registration::Reject(
            Status::Internal,
            AddTelegramBotResponse { success: false, error: Some(check_failed(cause.as_str())) },
        ),
    }
}

/// The response to a registration once the store has answered the insert.
pub fn registration_reply(stored: Result<(), String>) -> (reply: (Status, AddTelegramBotResponse))
    ensures
        registration_outcome(stored, reply),
{
    match stored {
        Ok(_) => (Status::Success, AddTelegramBotResponse { success: true, error: None }),
        Err(cause) => (
            Status::Internal,
            AddTelegramBotResponse { success: false, error: Some(insert_failed(cause.as_str())) },
        ),
    }
}

/// Whether `record` is filed under the given address and chain.
pub open spec fn filed_under(record: AgentRecord, address: Seq<char>, chain: Seq<char>) -> bool {
    record.subject_address@ == address && record.chain_type@ == chain
}

/// No two records of the table share address and chain.
pub open spec fn keys_unique(table: Seq<AgentRecord>) -> bool {
    forall|i: int, j: int|
        0 <= i < j < table.len() ==> !filed_under(
            #[trigger] table[j],
            (#[trigger] table[i]).subject_address@,
            table[i].chain_type@,
        )
}

/// Whether `existing` is a true answer of the table to the duplicate check
/// for `row`. A failure says nothing of the table.
pub open spec fn answers_check(
    table: Seq<AgentRecord>,
    row: NewAgent,
    existing: Result<Option<String>, String>,
) -> bool {
    match existing {
        Ok(Some(holder)) => exists|i: int|
            0 <= i < table.len() && filed_under(
                #[trigger] table[i],
                row.subject_address@,
                row.chain_type@,
            ) && table[i].agent_name == holder,
        Ok(None) => forall|i: int|
            0 <= i < table.len() ==> !filed_under(
                #[trigger] table[i],
                row.subject_address@,
                row.chain_type@,
            ),
        Err(_) => true,
    }
}

/// Whether `record` holds the columns of `row`.
pub open spec fn stored_as(row: NewAgent, record: AgentRecord) -> bool {
    &&& record.agent_name == row.agent_name
    &&& record.subject_address == row.subject_address
    &&& record.chain_type == row.chain_type
    &&& record.bot_token == row.bot_token
    &&& record.chat_group_id == row.chat_group_id
    &&& record.invite_url == row.invite_url
    &&& record.bio == row.bio
    &&& record.image == row.image
}

/// A table without two records under one address and chain stays so through
/// a registration whose duplicate check the table answered truly: the row
/// is inserted only where nobody holds its key.
pub proof fn registration_keeps_keys_unique(
    table: Seq<AgentRecord>,
    row: NewAgent,
    existing: Result<Option<String>, String>,
    step: Registration,
    record: AgentRecord,
)
    requires
        keys_unique(table),
        answers_check(table, row, existing),
        registration_step(row, existing, step),
        stored_as(row, record),
    ensures
        step is Insert ==> keys_unique(table.push(record)),
{
    if step is Insert {
        let after = table.push(record);
        assert forall|i: int, j: int| 0 <= i < j < after.len() implies !filed_under(
            #[trigger] after[j],
            (#[trigger] after[i]).subject_address@,
            after[i].chain_type@,
        ) by {
            if j < table.len() {
                assert(after[i] == table[i]);
                assert(after[j] == table[j]);
            } else {
                assert(after[i] == table[i]);
            }
        }
    }
}

/// Where a record already holds the row's address on the row's chain, the
/// registration is rejected as a conflict that names a holder, and nothing
/// is inserted.
pub proof fn held_key_is_rejected(
    table: Seq<AgentRecord>,
    row: NewAgent,
    existing: Result<Option<String>, String>,
    step: Registration,
    at: int,
)
    requires
        0 <= at < table.len(),
        filed_under(table[at], row.subject_address@, row.chain_type@),
        existing is Ok,
        answers_check(table, row, existing),
        registration_step(row, existing, step),
    ensures
        step matches Registration::Reject(status, body) && status == Status::Conflict
            && !body.success,
        existing matches Ok(Some(holder)) && step matches Registration::Reject(_, body) && says(
            body.error,
            duplicate_text(holder@),
        ),
{
}

/// Where no record holds the row's address on the row's chain, the row is
/// inserted as it stands; records under the same address on other chains do
/// not count.
pub proof fn free_key_is_accepted(
    table: Seq<AgentRecord>,
    row: NewAgent,
    existing: Result<Option<String>, String>,
    step: Registration,
)
    requires
        forall|i: int|
            0 <= i < table.len() ==> !filed_under(
                #[trigger] table[i],
                row.subject_address@,
                row.chain_type@,
            ),
        existing is Ok,
        answers_check(table, row, existing),
        registration_step(row, existing, step),
    ensures
        step == Registration::Insert(row),
{
}

/// A registration that is rejected, or whose insert failed, answers with a
/// failure status, the flag down and a message; one that was stored answers
/// with success and no message.
pub proof fn rejection_carries_message(
    row: NewAgent,
    existing: Result<Option<String>, String>,
    step: Registration,
    stored: Result<(), String>,
    reply: (Status, AddTelegramBotResponse),
)
    requires
        registration_step(row, existing, step),
        registration_outcome(stored, reply),
    ensures
        step matches Registration::Reject(status, body) ==> status != Status::Success
            && !body.success && body.error is Some,
        reply.1.success == (reply.0 == Status::Success),
        reply.1.success == stored is Ok,
        reply.1.error is Some == !reply.1.success,
{
}

} // verus!
