//! The records of the registry and the shapes of requests and responses.

use vstd::prelude::*;
use crate::timestamp::Timestamp;

verus! {

/// The outcome class of a response.
#[derive(Clone, Copy, Debug, PartialEq, Eq, Structural)]
pub enum Status {
    Success,
    BadRequest,
    Conflict,
    NotFound,
    Internal,
}

impl Status {
    /// The HTTP status code of this outcome.
    pub open spec fn spec_code(self) -> u16 {
        match self {
            Status::Success => 200u16,
            Status::BadRequest => 400u16,
            Status::Conflict => 400u16,
            Status::NotFound => 404u16,
            Status::Internal => 500u16,
        }
    }

    #[verifier::when_used_as_spec(spec_code)]
    pub fn code(self) -> (code: u16)
        ensures
            code == self.spec_code(),
    {
        match self {
            Status::Success => 200u16,
            Status::BadRequest => 400u16,
            Status::Conflict => 400u16,
            Status::NotFound => 404u16,
            Status::Internal => 500u16,
        }
    }
}

/// A row of the registry as it is persisted.
#[derive(Clone, Debug, PartialEq, Eq)]
pub struct AgentRecord {
    pub agent_name: String,
    pub subject_address: String,
    pub chain_type: String,
    pub bot_token: String,
    pub chat_group_id: String,
    pub invite_url: String,
    pub bio: Option<String>,
    pub image: Option<String>,
    pub created_at: Timestamp,
}

/// What a registration writes; the store adds the creation time.
#[derive(Clone, Debug, PartialEq, Eq)]
pub struct NewAgent {
    pub agent_name: String,
    pub bot_token: String,
    pub chat_group_id: String,
    pub subject_address: String,
    pub invite_url: String,
    pub bio: Option<String>,
    pub image: Option<String>,
    pub chain_type: String,
}

/// The public view of a record, as lists and lookups by name show it.
#[derive(Clone, Debug, PartialEq, Eq)]
pub struct Agent {
    pub agent_name: String,
    pub subject_address: String,
    pub bio: Option<String>,
    pub image: Option<String>,
    pub created_at: Timestamp,
}

/// The columns of a record that the detail view shows.
#[derive(Clone, Debug, PartialEq, Eq)]
pub struct AgentDetail {
    pub agent_name: String,
    pub subject_address: String,
    pub invite_url: String,
    pub bio: Option<String>,
    pub image: Option<String>,
}

/// One page of the list, with the number of all records.
#[derive(Clone, Debug, PartialEq, Eq)]
pub struct AgentListResponse {
    pub agents: Vec<Agent>,
    pub total: i64,
    pub page: i64,
    pub page_size: i64,
}

/// The answer to a lookup by name. A name that nobody registered gives no
/// agent and still succeeds.
#[derive(Clone, Debug, PartialEq, Eq)]
pub struct AgentResponse {
    pub agent: Option<Agent>,
    pub success: bool,
    pub error: Option<String>,
}

/// The answer to a detail lookup. Where it fails, every text is empty.
#[derive(Clone, Debug, PartialEq, Eq)]
pub struct AgentDetailResponse {
    pub agent_name: String,
    pub subject_address: String,
    pub invite_url: String,
    pub bio: Option<String>,
    pub image: Option<String>,
    pub success: bool,
    pub error: Option<String>,
}

/// A registration as submitted. The address may be in any case and carry a
/// leading `0x`; the chain may be missing.
#[derive(Clone, Debug, PartialEq, Eq)]
pub struct AddTelegramBotRequest {
    pub bot_token: String,
    pub chat_group_id: String,
    pub subject_address: String,
    pub agent_name: String,
    pub invite_url: String,
    pub bio: Option<String>,
    pub image: Option<String>,
    pub chain_type: Option<String>,
}

/// The answer to a registration.
#[derive(Clone, Debug, PartialEq, Eq)]
pub struct AddTelegramBotResponse {
    pub success: bool,
    pub error: Option<String>,
}

/// The generic error envelope: a success flag, always `false`, and a
/// message.
#[derive(Clone, Debug, PartialEq, Eq)]
pub struct ErrorEnvelope {
    pub success: bool,
    pub error: String,
}

/// Whether an optional message is present and reads `text`.
pub open spec fn says(message: Option<String>, text: Seq<char>) -> bool {
    message matches Some(m) && m@ == text
}

impl AgentRecord {
    /// The columns that lists and lookups by name select.
    pub open spec fn shows_as(self, agent: Agent) -> bool {
        &&& agent.agent_name == self.agent_name
        &&& agent.subject_address == self.subject_address
        &&& agent.bio == self.bio
        &&& agent.image == self.image
        &&& agent.created_at == self.created_at
    }

    /// The columns that the detail view selects.
    pub open spec fn details_as(self, detail: AgentDetail) -> bool {
        &&& detail.agent_name == self.agent_name
        &&& detail.subject_address == self.subject_address
        &&& detail.invite_url == self.invite_url
        &&& detail.bio == self.bio
        &&& detail.image == self.image
    }

    /// The public view of this record.
    pub fn public_view(self) -> (agent: Agent)
        ensures
            self.shows_as(agent),
    {
        Agent {
            agent_name: self.agent_name,
            subject_address: self.subject_address,
            bio: self.bio,
            image: self.image,
            created_at: self.created_at,
        }
    }

    /// The detail view of this record.
    pub fn detail_view(self) -> (detail: AgentDetail)
        ensures
            self.details_as(detail),
    {
        AgentDetail {
            agent_name: self.agent_name,
            subject_address: self.subject_address,
            invite_url: self.invite_url,
            bio: self.bio,
            image: self.image,
        }
    }
}

/// The public view depends on nothing but the name, the address, the bio,
/// the image and the creation time: two records that agree on these show as
/// the same agent, whatever their token, chat group, invite link and chain.
pub proof fn public_view_hides_private_columns(
    first: AgentRecord,
    second: AgentRecord,
    shown_first: Agent,
    shown_second: Agent,
)
    requires
        first.agent_name == second.agent_name,
        first.subject_address == second.subject_address,
        first.bio == second.bio,
        first.image == second.image,
        first.created_at == second.created_at,
        first.shows_as(shown_first),
        second.shows_as(shown_second),
    ensures
        shown_first == shown_second,
{
}

/// The detail view carries the record's invite link and depends on neither
/// its token, its chat group nor its chain.
pub proof fn detail_view_shows_invite_link(
    first: AgentRecord,
    second: AgentRecord,
    detail_first: AgentDetail,
    detail_second: AgentDetail,
)
    requires
        first.agent_name == second.agent_name,
        first.subject_address == second.subject_address,
        first.invite_url == second.invite_url,
        first.bio == second.bio,
        first.image == second.image,
        first.details_as(detail_first),
        second.details_as(detail_second),
    ensures
        detail_first.invite_url == first.invite_url,
        detail_first == detail_second,
{
}

} // verus!
