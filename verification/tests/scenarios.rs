use agent_registry::listing::{get_agents, get_agents_query, total_rows, ListReply};
use agent_registry::lookup::{get_agent_by_name, get_agent_detail};
use agent_registry::model::{
    AddTelegramBotRequest, AddTelegramBotResponse, Agent, AgentDetail, AgentDetailResponse,
    AgentRecord, AgentResponse, NewAgent, Status,
};
use agent_registry::registration::{
    handle_add_tg_bot, new_agent, registration_reply, Registration,
};
use agent_registry::timestamp::Timestamp;

/// A table in memory that answers as the relational store does.
struct MemoryStore {
    rows: Vec<AgentRecord>,
}

impl MemoryStore {
    fn new() -> Self {
        MemoryStore { rows: Vec::new() }
    }

    fn holder(&self, address: &str, chain: &str) -> Result<Option<String>, String> {
        Ok(self
            .rows
            .iter()
            .find(|r| r.subject_address == address && r.chain_type == chain)
            .map(|r| r.agent_name.clone()))
    }

    fn insert(&mut self, row: NewAgent) -> Result<(), String> {
        let tick = self.rows.len();
        self.rows.push(AgentRecord {
            agent_name: row.agent_name,
            subject_address: row.subject_address,
            chain_type: row.chain_type,
            bot_token: row.bot_token,
            chat_group_id: row.chat_group_id,
            invite_url: row.invite_url,
            bio: row.bio,
            image: row.image,
            created_at: Timestamp {
                year: 2024,
                month: 1,
                day: 1,
                hour: (tick / 60) as u8,
                minute: (tick % 60) as u8,
                second: 0,
                nanosecond: 0,
            },
        });
        Ok(())
    }

    fn count(&self) -> Result<Option<i64>, String> {
        Ok(Some(self.rows.len() as i64))
    }

    fn page(&self, limit: i64, offset: i64) -> Result<Vec<Agent>, String> {
        Ok(self
            .rows
            .iter()
            .rev()
            .skip(offset as usize)
            .take(limit as usize)
            .map(|r| r.clone().public_view())
            .collect())
    }

    fn by_name(&self, name: &str) -> Result<Option<Agent>, String> {
        Ok(self.rows.iter().find(|r| r.agent_name == name).map(|r| r.clone().public_view()))
    }

    fn detail(&self, name: &str) -> Result<Option<AgentDetail>, String> {
        Ok(self.rows.iter().find(|r| r.agent_name == name).map(|r| r.clone().detail_view()))
    }
}

fn add_bot(
    store: &mut MemoryStore,
    request: AddTelegramBotRequest,
) -> (Status, AddTelegramBotResponse) {
    let row = new_agent(request);
    let existing = store.holder(&row.subject_address, &row.chain_type);
    match handle_add_tg_bot(row, existing) {
        Registration::Insert(row) => registration_reply(store.insert(row)),
        Registration::Reject(status, body) => (status, body),
    }
}

fn list(
    store: &MemoryStore,
    page: Option<&str>,
    page_size: Option<&str>,
    queries: &mut u32,
) -> (Status, ListReply) {
    let query = match get_agents_query(page, page_size) {
        Ok(query) => query,
        Err((status, body)) => return (status, ListReply::Failure(body)),
    };
    *queries += 1;
    let total = match total_rows(store.count()) {
        Ok(total) => total,
        Err((status, body)) => return (status, ListReply::Failure(body)),
    };
    *queries += 1;
    get_agents(query, total, store.page(query.limit, query.offset))
}

fn lookup(store: &MemoryStore, name: &str) -> (Status, AgentResponse) {
    get_agent_by_name(store.by_name(name))
}

fn detail(store: &MemoryStore, name: &str) -> (Status, AgentDetailResponse) {
    get_agent_detail(store.detail(name))
}

fn request(name: &str, address: &str, chain: Option<&str>) -> AddTelegramBotRequest {
    AddTelegramBotRequest {
        bot_token: "t".to_string(),
        chat_group_id: "g".to_string(),
        subject_address: address.to_string(),
        agent_name: name.to_string(),
        invite_url: "http://x".to_string(),
        bio: None,
        image: None,
        chain_type: chain.map(|c| c.to_string()),
    }
}

fn filled(count: usize) -> MemoryStore {
    let mut store = MemoryStore::new();
    for i in 0..count {
        let (status, _) = add_bot(&mut store, request(&format!("bot{i}"), &format!("0xA{i}"), None));
        assert_eq!(status, Status::Success);
    }
    store
}

fn page_of(reply: ListReply) -> agent_registry::model::AgentListResponse {
    match reply {
        ListReply::Page(body) => body,
        ListReply::Failure(body) => panic!("no page: {}", body.error),
    }
}

#[test]
fn marked_and_plain_address_are_one_key() {
    let mut store = MemoryStore::new();
    let (first, _) = add_bot(&mut store, request("one", "0xABC123", Some("sui")));
    assert_eq!(first, Status::Success);
    let (second, body) = add_bot(&mut store, request("two", "abc123", Some("sui")));
    assert_eq!(second, Status::Conflict);
    assert_eq!(second.code(), 400);
    assert!(!body.success);
    assert_eq!(
        body.error,
        Some("A bot with the same address already exists: one".to_string())
    );
    assert_eq!(store.rows.len(), 1);
}

#[test]
fn default_chain_conflicts_with_explicit_sui() {
    let mut store = MemoryStore::new();
    assert_eq!(add_bot(&mut store, request("one", "0xABC123", None)).0, Status::Success);
    assert_eq!(add_bot(&mut store, request("two", "ABC123", Some("sui"))).0, Status::Conflict);
}

#[test]
fn same_address_on_another_chain_is_accepted() {
    let mut store = MemoryStore::new();
    assert_eq!(add_bot(&mut store, request("one", "0xABC123", Some("sui"))).0, Status::Success);
    let (status, body) = add_bot(&mut store, request("two", "0xabc123", Some("eth")));
    assert_eq!(status, Status::Success);
    assert_eq!(body, AddTelegramBotResponse { success: true, error: None });
    assert_eq!(store.rows.len(), 2);
    assert_eq!(store.rows[1].subject_address, "abc123");
    assert_eq!(store.rows[1].chain_type, "eth");
}

#[test]
fn lookup_of_unregistered_name_succeeds_without_agent() {
    let store = filled(2);
    let (status, body) = lookup(&store, "nobody");
    assert_eq!(status.code(), 200);
    assert_eq!(body, AgentResponse { agent: None, success: true, error: None });
}

#[test]
fn detail_of_unregistered_name_is_not_found() {
    let store = filled(2);
    let (status, body) = detail(&store, "nobody");
    assert_eq!(status.code(), 404);
    assert!(!body.success);
    assert_eq!(body.error, Some("Agent not found".to_string()));
    assert_eq!(body.agent_name, "");
    assert_eq!(body.subject_address, "");
    assert_eq!(body.invite_url, "");
    assert_eq!(body.bio, None);
    assert_eq!(body.image, None);
}

#[test]
fn detail_shows_the_invite_link() {
    let mut store = MemoryStore::new();
    let mut wanted = request("bot1", "0xAAA", Some("eth"));
    wanted.invite_url = "http://join".to_string();
    wanted.bio = Some("hello".to_string());
    add_bot(&mut store, wanted);
    let (status, body) = detail(&store, "bot1");
    assert_eq!(status, Status::Success);
    assert_eq!(body.invite_url, "http://join");
    assert_eq!(body.subject_address, "aaa");
    assert_eq!(body.bio, Some("hello".to_string()));
    assert!(body.success);
    assert_eq!(body.error, None);
}

#[test]
fn pages_hold_at_most_page_size_and_total_counts_all() {
    let store = filled(7);
    let mut queries = 0;
    for (page, size, expected) in
        [("1", "3", 3usize), ("2", "3", 3), ("3", "3", 1), ("4", "3", 0), ("1", "10", 7)]
    {
        let (status, reply) = list(&store, Some(page), Some(size), &mut queries);
        assert_eq!(status, Status::Success);
        let body = page_of(reply);
        assert_eq!(body.agents.len(), expected);
        assert!(body.agents.len() as i64 <= body.page_size);
        assert_eq!(body.total, 7);
        assert_eq!(body.page.to_string(), page);
        assert_eq!(body.page_size.to_string(), size);
    }
}

#[test]
fn list_is_newest_first() {
    let store = filled(5);
    let mut queries = 0;
    let (_, reply) = list(&store, Some("2"), Some("2"), &mut queries);
    let names: Vec<String> = page_of(reply).agents.into_iter().map(|a| a.agent_name).collect();
    assert_eq!(names, vec!["bot2".to_string(), "bot1".to_string()]);
}

#[test]
fn list_with_defaults_shows_first_ten() {
    let store = filled(12);
    let mut queries = 0;
    let (_, reply) = list(&store, None, Some("ten"), &mut queries);
    let body = page_of(reply);
    assert_eq!(body.agents.len(), 10);
    assert_eq!(body.total, 12);
    assert_eq!(body.page, 1);
    assert_eq!(body.page_size, 10);
    assert_eq!(body.agents[0].agent_name, "bot11");
}

#[test]
fn bad_pagination_asks_the_store_nothing() {
    let store = filled(3);
    for (page, size) in [("0", "10"), ("1", "0"), ("-1", "5"), ("2", "-7")] {
        let mut queries = 0;
        let (status, reply) = list(&store, Some(page), Some(size), &mut queries);
        assert_eq!(status, Status::BadRequest);
        assert_eq!(status.code(), 400);
        assert_eq!(queries, 0);
        match reply {
            ListReply::Failure(body) => {
                assert!(!body.success);
                assert_eq!(body.error, "Invalid pagination parameters");
            }
            ListReply::Page(_) => panic!("a page for bad pagination"),
        }
    }
}

#[test]
fn far_page_is_empty() {
    let store = filled(3);
    let mut queries = 0;
    let (status, reply) =
        list(&store, Some("9223372036854775807"), Some("9223372036854775807"), &mut queries);
    assert_eq!(status, Status::Success);
    let body = page_of(reply);
    assert!(body.agents.is_empty());
    assert_eq!(body.total, 3);
}

#[test]
fn register_twice_then_look_up() {
    let mut store = MemoryStore::new();
    let (status, body) = add_bot(&mut store, request("bot1", "0xAAA", Some("eth")));
    assert_eq!(status.code(), 200);
    assert_eq!(body, AddTelegramBotResponse { success: true, error: None });

    let (status, body) = add_bot(&mut store, request("bot1", "0xAAA", Some("eth")));
    assert_eq!(status.code(), 400);
    assert!(!body.success);
    assert!(body.error.unwrap().contains("bot1"));

    let (status, body) = lookup(&store, "bot1");
    assert_eq!(status.code(), 200);
    assert!(body.success);
    assert_eq!(body.error, None);
    assert_eq!(body.agent.unwrap().subject_address, "aaa");
}
