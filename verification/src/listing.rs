//! The paginated list of agents, newest first.

use vstd::prelude::*;
use crate::messages::{database_error, database_error_text, invalid_pagination, invalid_pagination_text};
use crate::model::{Agent, AgentListResponse, ErrorEnvelope, Status};
use crate::number::{decimal_i64, parse_decimal};

verus! {

/// The page that is shown where the request names none it can use.
pub const DEFAULT_PAGE: i64 = 1;

/// The page size where the request names none it can use.
pub const DEFAULT_PAGE_SIZE: i64 = 10;

/// The value of an optional query parameter: the number it writes, or the
/// fallback where it is absent or writes none.
pub open spec fn param_value(raw: Option<&str>, fallback: i64) -> i64 {
    match raw {
        Some(text) => match decimal_i64(text@) {
            Some(value) => value,
            None => fallback,
        },
        None => fallback,
    }
}

/// Reads an optional query parameter as a number.
pub fn page_param(raw: Option<&str>, fallback: i64) -> (value: i64)
    ensures
        value == param_value(raw, fallback),
{
    match raw {
        Some(text) => match parse_decimal(text) {
            Some(value) => value,
            None => fallback,
        },
        None => fallback,
    }
}

/// What the store is asked for one page.
#[derive(Clone, Copy, Debug, PartialEq, Eq)]
pub struct PageQuery {
    pub page: i64,
    pub page_size: i64,
    /// The most rows to fetch.
    pub limit: i64,
    /// The rows to skip, newest first.
    pub offset: i64,
}

/// What a list request answers: a page, or the generic error envelope.
#[derive(Clone, Debug, PartialEq, Eq)]
pub enum ListReply {
    Page(AgentListResponse),
    Failure(ErrorEnvelope),
}

/// The rows before a page.
pub open spec fn rows_before(page: int, page_size: int) -> int {
    (page - 1) * page_size
}

/// The offset handed to the store: the rows before the page, or the largest
/// `i64` where they are more than that. No table holds more rows than an
/// `i64` counts, so the page is empty either way.
pub open spec fn page_offset(page: int, page_size: int) -> int {
    if rows_before(page, page_size) > i64::MAX {
        i64::MAX as int
    } else {
        rows_before(page, page_size)
    }
}

/// Whether `body` is the error envelope with the given message.
pub open spec fn failure(body: ErrorEnvelope, message: Seq<char>) -> bool {
    !body.success && body.error@ == message
}

/// Whether `plan` is the plan for the given page and size: a query where
/// both are at least 1, a bad request otherwise.
pub open spec fn page_plan(
    page: i64,
    page_size: i64,
    plan: Result<PageQuery, (Status, ErrorEnvelope)>,
) -> bool {
    match plan {
        Ok(query) => {
            &&& page >= 1 && page_size >= 1
            &&& query.page == page
            &&& query.page_size == page_size
            &&& query.limit == page_size
            &&& query.offset == page_offset(page as int, page_size as int)
        },
        Err((status, body)) => {
            &&& page < 1 || page_size < 1
            &&& status == Status::BadRequest
            &&& failure(body, invalid_pagination_text())
        },
    }
}

/// Whether `total` is what follows the store's answer to the count: the
/// count, 0 where the store gave none, an internal error where it failed.
pub open spec fn count_outcome(
    counted: Result<Option<i64>, String>,
    total: Result<i64, (Status, ErrorEnvelope)>,
) -> bool {
    match counted {
        Ok(Some(count)) => total == Ok::<i64, (Status, ErrorEnvelope)>(count),
        Ok(None) => total == Ok::<i64, (Status, ErrorEnvelope)>(0i64),
        Err(cause) => total matches Err((status, body)) && status == Status::Internal && failure(
            body,
            database_error_text(cause@),
        ),
    }
}

/// Whether `reply` answers the list request `query` for which the store
/// counted `total` rows and fetched `fetched`.
pub open spec fn list_reply(
    query: PageQuery,
    total: i64,
    fetched: Result<Vec<Agent>, String>,
    reply: (Status, ListReply),
) -> bool {
    match fetched {
        Ok(rows) => {
            &&& reply.0 == Status::Success
            &&& reply.1 matches ListReply::Page(body)
            &&& body.agents == rows
            &&& body.total == total
            &&& body.page == query.page
            &&& body.page_size == query.page_size
        },
        Err(cause) => {
            &&& reply.0 == Status::Internal
            &&& reply.1 matches ListReply::Failure(body)
            &&& failure(body, database_error_text(cause@))
        },
    }
}

/// Validates a page and a size and says what to fetch. Nothing is asked of
/// the store where either is below 1.
pub fn plan_page(page: i64, page_size: i64) -> (plan: Result<PageQuery, (Status, ErrorEnvelope)>)
    ensures
        page_plan(page, page_size, plan),
{
    if page < 1 || page_size < 1 {
        return Err(
            (Status::BadRequest, ErrorEnvelope { success: false, error: invalid_pagination() }),
        );
    }
    let offset: i64 = match (page - 1).checked_mul(page_size) {
        Some(exact) => exact,
        None => {
            assert(rows_before(page as int, page_size as int) > i64::MAX) by (nonlinear_arith)
                requires
                    page >= 1,
                    page_size >= 1,
                    (page - 1) * page_size < i64::MIN || (page - 1) * page_size > i64::MAX,
            ;
            i64::MAX
        },
    };
    Ok(PageQuery { page, page_size, limit: page_size, offset })
}

/// The plan for a list request from its raw query parameters. One that is
/// absent or no number counts as its default.
pub fn get_agents_query(page: Option<&str>, page_size: Option<&str>) -> (plan: Result<
    PageQuery,
    (Status, ErrorEnvelope),
>)
    ensures
        page_plan(
            param_value(page, DEFAULT_PAGE),
            param_value(page_size, DEFAULT_PAGE_SIZE),
            plan,
        ),
{
    plan_page(page_param(page, DEFAULT_PAGE), page_param(page_size, DEFAULT_PAGE_SIZE))
}

/// The total from the store's answer to the count.
pub fn total_rows(counted: Result<Option<i64>, String>) -> (total: Result<
    i64,
    (Status, ErrorEnvelope),
>)
    ensures
        count_outcome(counted, total),
{
    match counted {
        Ok(Some(count)) => Ok(count),
        Ok(None) => Ok(0),
        Err(cause) => Err(
            (
                Status::Internal,
                ErrorEnvelope { success: false, error: database_error(cause.as_str()) },
            ),
        ),
    }
}

/// The response to a list request once the store has answered the fetch.
pub fn get_agents(query: PageQuery, total: i64, fetched: Result<Vec<Agent>, String>) -> (reply: (
    Status,
    ListReply,
))
    ensures
        list_reply(query, total, fetched, reply),
{
    match fetched {
        Ok(rows) => (
            Status::Success,
            ListReply::Page(
                AgentListResponse {
                    agents: rows,
                    total,
                    page: query.page,
                    page_size: query.page_size,
                },
            ),
        ),
        Err(cause) => (
            Status::Internal,
            ListReply::Failure(
                ErrorEnvelope { success: false, error: database_error(cause.as_str()) },
            ),
        ),
    }
}

/// The rows of `table`, which is ordered newest first, that are left after
/// skipping `offset` of them, up to `limit`.
pub open spec fn window(table: Seq<Agent>, offset: int, limit: int) -> Seq<Agent>
    recommends
        offset >= 0,
        limit >= 0,
{
    if offset >= table.len() {
        Seq::empty()
    } else if offset + limit >= table.len() {
        table.skip(offset)
    } else {
        table.subrange(offset, offset + limit)
    }
}

/// For a page and a size of at least 1, and a store that counts and fetches
/// as asked, the list shows the rows of that page and no more of them than
/// the page size, and its total is the number of all rows, whichever page
/// was asked for.
pub proof fn page_is_bounded(
    table: Seq<Agent>,
    page: i64,
    page_size: i64,
    plan: Result<PageQuery, (Status, ErrorEnvelope)>,
    rows: Vec<Agent>,
    reply: (Status, ListReply),
)
    requires
        page >= 1,
        page_size >= 1,
        table.len() <= i64::MAX,
        page_plan(page, page_size, plan),
        plan matches Ok(query) ==> rows@ == window(table, query.offset as int, query.limit as int)
            && list_reply(query, table.len() as i64, Ok(rows), reply),
    ensures
        plan is Ok,
        reply.0 == Status::Success,
        reply.1 matches ListReply::Page(body) && body.agents@.len() <= page_size && body.agents@
            == window(table, rows_before(page as int, page_size as int), page_size as int)
            && body.total == table.len() && body.page == page && body.page_size == page_size,
{
    assert(rows_before(page as int, page_size as int) >= 0) by (nonlinear_arith)
        requires
            page >= 1,
            page_size >= 1,
    ;
}

/// A page or a size below 1 is a bad request, and no query is planned.
pub proof fn bad_page_is_refused(
    page: i64,
    page_size: i64,
    plan: Result<PageQuery, (Status, ErrorEnvelope)>,
)
    requires
        page < 1 || page_size < 1,
        page_plan(page, page_size, plan),
    ensures
        plan matches Err((status, body)) && status.code() == 400 && !body.success,
{
}

} // verus!
