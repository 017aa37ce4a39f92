//! Request bodies and records of the ticketing endpoints, and the computing
//! part of those endpoints: paging, new records, partial updates. Storage is
//! the caller's. Identifiers are UUIDs held as their 128-bit value; times are
//! milliseconds since the Unix epoch.
use vstd::prelude::*;

verus! {

/// Page size when a query gives none.
pub const DEFAULT_PAGE_SIZE: u64 = 50;

#[derive(Debug, Clone)]
pub struct LoginRequest {
    pub email: String,
    pub password: String,
}

#[derive(Debug, Clone)]
pub struct RegisterRequest {
    pub name: String,
    pub email: String,
    pub password: String,
    pub role: String,
}

#[derive(Debug, Clone)]
pub struct CreateTicketRequest {
    pub subject: String,
    pub description: String,
    pub priority: String,
}

#[derive(Debug, Clone)]
pub struct UpdateTicketRequest {
    pub subject: Option<String>,
    pub description: Option<String>,
    pub status: Option<String>,
    pub priority: Option<String>,
    pub assigned_to: Option<u128>,
}

#[derive(Debug, Clone)]
pub struct TicketQuery {
    pub status: Option<String>,
    pub priority: Option<String>,
    pub assigned_to: Option<u128>,
    pub created_by: Option<u128>,
    pub page: Option<u64>,
    pub limit: Option<u64>,
}

#[derive(Debug, Clone)]
pub struct TicketResponse {
    pub id: u128,
    pub subject: String,
    pub description: String,
    pub status: String,
    pub priority: String,
    pub assigned_to: Option<u128>,
    pub created_by: u128,
    pub created_at: i64,
    pub updated_at: i64,
}

#[derive(Debug, Clone)]
pub struct CreateCommentRequest {
    pub content: String,
    pub is_internal: bool,
}

#[derive(Debug, Clone)]
pub struct CommentResponse {
    pub id: u128,
    pub ticket_id: u128,
    pub user_id: u128,
    pub content: String,
    pub is_internal: bool,
    pub created_at: i64,
}

#[derive(Debug, Clone)]
pub struct CreateArticleRequest {
    pub title: String,
    pub content: String,
    pub category: String,
    pub tags: Vec<String>,
}

#[derive(Debug, Clone)]
pub struct UpdateArticleRequest {
    pub title: Option<String>,
    pub content: Option<String>,
    pub category: Option<String>,
    pub tags: Option<Vec<String>>,
}

#[derive(Debug, Clone)]
pub struct ArticleQuery {
    pub category: Option<String>,
    pub search: Option<String>,
    pub page: Option<u64>,
    pub limit: Option<u64>,
}

#[derive(Debug, Clone)]
pub struct ArticleResponse {
    pub id: u128,
    pub title: String,
    pub content: String,
    pub category: String,
    pub tags: Vec<String>,
    pub created_by: u128,
    pub created_at: i64,
    pub updated_at: i64,
}

/// The page to fetch, given the query's 1-based page number and page size
/// (defaults 1 and `DEFAULT_PAGE_SIZE`): how many rows to skip and how many to
/// take. `None` for page 0, or where the offset does not fit in 64 bits.
pub open spec fn window_of(page: Option<u64>, limit: Option<u64>) -> Option<(u64, u64)> {
    let p = match page {
        Some(p) => p as int,
        None => 1,
    };
    let l = match limit {
        Some(l) => l as int,
        None => DEFAULT_PAGE_SIZE as int,
    };
    if p >= 1 && (p - 1) * l <= u64::MAX {
        Some((((p - 1) * l) as u64, l as u64))
    } else {
        None
    }
}

/// Rows to skip and rows to take for a 1-based page.
pub fn page_window(page: Option<u64>, limit: Option<u64>) -> (r: Option<(u64, u64)>)
    ensures
        r == window_of(page, limit),
{
    let p: u64 = match page {
        Some(p) => p,
        None => 1,
    };
    let l: u64 = match limit {
        Some(l) => l,
        None => DEFAULT_PAGE_SIZE,
    };
    if p == 0 {
        return None;
    }
    match (p - 1).checked_mul(l) {
        Some(offset) => Some((offset, l)),
        None => None,
    }
}

impl TicketQuery {
    /// Rows to skip and rows to take for this query's page.
    pub fn window(&self) -> (r: Option<(u64, u64)>)
        ensures
            r == window_of(self.page, self.limit),
    {
        page_window(self.page, self.limit)
    }
}

impl ArticleQuery {
    /// Rows to skip and rows to take for this query's page.
    pub fn window(&self) -> (r: Option<(u64, u64)>)
        ensures
            r == window_of(self.page, self.limit),
    {
        page_window(self.page, self.limit)
    }
}

/// The status of a newly opened ticket.
pub open spec fn open_status() -> Seq<char> {
    seq!['O', 'p', 'e', 'n']
}

/// `o`'s value if there is one, else `d`.
pub open spec fn or_keep(o: Option<String>, d: String) -> String {
    match o {
        Some(v) => v,
        None => d,
    }
}

impl CreateTicketRequest {
    /// The record of a new ticket: open, unassigned, created and updated at `now`.
    pub fn into_ticket(self, id: u128, created_by: u128, now: i64) -> (r: TicketResponse)
        ensures
            r.id == id,
            r.subject == self.subject,
            r.description == self.description,
            r.status@ == open_status(),
            r.priority == self.priority,
            r.assigned_to is None,
            r.created_by == created_by,
            r.created_at == now,
            r.updated_at == now,
    {
        let status = String::from_str("Open");
        proof {
            reveal_strlit("Open");
        }
        TicketResponse {
            id,
            subject: self.subject,
            description: self.description,
            status,
            priority: self.priority,
            assigned_to: None,
            created_by,
            created_at: now,
            updated_at: now,
        }
    }
}

impl UpdateTicketRequest {
    /// The ticket with each field that the request gives replaced, and
    /// updated at `now`; id, author and creation time stay.
    pub fn apply(self, t: TicketResponse, now: i64) -> (r: TicketResponse)
        ensures
            r.id == t.id,
            r.subject == or_keep(self.subject, t.subject),
            r.description == or_keep(self.description, t.description),
            r.status == or_keep(self.status, t.status),
            r.priority == or_keep(self.priority, t.priority),
            r.assigned_to == (if self.assigned_to is Some { self.assigned_to } else { t.assigned_to }),
            r.created_by == t.created_by,
            r.created_at == t.created_at,
            r.updated_at == now,
    {
        TicketResponse {
            id: t.id,
            subject: match self.subject { Some(v) => v, None => t.subject },
            description: match self.description { Some(v) => v, None => t.description },
            status: match self.status { Some(v) => v, None => t.status },
            priority: match self.priority { Some(v) => v, None => t.priority },
            assigned_to: match self.assigned_to { Some(a) => Some(a), None => t.assigned_to },
            created_by: t.created_by,
            created_at: t.created_at,
            updated_at: now,
        }
    }
}

impl CreateCommentRequest {
    /// The record of a new comment on a ticket, created at `now`.
    pub fn into_comment(self, id: u128, ticket_id: u128, user_id: u128, now: i64) -> (r: CommentResponse)
        ensures
            r.id == id,
            r.ticket_id == ticket_id,
            r.user_id == user_id,
            r.content == self.content,
            r.is_internal == self.is_internal,
            r.created_at == now,
    {
        CommentResponse { id, ticket_id, user_id, content: self.content, is_internal: self.is_internal, created_at: now }
    }
}

impl CreateArticleRequest {
    /// The record of a new article, created and updated at `now`.
    pub fn into_article(self, id: u128, created_by: u128, now: i64) -> (r: ArticleResponse)
        ensures
            r.id == id,
            r.title == self.title,
            r.content == self.content,
            r.category == self.category,
            r.tags == self.tags,
            r.created_by == created_by,
            r.created_at == now,
            r.updated_at == now,
    {
        ArticleResponse {
            id,
            title: self.title,
            content: self.content,
            category: self.category,
            tags: self.tags,
            created_by,
            created_at: now,
            updated_at: now,
        }
    }
}

impl UpdateArticleRequest {
    /// The article with each field that the request gives replaced, and
    /// updated at `now`; id, author and creation time stay.
    pub fn apply(self, a: ArticleResponse, now: i64) -> (r: ArticleResponse)
        ensures
            r.id == a.id,
            r.title == or_keep(self.title, a.title),
            r.content == or_keep(self.content, a.content),
            r.category == or_keep(self.category, a.category),
            r.tags == (match self.tags { Some(t) => t, None => a.tags }),
            r.created_by == a.created_by,
            r.created_at == a.created_at,
            r.updated_at == now,
    {
        ArticleResponse {
            id: a.id,
            title: match self.title { Some(v) => v, None => a.title },
            content: match self.content { Some(v) => v, None => a.content },
            category: match self.category { Some(v) => v, None => a.category },
            tags: match self.tags { Some(t) => t, None => a.tags },
            created_by: a.created_by,
            created_at: a.created_at,
            updated_at: now,
        }
    }
}

} // verus!
