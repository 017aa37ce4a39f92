use ticket_hub::requests::{
    page_window, ArticleQuery, CreateArticleRequest, CreateCommentRequest, CreateTicketRequest, TicketQuery,
    UpdateArticleRequest, UpdateTicketRequest,
};

#[test]
fn default_page_is_the_first_fifty() {
    assert_eq!(page_window(None, None), Some((0, 50)));
    assert_eq!(page_window(Some(3), Some(20)), Some((40, 20)));
    assert_eq!(page_window(Some(2), None), Some((50, 50)));
}

#[test]
fn page_zero_and_huge_offsets_have_no_window() {
    assert_eq!(page_window(Some(0), Some(10)), None);
    assert_eq!(page_window(Some(u64::MAX), Some(2)), None);
    assert_eq!(page_window(Some(u64::MAX), Some(1)), Some((u64::MAX - 1, 1)));
}

#[test]
fn queries_use_their_page() {
    let q = ArticleQuery { category: None, search: Some("vpn".to_string()), page: Some(2), limit: Some(5) };
    assert_eq!(q.window(), Some((5, 5)));
    let t = TicketQuery { status: None, priority: None, assigned_to: None, created_by: Some(1), page: None, limit: Some(10) };
    assert_eq!(t.window(), Some((0, 10)));
}

#[test]
fn new_ticket_is_open_and_unassigned() {
    let req = CreateTicketRequest { subject: "s".into(), description: "d".into(), priority: "High".into() };
    let t = req.into_ticket(1, 2, 99);
    assert_eq!(t.status, "Open");
    assert_eq!(t.assigned_to, None);
    assert_eq!((t.id, t.created_by, t.created_at, t.updated_at), (1, 2, 99, 99));
    assert_eq!(t.priority, "High");
}

#[test]
fn ticket_update_replaces_only_given_fields() {
    let t = CreateTicketRequest { subject: "s".into(), description: "d".into(), priority: "Low".into() }
        .into_ticket(1, 2, 10);
    let u = UpdateTicketRequest {
        subject: None,
        description: Some("new".into()),
        status: Some("Closed".into()),
        priority: None,
        assigned_to: Some(7),
    };
    let t2 = u.apply(t, 20);
    assert_eq!(t2.subject, "s");
    assert_eq!(t2.description, "new");
    assert_eq!(t2.status, "Closed");
    assert_eq!(t2.priority, "Low");
    assert_eq!(t2.assigned_to, Some(7));
    assert_eq!((t2.created_at, t2.updated_at), (10, 20));
}

#[test]
fn comment_and_article_records() {
    let c = CreateCommentRequest { content: "hello".into(), is_internal: true }.into_comment(5, 6, 7, 8);
    assert_eq!((c.id, c.ticket_id, c.user_id, c.created_at), (5, 6, 7, 8));
    assert!(c.is_internal);
    let a = CreateArticleRequest {
        title: "t".into(),
        content: "c".into(),
        category: "net".into(),
        tags: vec!["vpn".into(), "wifi".into()],
    }
    .into_article(1, 2, 3);
    assert_eq!(a.tags, vec!["vpn".to_string(), "wifi".to_string()]);
    let a2 = UpdateArticleRequest { title: Some("T".into()), content: None, category: None, tags: Some(vec![]) }.apply(a, 4);
    assert_eq!(a2.title, "T");
    assert_eq!(a2.content, "c");
    assert!(a2.tags.is_empty());
    assert_eq!((a2.created_at, a2.updated_at), (3, 4));
}
