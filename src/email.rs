//! The notification mails sent about tickets: their subject line and text.
//! Sending them is the caller's.
use vstd::prelude::*;

verus! {

/// A mail ready to be addressed and sent.
#[derive(Debug, Clone)]
pub struct EmailContent {
    pub subject: String,
    pub body: String,
}

/// `head`, then `a`, then `mid`, then `b`, then `tail`.
pub open spec fn framed(head: Seq<char>, a: Seq<char>, mid: Seq<char>, b: Seq<char>, tail: Seq<char>) -> Seq<char> {
    head + a + mid + b + tail
}

fn frame(head: &str, a: &str, mid: &str, b: &str, tail: &str) -> (r: String)
    ensures
        r@ == framed(head@, a@, mid@, b@, tail@),
{
    let mut s = String::from_str(head);
    s.append(a);
    s.append(mid);
    s.append(b);
    s.append(tail);
    s
}

/// The mail telling a customer that their ticket was opened.
pub fn ticket_created_email(ticket_id: &str, subject: &str) -> (r: EmailContent)
    ensures
        r.subject@ == "New Support Ticket Created"@,
        r.body@ == framed(
            "Your support ticket has been created successfully.\n\nTicket ID: "@,
            ticket_id@,
            "\nSubject: "@,
            subject@,
            "\n\nWe will get back to you soon."@,
        ),
{
    EmailContent {
        subject: String::from_str("New Support Ticket Created"),
        body: frame(
            "Your support ticket has been created successfully.\n\nTicket ID: ",
            ticket_id,
            "\nSubject: ",
            subject,
            "\n\nWe will get back to you soon.",
        ),
    }
}

/// The mail telling a customer that their ticket's status changed.
pub fn ticket_updated_email(ticket_id: &str, status: &str) -> (r: EmailContent)
    ensures
        r.subject@ == "Support Ticket Updated"@,
        r.body@ == framed(
            "Your support ticket has been updated.\n\nTicket ID: "@,
            ticket_id@,
            "\nNew Status: "@,
            status@,
            "\n\nPlease check your ticket for more details."@,
        ),
{
    EmailContent {
        subject: String::from_str("Support Ticket Updated"),
        body: frame(
            "Your support ticket has been updated.\n\nTicket ID: ",
            ticket_id,
            "\nNew Status: ",
            status,
            "\n\nPlease check your ticket for more details.",
        ),
    }
}

/// The mail telling a customer that their ticket has a new comment.
pub fn comment_notification_email(ticket_id: &str, comment: &str) -> (r: EmailContent)
    ensures
        r.subject@ == "New Comment on Your Ticket"@,
        r.body@ == framed(
            "A new comment has been added to your support ticket.\n\nTicket ID: "@,
            ticket_id@,
            "\nComment: "@,
            comment@,
            "\n\nPlease log in to view the full conversation."@,
        ),
{
    EmailContent {
        subject: String::from_str("New Comment on Your Ticket"),
        body: frame(
            "A new comment has been added to your support ticket.\n\nTicket ID: ",
            ticket_id,
            "\nComment: ",
            comment,
            "\n\nPlease log in to view the full conversation.",
        ),
    }
}

} // verus!
