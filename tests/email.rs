use ticket_hub::email::{comment_notification_email, ticket_created_email, ticket_updated_email};

#[test]
fn created_mail_names_ticket_and_subject() {
    let m = ticket_created_email("T-1", "Printer on fire");
    assert_eq!(m.subject, "New Support Ticket Created");
    assert_eq!(
        m.body,
        "Your support ticket has been created successfully.\n\nTicket ID: T-1\nSubject: Printer on fire\n\nWe will get back to you soon."
    );
}

#[test]
fn updated_mail_names_new_status() {
    let m = ticket_updated_email("T-2", "Closed");
    assert_eq!(m.subject, "Support Ticket Updated");
    assert_eq!(
        m.body,
        "Your support ticket has been updated.\n\nTicket ID: T-2\nNew Status: Closed\n\nPlease check your ticket for more details."
    );
}

#[test]
fn comment_mail_quotes_the_comment() {
    let m = comment_notification_email("T-3", "Try turning it off");
    assert_eq!(m.subject, "New Comment on Your Ticket");
    assert_eq!(
        m.body,
        "A new comment has been added to your support ticket.\n\nTicket ID: T-3\nComment: Try turning it off\n\nPlease log in to view the full conversation."
    );
}
