use ticket_hub::bus::WsState;
use ticket_hub::message::WsMessage;
use ticket_hub::session::{Direction, FrameOutcome, Session, SessionPhase};

fn update(ticket_id: u128, data: &str) -> WsMessage {
    WsMessage::TicketUpdate { ticket_id, data: data.to_string() }
}

#[test]
fn opened_session_is_active_and_subscribed() {
    let mut bus = WsState::new(8);
    let s = Session::open(&mut bus);
    assert_eq!(s.phase, SessionPhase::Active);
    assert_eq!(bus.subscriber_count(), 1);
}

#[test]
fn inbound_frame_reaches_other_sessions() {
    let mut bus = WsState::new(8);
    let a = Session::open(&mut bus);
    let b = Session::open(&mut bus);
    let typing = WsMessage::TypingIndicator { ticket_id: 4, user_id: 2, is_typing: true };
    assert_eq!(a.on_frame(&mut bus, Some(typing.clone())), FrameOutcome::Published);
    assert_eq!(b.next_outbound(&mut bus), Some(typing.clone()));
    assert_eq!(a.next_outbound(&mut bus), Some(typing));
    assert_eq!(b.next_outbound(&mut bus), None);
}

#[test]
fn bad_frame_is_dropped_and_session_goes_on() {
    let mut bus = WsState::new(8);
    let a = Session::open(&mut bus);
    let b = Session::open(&mut bus);
    assert_eq!(a.on_frame(&mut bus, None), FrameOutcome::Discarded);
    assert_eq!(a.phase, SessionPhase::Active);
    assert_eq!(b.next_outbound(&mut bus), None);
    assert_eq!(a.on_frame(&mut bus, Some(update(1, "ok"))), FrameOutcome::Published);
    assert_eq!(b.next_outbound(&mut bus), Some(update(1, "ok")));
}

#[test]
fn closed_inbound_cancels_outbound_and_releases() {
    let mut bus = WsState::new(8);
    let mut a = Session::open(&mut bus);
    let b = Session::open(&mut bus);
    assert_eq!(bus.subscriber_count(), 2);
    assert_eq!(a.on_loop_end(Direction::Inbound), Some(Direction::Outbound));
    assert_eq!(a.phase, SessionPhase::Closing);
    assert_eq!(a.on_loop_end(Direction::Outbound), None);
    a.close(&mut bus);
    assert_eq!(a.phase, SessionPhase::Closed);
    assert_eq!(bus.subscriber_count(), 1);
    assert_eq!(bus.publish(update(2, "after")), 1);
    assert_eq!(a.next_outbound(&mut bus), None);
    assert_eq!(bus.recv(a.subscription), None);
    assert_eq!(b.next_outbound(&mut bus), Some(update(2, "after")));
}

#[test]
fn failed_write_cancels_inbound() {
    let mut bus = WsState::new(8);
    let mut a = Session::open(&mut bus);
    assert_eq!(a.on_loop_end(Direction::Outbound), Some(Direction::Inbound));
    assert_eq!(a.on_frame(&mut bus, Some(update(1, "late"))), FrameOutcome::Ignored);
    a.close(&mut bus);
    assert_eq!(bus.subscriber_count(), 0);
}
