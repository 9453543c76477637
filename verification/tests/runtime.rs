use std::task::Waker;

use nitrogql::loader::logger::StringLogger;
use nitrogql::loader::tasks::Tasks;
use nitrogql::runtime::ticket::{TicketId, TicketRegistry};

fn waker() -> Waker {
    Waker::noop().clone()
}

#[test]
fn issued_tickets_have_distinct_ids() {
    let mut registry = TicketRegistry::new();
    let a = registry.issue();
    let b = registry.issue();
    assert_eq!(a.id, TicketId(0));
    assert_eq!(b.id, TicketId(1));
    assert_ne!(a.id, b.id);
    assert_eq!(registry.next_id, 2);
}

#[test]
fn take_after_receive_gives_the_result() {
    let mut registry = TicketRegistry::new();
    let t = registry.issue();
    registry.register_ticket(t.id, waker());
    assert_eq!(registry.take_result(t.id), None);
    registry.receive_result(t.id, "schema".to_string());
    assert_eq!(registry.take_result(t.id), Some("schema".to_string()));
    assert!(registry.string_tickets.is_empty());
}

#[test]
fn poll_waits_until_a_result_arrives() {
    let mut registry = TicketRegistry::new();
    let t = registry.issue();
    registry.register_ticket(t.id, waker());
    assert_eq!(registry.poll_ticket(t.id, waker()), None);
    assert_eq!(registry.string_tickets.len(), 1);
    registry.receive_result(t.id, "done".to_string());
    assert_eq!(registry.poll_ticket(t.id, waker()), Some("done".to_string()));
    assert_eq!(registry.string_tickets.len(), 0);
}

#[test]
fn registering_again_drops_an_arrived_result() {
    let mut registry = TicketRegistry::new();
    let t = registry.issue();
    registry.register_ticket(t.id, waker());
    registry.receive_result(t.id, "early".to_string());
    registry.register_ticket(t.id, waker());
    assert_eq!(registry.take_result(t.id), None);
}

#[test]
fn tasks_are_found_under_their_ids() {
    let mut tasks: Tasks<&str> = Tasks::new();
    let a = tasks.add_task("a");
    let b = tasks.add_task("b");
    assert_eq!((a, b), (1, 2));
    assert_eq!(tasks.get_task(a), Some(&"a"));
    assert_eq!(tasks.get_task(b), Some(&"b"));
    assert_eq!(tasks.get_task(3), None);
    assert_eq!(tasks.remove_task(a), Some("a"));
    assert_eq!(tasks.get_task(a), None);
    assert_eq!(tasks.remove_task(a), None);
}

#[test]
fn log_is_taken_and_cleared() {
    let mut logger = StringLogger::new();
    logger.log("INFO", "loading");
    logger.log("WARN", "slow");
    assert_eq!(logger.take_log(), "INFO - loading\nWARN - slow\n");
    assert_eq!(logger.take_log(), "");
}

#[test]
fn polling_a_fresh_ticket_makes_it_wait() {
    let mut registry = TicketRegistry::new();
    let t = registry.issue();
    assert_eq!(registry.poll_ticket(t.id, waker()), None);
    assert_eq!(registry.string_tickets.len(), 1);
    registry.receive_result(t.id, "late".to_string());
    assert_eq!(registry.poll_ticket(t.id, waker()), Some("late".to_string()));
    assert!(registry.string_tickets.is_empty());
}
