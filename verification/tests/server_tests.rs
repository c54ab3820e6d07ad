use fcgi_bridge::guard::{InheritedSlot, StartupError};
use fcgi_bridge::server::{accept_step, connection_step, serve_step, AcceptAction, AcceptEvent, ConnectionAction, ConnectionEvent, ServeDecision, SlotPool};

#[test]
fn pool_never_leases_beyond_capacity() {
    // Limit 2: two connections get slots, the third must wait.
    let mut pool = SlotPool::new(2);
    assert!(pool.try_acquire());
    assert!(pool.try_acquire());
    assert!(!pool.try_acquire());
    assert_eq!(pool.outstanding, 2);
    // One connection finishes; the waiter gets its slot.
    pool.release();
    assert!(pool.try_acquire());
    assert!(!pool.try_acquire());
}

#[test]
fn accept_failure_retries_and_success_spawns() {
    assert!(matches!(accept_step(AcceptEvent::Connection), AcceptAction::SpawnServer));
    assert!(matches!(accept_step(AcceptEvent::Failure), AcceptAction::RetryAccept));
}

#[test]
fn cancellation_stops_intake_and_drains() {
    assert!(matches!(serve_step(true), ServeDecision::DrainAndReturn));
    assert!(matches!(serve_step(false), ServeDecision::KeepAccepting));
}

#[test]
fn connection_events_end_only_their_own_task() {
    assert!(matches!(
        connection_step(ConnectionEvent::RequestArrived),
        ConnectionAction::DispatchRequest
    ));
    assert!(matches!(connection_step(ConnectionEvent::Closed), ConnectionAction::EndTask));
    assert!(matches!(connection_step(ConnectionEvent::TransportError), ConnectionAction::EndTask));
}

#[test]
fn non_socket_handle_fails_before_any_accept() {
    let slot = InheritedSlot::new();
    let adopted = slot.adopt(false);
    assert!(matches!(adopted, Err(StartupError::NotASocket)));
}

#[test]
fn socket_handle_is_adopted_exactly_once() {
    let slot = InheritedSlot::new();
    assert!(slot.adopt(true).is_ok());
    // The slot was consumed by the adoption: the type system itself forbids
    // a second adoption, which is the adopt-once discipline.
}

#[test]
fn startup_diagnostic_is_the_fixed_text() {
    let d = fcgi_bridge::guard::startup_diagnostic();
    assert!(d.starts_with("Fatal error: wasn't executed by a compatible FastCGI client!"));
    assert!(d.contains("file descriptor 0"));
}
