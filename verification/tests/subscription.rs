use skal::host::HostError;
use skal::subscription::{
    leak_diagnostic, registered_text, SubscriptionAction, SubscriptionError, SubscriptionEvent,
    SubscriptionHandle,
};

fn failure(code: i32, message: &str) -> HostError {
    HostError { code, message: message.to_string() }
}

/// Runs the events from a fresh handle and collects the actions.
fn run(events: Vec<SubscriptionEvent>) -> (SubscriptionHandle, Vec<SubscriptionAction>) {
    let mut handle = SubscriptionHandle::new();
    let mut actions = Vec::new();
    for event in events {
        let (next, action) = handle.step(event);
        handle = next;
        actions.push(action);
    }
    (handle, actions)
}

#[test]
fn fresh_handle_holds_no_token() {
    assert_eq!(SubscriptionHandle::new(), SubscriptionHandle::Unsubscribed);
    assert_eq!(SubscriptionHandle::new().token(), None);
}

#[test]
fn subscribe_then_release_registers_and_unregisters_once() {
    let (handle, actions) = run(vec![
        SubscriptionEvent::Subscribe,
        SubscriptionEvent::Registered { token: 77 },
        SubscriptionEvent::Release,
        SubscriptionEvent::Unregistered,
    ]);
    assert_eq!(
        actions,
        vec![
            SubscriptionAction::Register,
            SubscriptionAction::Idle,
            SubscriptionAction::Unregister { token: 77 },
            SubscriptionAction::Idle,
        ]
    );
    assert_eq!(handle, SubscriptionHandle::Released);
    assert_eq!(handle.token(), None);
}

#[test]
fn registered_handle_holds_the_hosts_token() {
    let (handle, _) = run(vec![
        SubscriptionEvent::Subscribe,
        SubscriptionEvent::Registered { token: -5 },
    ]);
    assert_eq!(handle, SubscriptionHandle::Active { token: -5 });
    assert_eq!(handle.token(), Some(-5));
}

#[test]
fn missing_listener_is_no_listener() {
    let (handle, actions) = run(vec![
        SubscriptionEvent::Subscribe,
        SubscriptionEvent::ListenerUnavailable(failure(-3, "no listener")),
    ]);
    assert_eq!(
        actions[1],
        SubscriptionAction::Fail(SubscriptionError::NoListener(failure(-3, "no listener")))
    );
    assert_eq!(handle, SubscriptionHandle::Failed);
}

#[test]
fn refused_registration_is_registration_failed() {
    let (handle, actions) = run(vec![
        SubscriptionEvent::Subscribe,
        SubscriptionEvent::Refused(failure(-4, "refused")),
    ]);
    assert_eq!(
        actions[1],
        SubscriptionAction::Fail(SubscriptionError::RegistrationFailed(failure(-4, "refused")))
    );
    assert_eq!(handle, SubscriptionHandle::Failed);
}

#[test]
fn second_subscribe_registers_nothing() {
    let (handle, actions) = run(vec![
        SubscriptionEvent::Subscribe,
        SubscriptionEvent::Subscribe,
        SubscriptionEvent::Registered { token: 1 },
        SubscriptionEvent::Subscribe,
        SubscriptionEvent::Registered { token: 2 },
    ]);
    assert_eq!(
        actions,
        vec![
            SubscriptionAction::Register,
            SubscriptionAction::Idle,
            SubscriptionAction::Idle,
            SubscriptionAction::Idle,
            SubscriptionAction::Idle,
        ]
    );
    assert_eq!(handle, SubscriptionHandle::Active { token: 1 });
}

#[test]
fn second_release_unregisters_nothing() {
    let (handle, actions) = run(vec![
        SubscriptionEvent::Subscribe,
        SubscriptionEvent::Registered { token: 9 },
        SubscriptionEvent::Release,
        SubscriptionEvent::Release,
        SubscriptionEvent::Unregistered,
        SubscriptionEvent::Release,
    ]);
    assert_eq!(
        actions,
        vec![
            SubscriptionAction::Register,
            SubscriptionAction::Idle,
            SubscriptionAction::Unregister { token: 9 },
            SubscriptionAction::Idle,
            SubscriptionAction::Idle,
            SubscriptionAction::Idle,
        ]
    );
    assert_eq!(handle, SubscriptionHandle::Released);
}

#[test]
fn release_without_subscription_does_nothing() {
    let (handle, actions) = run(vec![SubscriptionEvent::Release]);
    assert_eq!(actions, vec![SubscriptionAction::Idle]);
    assert_eq!(handle, SubscriptionHandle::Unsubscribed);
}

#[test]
fn failed_release_reports_the_leak() {
    let (handle, actions) = run(vec![
        SubscriptionEvent::Subscribe,
        SubscriptionEvent::Registered { token: 12 },
        SubscriptionEvent::Release,
        SubscriptionEvent::Refused(failure(-8, "busy")),
    ]);
    assert_eq!(
        actions[3],
        SubscriptionAction::ReportLeak { token: 12, cause: failure(-8, "busy") }
    );
    assert_eq!(handle, SubscriptionHandle::Failed);

    let (handle, actions) = run(vec![
        SubscriptionEvent::Subscribe,
        SubscriptionEvent::Registered { token: 13 },
        SubscriptionEvent::Release,
        SubscriptionEvent::ListenerUnavailable(failure(-9, "gone")),
    ]);
    assert_eq!(
        actions[3],
        SubscriptionAction::ReportLeak { token: 13, cause: failure(-9, "gone") }
    );
    assert_eq!(handle, SubscriptionHandle::Failed);
}

#[test]
fn ended_handle_ignores_what_follows() {
    let (handle, actions) = run(vec![
        SubscriptionEvent::Subscribe,
        SubscriptionEvent::Refused(failure(-4, "refused")),
        SubscriptionEvent::Subscribe,
        SubscriptionEvent::Registered { token: 3 },
        SubscriptionEvent::Release,
    ]);
    assert_eq!(actions[2], SubscriptionAction::Idle);
    assert_eq!(actions[3], SubscriptionAction::Idle);
    assert_eq!(actions[4], SubscriptionAction::Idle);
    assert_eq!(handle, SubscriptionHandle::Failed);
}

#[test]
fn answers_out_of_turn_change_nothing() {
    let (handle, actions) = run(vec![
        SubscriptionEvent::Registered { token: 3 },
        SubscriptionEvent::Unregistered,
        SubscriptionEvent::Refused(failure(1, "x")),
    ]);
    assert_eq!(
        actions,
        vec![SubscriptionAction::Idle, SubscriptionAction::Idle, SubscriptionAction::Idle]
    );
    assert_eq!(handle, SubscriptionHandle::Unsubscribed);
}

#[test]
fn leak_is_told_with_its_cause() {
    assert_eq!(
        leak_diagnostic(&failure(-8, "busy")),
        "Warning: could not unregister the notification handler: busy"
    );
    assert_eq!(
        leak_diagnostic(&failure(0, "")),
        "Warning: could not unregister the notification handler: "
    );
}

#[test]
fn registration_is_confirmed() {
    assert_eq!(registered_text(), "Listener registered");
}

#[test]
fn subscribe_with_a_token_is_active() {
    assert_eq!(
        SubscriptionHandle::subscribe(SubscriptionEvent::Registered { token: 31 }),
        Ok(SubscriptionHandle::Active { token: 31 })
    );
}

#[test]
fn subscribe_without_listener_is_no_listener() {
    assert_eq!(
        SubscriptionHandle::subscribe(SubscriptionEvent::ListenerUnavailable(failure(-3, "none"))),
        Err(SubscriptionError::NoListener(failure(-3, "none")))
    );
}

#[test]
fn subscribe_after_refusal_is_registration_failed() {
    assert_eq!(
        SubscriptionHandle::subscribe(SubscriptionEvent::Refused(failure(-4, "refused"))),
        Err(SubscriptionError::RegistrationFailed(failure(-4, "refused")))
    );
}

#[test]
fn subscribe_without_an_answer_keeps_waiting() {
    assert_eq!(
        SubscriptionHandle::subscribe(SubscriptionEvent::Unregistered),
        Ok(SubscriptionHandle::Registering)
    );
    assert_eq!(
        SubscriptionHandle::subscribe(SubscriptionEvent::Release),
        Ok(SubscriptionHandle::Registering)
    );
}
