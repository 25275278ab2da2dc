//! The life of one subscription to notification changes: asked for,
//! registered with the host under a token, and given back.
//!
//! The host is not called from here. Each step takes what happened and says
//! what to ask of the host next; whoever drives the handle makes the call
//! and comes back with the answer.

use crate::host::HostError;
use vstd::prelude::*;
use vstd::string::*;

verus! {

/// Why a subscription did not come about.
#[derive(Clone, Debug, PartialEq, Eq)]
pub enum SubscriptionError {
    /// The host has no listener to register with.
    NoListener(HostError),
    /// The host refused to register the handler.
    RegistrationFailed(HostError),
}

/// What happened to a subscription.
#[derive(Debug, PartialEq, Eq)]
pub enum SubscriptionEvent {
    /// The owner asks for change events.
    Subscribe,
    /// The host registered the handler under `token`.
    Registered { token: i64 },
    /// The host revoked the token.
    Unregistered,
    /// The host has no listener to hand out.
    ListenerUnavailable(HostError),
    /// The host found the listener and refused what was asked of it.
    Refused(HostError),
    /// The owner lets go of the subscription.
    Release,
}

/// What to do next for a subscription.
#[derive(Debug, PartialEq, Eq)]
pub enum SubscriptionAction {
    /// Nothing.
    Idle,
    /// Get the host's current listener and register the change handler with it.
    Register,
    /// Get the host's current listener and revoke `token` with it.
    Unregister { token: i64 },
    /// Give up: the subscription did not come about.
    Fail(SubscriptionError),
    /// Tell that `token` could not be revoked and stays with the host.
    ReportLeak { token: i64, cause: HostError },
}

/// A subscription and where it stands. It holds one token at most, from
/// the host's registration to the release.
#[derive(Debug, PartialEq, Eq)]
pub enum SubscriptionHandle {
    /// Nothing was asked of the host yet.
    Unsubscribed,
    /// The host was asked to register the handler.
    Registering,
    /// The handler is registered under `token`.
    Active { token: i64 },
    /// The host was asked to revoke `token`.
    Releasing { token: i64 },
    /// The token was given back.
    Released,
    /// The subscription did not come about, or its token could not be given back.
    Failed,
}

impl SubscriptionAction {
    /// Whether the action is a call to the host.
    pub open spec fn is_host_call(self) -> bool {
        self is Register || self is Unregister
    }
}

impl SubscriptionHandle {
    /// The handle and the action that follow `event`. An event that does not
    /// fit where the handle stands changes nothing.
    pub open spec fn next(self, event: SubscriptionEvent) -> (SubscriptionHandle, SubscriptionAction) {
        match (self, event) {
            (SubscriptionHandle::Unsubscribed, SubscriptionEvent::Subscribe) => (
                SubscriptionHandle::Registering,
                SubscriptionAction::Register,
            ),
            (SubscriptionHandle::Registering, SubscriptionEvent::Registered { token }) => (
                SubscriptionHandle::Active { token },
                SubscriptionAction::Idle,
            ),
            (SubscriptionHandle::Registering, SubscriptionEvent::ListenerUnavailable(cause)) => (
                SubscriptionHandle::Failed,
                SubscriptionAction::Fail(SubscriptionError::NoListener(cause)),
            ),
            (SubscriptionHandle::Registering, SubscriptionEvent::Refused(cause)) => (
                SubscriptionHandle::Failed,
                SubscriptionAction::Fail(SubscriptionError::RegistrationFailed(cause)),
            ),
            (SubscriptionHandle::Active { token }, SubscriptionEvent::Release) => (
                SubscriptionHandle::Releasing { token },
                SubscriptionAction::Unregister { token },
            ),
            (SubscriptionHandle::Releasing { token }, SubscriptionEvent::Unregistered) => (
                SubscriptionHandle::Released,
                SubscriptionAction::Idle,
            ),
            (SubscriptionHandle::Releasing { token }, SubscriptionEvent::ListenerUnavailable(cause)) => (
                SubscriptionHandle::Failed,
                SubscriptionAction::ReportLeak { token, cause },
            ),
            (SubscriptionHandle::Releasing { token }, SubscriptionEvent::Refused(cause)) => (
                SubscriptionHandle::Failed,
                SubscriptionAction::ReportLeak { token, cause },
            ),
            (handle, _) => (handle, SubscriptionAction::Idle),
        }
    }

    /// The calls to the host that a run of events brings about, in their order.
    pub open spec fn host_calls(self, events: Seq<SubscriptionEvent>) -> Seq<SubscriptionAction>
        decreases events.len(),
    {
        if events.len() == 0 {
            Seq::empty()
        } else {
            let (handle, action) = self.next(events[0]);
            let rest = handle.host_calls(events.skip(1));
            if action.is_host_call() {
                seq![action] + rest
            } else {
                rest
            }
        }
    }

    /// Where the handle stands after a run of events.
    pub open spec fn after(self, events: Seq<SubscriptionEvent>) -> SubscriptionHandle
        decreases events.len(),
    {
        if events.len() == 0 {
            self
        } else {
            self.next(events[0]).0.after(events.skip(1))
        }
    }

    /// The token that the handle holds.
    pub open spec fn held_token(self) -> Option<i64> {
        match self {
            SubscriptionHandle::Active { token } => Some(token),
            SubscriptionHandle::Releasing { token } => Some(token),
            _ => None,
        }
    }

    /// A handle that has asked nothing of the host.
    pub fn new() -> (r: SubscriptionHandle)
        ensures
            r == SubscriptionHandle::Unsubscribed,
    {
        SubscriptionHandle::Unsubscribed
    }

    /// The token under which the handler is registered, while the handle holds one.
    pub fn token(&self) -> (r: Option<i64>)
        ensures
            r == self.held_token(),
    {
        match self {
            SubscriptionHandle::Active { token } => Some(*token),
            SubscriptionHandle::Releasing { token } => Some(*token),
            _ => None,
        }
    }

    /// Subscribes with the host's answer to the registration of the handler:
    /// a fresh handle asks for the registration and takes in `answer`. With a
    /// token the subscription is active; without a listener it fails with
    /// `NoListener`, after a refusal with `RegistrationFailed`. Anything that
    /// is no answer to the registration leaves the handle waiting for one.
    pub fn subscribe(answer: SubscriptionEvent) -> (r: Result<
        SubscriptionHandle,
        SubscriptionError,
    >)
        ensures
            r == match answer {
                SubscriptionEvent::Registered { token } => Ok::<
                    SubscriptionHandle,
                    SubscriptionError,
                >(SubscriptionHandle::Active { token }),
                SubscriptionEvent::ListenerUnavailable(cause) => Err::<
                    SubscriptionHandle,
                    SubscriptionError,
                >(SubscriptionError::NoListener(cause)),
                SubscriptionEvent::Refused(cause) => Err::<SubscriptionHandle, SubscriptionError>(
                    SubscriptionError::RegistrationFailed(cause),
                ),
                _ => Ok::<SubscriptionHandle, SubscriptionError>(SubscriptionHandle::Registering),
            },
            r matches Ok(handle) ==> handle == SubscriptionHandle::Unsubscribed.after(
                seq![SubscriptionEvent::Subscribe, answer],
            ),
    {
        let (asked, _) = SubscriptionHandle::new().step(SubscriptionEvent::Subscribe);
        let ghost events = seq![SubscriptionEvent::Subscribe, answer];
        proof {
            let rest = events.skip(1);
            assert(rest[0] == answer);
            assert(rest.skip(1).len() == 0);
            assert(SubscriptionHandle::Unsubscribed.after(events)
                == SubscriptionHandle::Registering.after(rest));
            assert(SubscriptionHandle::Registering.after(rest)
                == SubscriptionHandle::Registering.next(answer).0.after(rest.skip(1)));
        }
        match asked.step(answer) {
            (_, SubscriptionAction::Fail(e)) => Err(e),
            (handle, _) => Ok(handle),
        }
    }

    /// Takes in `event` and says what to do next.
    pub fn step(self, event: SubscriptionEvent) -> (r: (SubscriptionHandle, SubscriptionAction))
        ensures
            r == self.next(event),
    {
        match self {
            SubscriptionHandle::Unsubscribed => match event {
                SubscriptionEvent::Subscribe => (
                    SubscriptionHandle::Registering,
                    SubscriptionAction::Register,
                ),
                _ => (SubscriptionHandle::Unsubscribed, SubscriptionAction::Idle),
            },
            SubscriptionHandle::Registering => match event {
                SubscriptionEvent::Registered { token } => (
                    SubscriptionHandle::Active { token },
                    SubscriptionAction::Idle,
                ),
                SubscriptionEvent::ListenerUnavailable(cause) => (
                    SubscriptionHandle::Failed,
                    SubscriptionAction::Fail(SubscriptionError::NoListener(cause)),
                ),
                SubscriptionEvent::Refused(cause) => (
                    SubscriptionHandle::Failed,
                    SubscriptionAction::Fail(SubscriptionError::RegistrationFailed(cause)),
                ),
                _ => (SubscriptionHandle::Registering, SubscriptionAction::Idle),
            },
            SubscriptionHandle::Active { token } => match event {
                SubscriptionEvent::Release => (
                    SubscriptionHandle::Releasing { token },
                    SubscriptionAction::Unregister { token },
                ),
                _ => (SubscriptionHandle::Active { token }, SubscriptionAction::Idle),
            },
            SubscriptionHandle::Releasing { token } => match event {
                SubscriptionEvent::Unregistered => (
                    SubscriptionHandle::Released,
                    SubscriptionAction::Idle,
                ),
                SubscriptionEvent::ListenerUnavailable(cause) => (
                    SubscriptionHandle::Failed,
                    SubscriptionAction::ReportLeak { token, cause },
                ),
                SubscriptionEvent::Refused(cause) => (
                    SubscriptionHandle::Failed,
                    SubscriptionAction::ReportLeak { token, cause },
                ),
                _ => (SubscriptionHandle::Releasing { token }, SubscriptionAction::Idle),
            },
            SubscriptionHandle::Released => (SubscriptionHandle::Released, SubscriptionAction::Idle),
            SubscriptionHandle::Failed => (SubscriptionHandle::Failed, SubscriptionAction::Idle),
        }
    }
}

/// The text that tells that a token could not be revoked.
pub open spec fn leak_text(cause: HostError) -> Seq<char> {
    "Warning: could not unregister the notification handler: "@ + cause.message@
}

/// Writes the diagnostic for a token that could not be revoked.
pub fn leak_diagnostic(cause: &HostError) -> (r: String)
    ensures
        r@ == leak_text(*cause),
{
    let mut text = String::from_str("Warning: could not unregister the notification handler: ");
    text.append(cause.message.as_str());
    text
}

/// The text that confirms a registration on the console.
pub fn registered_text() -> (r: &'static str)
    ensures
        r@ == "Listener registered"@,
{
    "Listener registered"
}

/// Subscribing and then releasing makes two calls to the host: one to
/// register and then one to unregister, with the token that the host gave
/// for the registration. After them the handle holds no token.
pub proof fn lemma_subscribe_then_release(token: i64)
    ensures
        ({
            let events = seq![
                SubscriptionEvent::Subscribe,
                SubscriptionEvent::Registered { token },
                SubscriptionEvent::Release,
                SubscriptionEvent::Unregistered,
            ];
            &&& SubscriptionHandle::Unsubscribed.host_calls(events) == seq![
                SubscriptionAction::Register,
                SubscriptionAction::Unregister { token },
            ]
            &&& SubscriptionHandle::Unsubscribed.after(events) == SubscriptionHandle::Released
        }),
{
    let events = seq![
        SubscriptionEvent::Subscribe,
        SubscriptionEvent::Registered { token },
        SubscriptionEvent::Release,
        SubscriptionEvent::Unregistered,
    ];
    let e1 = events.skip(1);
    let e2 = e1.skip(1);
    let e3 = e2.skip(1);
    let e4 = e3.skip(1);
    assert(e4.len() == 0);
    assert(SubscriptionHandle::Released.host_calls(e4) =~= Seq::empty());
    assert((SubscriptionHandle::Releasing { token }).host_calls(e3) =~= Seq::empty());
    assert((SubscriptionHandle::Active { token }).host_calls(e2) =~= seq![
        SubscriptionAction::Unregister { token },
    ]);
    assert(SubscriptionHandle::Registering.host_calls(e1) =~= seq![
        SubscriptionAction::Unregister { token },
    ]);
    assert(SubscriptionHandle::Unsubscribed.host_calls(events) =~= seq![
        SubscriptionAction::Register,
        SubscriptionAction::Unregister { token },
    ]);
    assert(SubscriptionHandle::Released.after(e4) == SubscriptionHandle::Released);
    assert((SubscriptionHandle::Releasing { token }).after(e3) == SubscriptionHandle::Released);
    assert((SubscriptionHandle::Active { token }).after(e2) == SubscriptionHandle::Released);
    assert(SubscriptionHandle::Registering.after(e1) == SubscriptionHandle::Released);
}

/// Whatever happens to a handle, from where it stands it calls the host
/// only as far as its life still allows: a fresh handle registers once at
/// most and then unregisters once at most; a handle that holds a token
/// unregisters that token once at most; a handle that has ended calls no more.
/// A token that is unregistered is one that the host gave for the
/// registration.
pub proof fn lemma_host_calls(handle: SubscriptionHandle, events: Seq<SubscriptionEvent>)
    ensures
        ({
            let calls = handle.host_calls(events);
            match handle {
                SubscriptionHandle::Unsubscribed => {
                    ||| calls == Seq::<SubscriptionAction>::empty()
                    ||| calls == seq![SubscriptionAction::Register]
                    ||| exists|i: int|
                        0 <= i < events.len() && (#[trigger] events[i]) is Registered && calls == seq![
                            SubscriptionAction::Register,
                            SubscriptionAction::Unregister { token: events[i]->token },
                        ]
                },
                SubscriptionHandle::Registering => {
                    ||| calls == Seq::<SubscriptionAction>::empty()
                    ||| exists|i: int|
                        0 <= i < events.len() && (#[trigger] events[i]) is Registered && calls == seq![
                            SubscriptionAction::Unregister { token: events[i]->token },
                        ]
                },
                SubscriptionHandle::Active { token } => {
                    ||| calls == Seq::<SubscriptionAction>::empty()
                    ||| calls == seq![SubscriptionAction::Unregister { token }]
                },
                _ => calls == Seq::<SubscriptionAction>::empty(),
            }
        }),
    decreases events.len(),
{
    if events.len() > 0 {
        let (following, action) = handle.next(events[0]);
        let rest = events.skip(1);
        lemma_host_calls(following, rest);
        let calls = handle.host_calls(events);
        let later = following.host_calls(rest);
        assert forall|i: int| 0 <= i < rest.len() implies rest[i] == events[i + 1] by {}
        match handle {
            SubscriptionHandle::Unsubscribed => {
                if action is Register {
                    assert(calls =~= seq![SubscriptionAction::Register] + later);
                    if later.len() > 0 {
                        let i: int = choose|i: int|
                            0 <= i < rest.len() && (#[trigger] rest[i]) is Registered && later == seq![
                                SubscriptionAction::Unregister { token: rest[i]->token },
                            ];
                        assert(events[i + 1] is Registered);
                        assert(calls =~= seq![
                            SubscriptionAction::Register,
                            SubscriptionAction::Unregister { token: events[i + 1]->token },
                        ]);
                    } else {
                        assert(calls =~= seq![SubscriptionAction::Register]);
                    }
                } else {
                    if later.len() == 2 {
                        let i: int = choose|i: int|
                            0 <= i < rest.len() && (#[trigger] rest[i]) is Registered && later == seq![
                                SubscriptionAction::Register,
                                SubscriptionAction::Unregister { token: rest[i]->token },
                            ];
                        assert(events[i + 1] is Registered);
                    }
                }
            },
            SubscriptionHandle::Registering => {
                match following {
                    SubscriptionHandle::Active { token } => {
                        assert(events[0] is Registered);
                        assert(events[0]->token == token);
                    },
                    SubscriptionHandle::Registering => {
                        if later.len() > 0 {
                            let i: int = choose|i: int|
                                0 <= i < rest.len() && (#[trigger] rest[i]) is Registered && later
                                    == seq![SubscriptionAction::Unregister { token: rest[i]->token }];
                            assert(events[i + 1] is Registered);
                        }
                    },
                    _ => {},
                }
            },
            SubscriptionHandle::Active { token } => {
                if action is Unregister {
                    assert(calls =~= seq![SubscriptionAction::Unregister { token }]);
                }
            },
            _ => {},
        }
    }
}

} // verus!
