//! From one notification-changed event to the line that reports it.

use crate::clock::{
    clock_at, digit_char, lemma_clock_at, lemma_zero_padded_two_digits, meridiem_text,
    push_zero_padded, representable, second_of_day, zero_padded, ClockTime,
};
use crate::host::{hresult_from_win32, hresult_of_win32, HostError};
use vstd::prelude::*;
use vstd::string::*;

verus! {

/// What happened to a notification.
#[derive(Clone, Copy, Debug, PartialEq, Eq, Structural)]
pub enum ChangeKind {
    Added,
    Removed,
    /// A kind that this library does not know.
    Unknown,
}

impl ChangeKind {
    /// The kind that the host's number stands for: 0 is `Added`, 1 is `Removed`.
    pub open spec fn of_raw(raw: i32) -> ChangeKind {
        if raw == 0 {
            ChangeKind::Added
        } else if raw == 1 {
            ChangeKind::Removed
        } else {
            ChangeKind::Unknown
        }
    }

    /// Reads the host's number for a kind of change.
    pub fn from_raw(raw: i32) -> (r: ChangeKind)
        ensures
            r == ChangeKind::of_raw(raw),
    {
        match raw {
            0 => ChangeKind::Added,
            1 => ChangeKind::Removed,
            _ => ChangeKind::Unknown,
        }
    }
}

/// What the host passes along with a change: the kind of change and the
/// id of the notification, each as the host answered when asked for it.
#[derive(Debug, PartialEq, Eq)]
pub struct ChangeEventArgs {
    pub kind: Result<ChangeKind, HostError>,
    pub notification_id: Result<u32, HostError>,
}

impl ChangeEventArgs {
    /// The id that handling this change resolves: that of an added
    /// notification, where the host gave it. Of any other change no
    /// notification is looked at.
    pub open spec fn needed_id(self) -> Option<u32> {
        match (self.kind, self.notification_id) {
            (Ok(ChangeKind::Added), Ok(id)) => Some(id),
            _ => None,
        }
    }

    /// The id of the notification that the listener has to resolve before
    /// this change is handled, if it has to resolve one.
    pub fn notification_to_resolve(&self) -> (r: Option<u32>)
        ensures
            r == self.needed_id(),
    {
        match &self.kind {
            Ok(ChangeKind::Added) => match &self.notification_id {
                Ok(id) => Some(*id),
                Err(_) => None,
            },
            _ => None,
        }
    }
}

/// A notification as the host holds it. Each field is what the host answered
/// when asked for it.
#[derive(Debug, PartialEq, Eq)]
pub struct UserNotification {
    pub id: u32,
    /// The display name of the application that raised the notification.
    pub app_name: Result<String, HostError>,
    /// When the notification was raised, in seconds since the epoch.
    pub creation_time: Result<i64, HostError>,
    /// The text elements of the generic toast binding, in their order; an
    /// element is an error where the host could not give its text.
    pub text_elements: Result<Vec<Result<String, HostError>>, HostError>,
}

/// The listener that sent a change: the notifications that it can resolve.
#[derive(Debug, PartialEq, Eq)]
pub struct ListenerRef {
    pub notifications: Vec<UserNotification>,
}

/// Why an event was passed over without a line.
#[derive(Clone, Copy, Debug, PartialEq, Eq, Structural)]
pub enum SkipReason {
    /// The sender or the arguments were absent.
    MissingParameters,
    /// The notification was removed.
    Removed,
    /// The kind of change could not be read or is not known.
    UnknownKind,
    /// The listener could not resolve the notification.
    Unresolved,
}

/// What handling an event produced.
#[derive(Clone, Debug, PartialEq, Eq)]
pub enum Report {
    /// The line that reports an added notification.
    Notification(String),
    /// Nothing to report.
    Skipped(SkipReason),
}

/// A failure while reading a notification that the listener had resolved.
#[derive(Clone, Debug, PartialEq, Eq)]
pub enum HandlerError {
    /// The host failed to give a field.
    Host(HostError),
    /// The creation time is outside what the calendar can represent.
    TimeOutOfRange { seconds: i64 },
}

/// The Win32 error code for data that is not valid.
pub const INVALID_DATA_WIN32: u32 = 13;

/// The outcome that an event calls for, with the line as a sequence of characters.
pub enum Outcome {
    Skipped(SkipReason),
    Failed(HandlerError),
    Line(Seq<char>),
}

/// The first notification with the given id, if there is one.
pub open spec fn resolve(notifications: Seq<UserNotification>, id: u32) -> Option<UserNotification>
    decreases notifications.len(),
{
    if notifications.len() == 0 {
        None
    } else if notifications[0].id == id {
        Some(notifications[0])
    } else {
        resolve(notifications.skip(1), id)
    }
}

/// The text of one element: its own text, or a line break where the host
/// could not give it.
pub open spec fn element_text(element: Result<String, HostError>) -> Seq<char> {
    match element {
        Ok(text) => text@,
        Err(_) => "\n"@,
    }
}

/// The texts of the elements, one after the other.
pub open spec fn body_text(elements: Seq<Result<String, HostError>>) -> Seq<char>
    decreases elements.len(),
{
    if elements.len() == 0 {
        Seq::empty()
    } else {
        body_text(elements.drop_last()) + element_text(elements.last())
    }
}

/// The line that reports a notification: `<app name>, at <HH>:<MM> <AM|PM>: <body>`.
pub open spec fn line_text(app_name: Seq<char>, clock: ClockTime, body: Seq<char>) -> Seq<char> {
    app_name + ", at "@ + zero_padded(clock.hour as nat) + ":"@ + zero_padded(clock.minute as nat)
        + " "@ + meridiem_text(clock.is_pm) + ": "@ + body
}

/// What a resolved notification comes to. The fields are read in the
/// order name, time, text; the first failure is the outcome.
pub open spec fn render(notification: UserNotification) -> Outcome {
    match notification.app_name {
        Err(e) => Outcome::Failed(HandlerError::Host(e)),
        Ok(name) => match notification.creation_time {
            Err(e) => Outcome::Failed(HandlerError::Host(e)),
            Ok(seconds) => if !representable(seconds as int) {
                Outcome::Failed(HandlerError::TimeOutOfRange { seconds })
            } else {
                match notification.text_elements {
                    Err(e) => Outcome::Failed(HandlerError::Host(e)),
                    Ok(elements) => Outcome::Line(
                        line_text(name@, clock_at(seconds as int), body_text(elements@)),
                    ),
                }
            },
        },
    }
}

/// What an event comes to.
pub open spec fn outcome_of(sender: Option<ListenerRef>, args: Option<ChangeEventArgs>) -> Outcome {
    if sender is None || args is None {
        Outcome::Skipped(SkipReason::MissingParameters)
    } else {
        match args->0.kind {
            Ok(ChangeKind::Removed) => Outcome::Skipped(SkipReason::Removed),
            Ok(ChangeKind::Added) => match args->0.notification_id {
                Err(e) => Outcome::Failed(HandlerError::Host(e)),
                Ok(id) => match resolve(sender->0.notifications@, id) {
                    None => Outcome::Skipped(SkipReason::Unresolved),
                    Some(notification) => render(notification),
                },
            },
            _ => Outcome::Skipped(SkipReason::UnknownKind),
        }
    }
}

/// Whether a result is the one that an outcome calls for.
pub open spec fn delivers(r: Result<Report, HandlerError>, outcome: Outcome) -> bool {
    match outcome {
        Outcome::Skipped(reason) => r == Ok::<Report, HandlerError>(Report::Skipped(reason)),
        Outcome::Failed(e) => r == Err::<Report, HandlerError>(e),
        Outcome::Line(text) => r matches Ok(Report::Notification(line)) && line@ == text,
    }
}

impl HandlerError {
    /// The text that tells of this error.
    pub open spec fn message_text(self) -> Seq<char> {
        match self {
            HandlerError::Host(cause) => cause.message@,
            HandlerError::TimeOutOfRange { .. } => "Notification creation time is out of range"@,
        }
    }

    /// The status code of this error: the host's own, or that of data that
    /// is not valid.
    pub open spec fn status_code(self) -> int {
        match self {
            HandlerError::Host(cause) => cause.code as int,
            HandlerError::TimeOutOfRange { .. } => hresult_of_win32(INVALID_DATA_WIN32),
        }
    }

    /// The text that tells of this error.
    pub fn message(&self) -> (r: String)
        ensures
            r@ == self.message_text(),
    {
        match self {
            HandlerError::Host(cause) => cause.message.clone(),
            HandlerError::TimeOutOfRange { .. } => String::from_str(
                "Notification creation time is out of range",
            ),
        }
    }

    /// The status code to hand to the host for this error.
    pub fn code(&self) -> (r: i32)
        ensures
            r == self.status_code(),
    {
        match self {
            HandlerError::Host(cause) => cause.code,
            HandlerError::TimeOutOfRange { .. } => hresult_from_win32(INVALID_DATA_WIN32),
        }
    }
}

impl SkipReason {
    /// The diagnostic that goes to the console for an event passed over.
    pub fn diagnostic(&self) -> (r: &'static str)
        ensures
            r@ == match *self {
                SkipReason::MissingParameters =>
                    "Error: one or more of expected handler params were missing"@,
                SkipReason::Removed => "Warning: notification was removed"@,
                SkipReason::UnknownKind => "Error: unknown notification change kind"@,
                SkipReason::Unresolved => "Error: could not resolve notification"@,
            },
    {
        match self {
            SkipReason::MissingParameters =>
                "Error: one or more of expected handler params were missing",
            SkipReason::Removed => "Warning: notification was removed",
            SkipReason::UnknownKind => "Error: unknown notification change kind",
            SkipReason::Unresolved => "Error: could not resolve notification",
        }
    }
}

impl ListenerRef {
    /// The notification that this listener resolves `id` to.
    pub fn get_notification(&self, id: u32) -> (r: Option<&UserNotification>)
        ensures
            match r {
                Some(n) => resolve(self.notifications@, id) == Some(*n),
                None => resolve(self.notifications@, id) is None,
            },
    {
        let mut i: usize = 0;
        assert(self.notifications@.skip(0) =~= self.notifications@);
        while i < self.notifications.len()
            invariant
                i <= self.notifications.len(),
                resolve(self.notifications@, id) == resolve(self.notifications@.skip(i as int), id),
            decreases self.notifications.len() - i,
        {
            if self.notifications[i].id == id {
                return Some(&self.notifications[i]);
            }
            assert(self.notifications@.skip(i as int).skip(1) =~= self.notifications@.skip(
                i as int + 1,
            ));
            i += 1;
        }
        None
    }
}

/// Joins the texts of the elements, with a line break in place of each
/// element whose text the host could not give.
pub fn render_body(elements: &Vec<Result<String, HostError>>) -> (r: String)
    ensures
        r@ == body_text(elements@),
{
    let mut body = String::new();
    let mut i: usize = 0;
    while i < elements.len()
        invariant
            i <= elements.len(),
            body@ == body_text(elements@.take(i as int)),
        decreases elements.len() - i,
    {
        match &elements[i] {
            Ok(text) => body.append(text.as_str()),
            Err(_) => body.append("\n"),
        }
        assert(elements@.take(i as int + 1).drop_last() =~= elements@.take(i as int));
        i += 1;
    }
    assert(elements@.take(i as int) =~= elements@);
    body
}

/// Writes the line that reports a notification.
pub fn format_line(app_name: &str, clock: &ClockTime, body: &str) -> (r: String)
    ensures
        r@ == line_text(app_name@, *clock, body@),
{
    let mut line = String::new();
    line.append(app_name);
    line.append(", at ");
    push_zero_padded(&mut line, clock.hour);
    line.append(":");
    push_zero_padded(&mut line, clock.minute);
    line.append(" ");
    line.append(clock.meridiem());
    line.append(": ");
    line.append(body);
    assert(line@ =~= line_text(app_name@, *clock, body@));
    line
}

/// Reads a resolved notification and writes the line that reports it.
pub fn render_notification(notification: &UserNotification) -> (r: Result<Report, HandlerError>)
    ensures
        delivers(r, render(*notification)),
{
    let name = match &notification.app_name {
        Ok(name) => name,
        Err(e) => {
            return Err(HandlerError::Host(e.duplicate()));
        },
    };
    let seconds: i64 = match &notification.creation_time {
        Ok(seconds) => *seconds,
        Err(e) => {
            return Err(HandlerError::Host(e.duplicate()));
        },
    };
    let clock = match ClockTime::from_epoch_seconds(seconds) {
        Some(clock) => clock,
        None => {
            return Err(HandlerError::TimeOutOfRange { seconds });
        },
    };
    let elements = match &notification.text_elements {
        Ok(elements) => elements,
        Err(e) => {
            return Err(HandlerError::Host(e.duplicate()));
        },
    };
    let body = render_body(elements);
    Ok(Report::Notification(format_line(name.as_str(), &clock, body.as_str())))
}

/// Handles one notification-changed event.
///
/// An event without sender or arguments, a removal, a change of unknown kind
/// and a notification that the listener cannot resolve are passed over. An
/// added notification is read and reported in one line; a failure to read it
/// is the error.
pub fn handle(sender: &Option<ListenerRef>, args: &Option<ChangeEventArgs>) -> (r: Result<
    Report,
    HandlerError,
>)
    ensures
        delivers(r, outcome_of(*sender, *args)),
        sender is None || args is None ==> r == Ok::<Report, HandlerError>(
            Report::Skipped(SkipReason::MissingParameters),
        ),
        sender is Some && args is Some && args->0.kind == Ok::<ChangeKind, HostError>(
            ChangeKind::Removed,
        ) ==> r == Ok::<Report, HandlerError>(Report::Skipped(SkipReason::Removed)),
{
    let listener = match sender {
        Some(listener) => listener,
        None => {
            return Ok(Report::Skipped(SkipReason::MissingParameters));
        },
    };
    let change = match args {
        Some(change) => change,
        None => {
            return Ok(Report::Skipped(SkipReason::MissingParameters));
        },
    };
    match &change.kind {
        Ok(ChangeKind::Removed) => {
            return Ok(Report::Skipped(SkipReason::Removed));
        },
        Ok(ChangeKind::Added) => {},
        _ => {
            return Ok(Report::Skipped(SkipReason::UnknownKind));
        },
    }
    let id: u32 = match &change.notification_id {
        Ok(id) => *id,
        Err(e) => {
            return Err(HandlerError::Host(e.duplicate()));
        },
    };
    match listener.get_notification(id) {
        Some(notification) => render_notification(notification),
        None => Ok(Report::Skipped(SkipReason::Unresolved)),
    }
}

/// An added notification that the listener resolves, whose fields the host
/// gives and whose creation time the calendar can represent, is reported in
/// one line: the application's name, `, at `, the hour in two digits from 01
/// to 12, `:`, the minute in two digits from 00 to 59, a space, `AM` or `PM`,
/// `: ` and the body.
pub proof fn lemma_added_is_reported(
    sender: ListenerRef,
    args: ChangeEventArgs,
    id: u32,
    name: String,
    seconds: i64,
    elements: Vec<Result<String, HostError>>,
)
    requires
        args.kind == Ok::<ChangeKind, HostError>(ChangeKind::Added),
        args.notification_id == Ok::<u32, HostError>(id),
        resolve(sender.notifications@, id) matches Some(n) && n.app_name == Ok::<String, HostError>(
            name,
        ) && n.creation_time == Ok::<i64, HostError>(seconds) && n.text_elements == Ok::<
            Vec<Result<String, HostError>>,
            HostError,
        >(elements),
        representable(seconds as int),
    ensures
        ({
            let clock = clock_at(seconds as int);
            let hour = clock.hour as int;
            let minute = clock.minute as int;
            &&& 1 <= hour <= 12
            &&& 0 <= minute <= 59
            &&& outcome_of(Some(sender), Some(args)) == Outcome::Line(
                name@ + ", at "@ + seq![digit_char(hour / 10), digit_char(hour % 10)] + ":"@ + seq![
                    digit_char(minute / 10),
                    digit_char(minute % 10),
                ] + " "@ + (if clock.is_pm {
                    "PM"@
                } else {
                    "AM"@
                }) + ": "@ + body_text(elements@),
            )
        }),
{
    let clock = clock_at(seconds as int);
    lemma_clock_at(seconds as int);
    lemma_zero_padded_two_digits(clock.hour as nat);
    lemma_zero_padded_two_digits(clock.minute as nat);
}

/// A notification raised at a midnight is reported with `12:00 AM`, one
/// raised at a noon with `12:00 PM`: the hour wraps to 12, never to 00.
pub proof fn lemma_midnight_and_noon(app_name: Seq<char>, seconds: int, body: Seq<char>)
    ensures
        second_of_day(seconds) == 0 ==> line_text(app_name, clock_at(seconds), body) == app_name
            + ", at 12:00 AM: "@ + body,
        second_of_day(seconds) == 43_200 ==> line_text(app_name, clock_at(seconds), body)
            == app_name + ", at 12:00 PM: "@ + body,
{
    lemma_clock_at(seconds);
    lemma_zero_padded_two_digits(12);
    lemma_zero_padded_two_digits(0);
    reveal_strlit("0123456789");
    reveal_strlit(", at ");
    reveal_strlit(":");
    reveal_strlit(" ");
    reveal_strlit("AM");
    reveal_strlit("PM");
    reveal_strlit(": ");
    reveal_strlit(", at 12:00 AM: ");
    reveal_strlit(", at 12:00 PM: ");
    if second_of_day(seconds) == 0 {
        assert(line_text(app_name, clock_at(seconds), body) =~= app_name + ", at 12:00 AM: "@
            + body);
    }
    if second_of_day(seconds) == 43_200 {
        assert(line_text(app_name, clock_at(seconds), body) =~= app_name + ", at 12:00 PM: "@
            + body);
    }
}

/// Handling a change looks at the listener only for what it resolves the
/// needed id to: two listeners that resolve it alike come to the same
/// outcome, and where no id is needed, any two do.
pub proof fn lemma_outcome_reads_one_notification(
    first: ListenerRef,
    second: ListenerRef,
    args: ChangeEventArgs,
)
    requires
        args.needed_id() matches Some(id) ==> resolve(first.notifications@, id) == resolve(
            second.notifications@,
            id,
        ),
    ensures
        outcome_of(Some(first), Some(args)) == outcome_of(Some(second), Some(args)),
{
}

/// An event is reported in a line exactly if it has its sender and its
/// arguments, tells of an added notification, gives its id, the listener
/// resolves that id, the host gives the name, the time and the text, and the
/// calendar can represent the time.
pub proof fn lemma_line_only_for_added(sender: Option<ListenerRef>, args: Option<ChangeEventArgs>)
    ensures
        outcome_of(sender, args) is Line <==> {
            &&& sender is Some
            &&& args is Some
            &&& args->0.kind == Ok::<ChangeKind, HostError>(ChangeKind::Added)
            &&& args->0.notification_id matches Ok(id)
            &&& resolve(sender->0.notifications@, id) matches Some(n)
            &&& n.app_name is Ok
            &&& n.creation_time matches Ok(seconds)
            &&& representable(seconds as int)
            &&& n.text_elements is Ok
        },
{
}

/// The notification that an id resolves to has that id and stands before
/// every other notification with it; an id resolves to none exactly if no
/// notification has it.
pub proof fn lemma_resolve_first_match(notifications: Seq<UserNotification>, id: u32)
    ensures
        match resolve(notifications, id) {
            Some(n) => exists|i: int|
                {
                    &&& 0 <= i < notifications.len()
                    &&& #[trigger] notifications[i] == n
                    &&& n.id == id
                    &&& forall|j: int| 0 <= j < i ==> (#[trigger] notifications[j]).id != id
                },
            None => forall|j: int|
                0 <= j < notifications.len() ==> (#[trigger] notifications[j]).id != id,
        },
    decreases notifications.len(),
{
    if notifications.len() > 0 && notifications[0].id != id {
        let rest = notifications.skip(1);
        lemma_resolve_first_match(rest, id);
        match resolve(rest, id) {
            Some(n) => {
                let i: int = choose|i: int|
                    {
                        &&& 0 <= i < rest.len()
                        &&& #[trigger] rest[i] == n
                        &&& n.id == id
                        &&& forall|j: int| 0 <= j < i ==> (#[trigger] rest[j]).id != id
                    };
                assert(notifications[i + 1] == n);
                assert forall|j: int| 0 <= j < i + 1 implies (#[trigger] notifications[j]).id
                    != id by {
                    if j > 0 {
                        assert(rest[j - 1] == notifications[j]);
                    }
                }
            },
            None => {
                assert forall|j: int| 0 <= j < notifications.len() implies (
                #[trigger] notifications[j]).id != id by {
                    if j > 0 {
                        assert(rest[j - 1] == notifications[j]);
                    }
                }
            },
        }
    } else if notifications.len() > 0 {
        assert(notifications[0] == notifications[0]);
    }
}

} // verus!
