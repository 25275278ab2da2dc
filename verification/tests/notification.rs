use skal::clock::{ClockTime, EARLIEST_SECOND, LATEST_SECOND};
use skal::host::HostError;
use skal::notification::{
    format_line, handle, render_body, render_notification, ChangeEventArgs, ChangeKind,
    HandlerError, ListenerRef, Report, SkipReason, UserNotification,
};

fn failure(code: i32, message: &str) -> HostError {
    HostError { code, message: message.to_string() }
}

fn texts(elements: &[&str]) -> Vec<Result<String, HostError>> {
    elements.iter().map(|e| Ok(e.to_string())).collect()
}

fn notification(id: u32, name: &str, secs: i64, elements: &[&str]) -> UserNotification {
    UserNotification {
        id,
        app_name: Ok(name.to_string()),
        creation_time: Ok(secs),
        text_elements: Ok(texts(elements)),
    }
}

fn listener(notifications: Vec<UserNotification>) -> Option<ListenerRef> {
    Some(ListenerRef { notifications })
}

fn change(kind: ChangeKind, id: u32) -> Option<ChangeEventArgs> {
    Some(ChangeEventArgs { kind: Ok(kind), notification_id: Ok(id) })
}

fn line(text: &str) -> Result<Report, HandlerError> {
    Ok(Report::Notification(text.to_string()))
}

fn skipped(reason: SkipReason) -> Result<Report, HandlerError> {
    Ok(Report::Skipped(reason))
}

#[test]
fn mail_in_the_evening() {
    let sender = listener(vec![notification(1, "Mail", 1_700_000_000, &["You have a new message"])]);
    assert_eq!(
        handle(&sender, &change(ChangeKind::Added, 1)),
        line("Mail, at 10:13 PM: You have a new message")
    );
}

#[test]
fn added_at_midnight_reads_twelve_am() {
    let sender = listener(vec![notification(2, "Clock", 1_699_920_000, &["tick"])]);
    assert_eq!(handle(&sender, &change(ChangeKind::Added, 2)), line("Clock, at 12:00 AM: tick"));
}

#[test]
fn added_at_noon_reads_twelve_pm() {
    let sender = listener(vec![notification(2, "Clock", 1_699_963_200, &["tock"])]);
    assert_eq!(handle(&sender, &change(ChangeKind::Added, 2)), line("Clock, at 12:00 PM: tock"));
}

#[test]
fn morning_hour_and_minute_get_leading_zeros() {
    let sender = listener(vec![notification(3, "Chat", 9 * 3_600 + 5 * 60 + 59, &["hi"])]);
    assert_eq!(handle(&sender, &change(ChangeKind::Added, 3)), line("Chat, at 09:05 AM: hi"));
}

#[test]
fn unresolvable_element_becomes_a_line_break() {
    let elements = vec![
        Ok("Title".to_string()),
        Err(failure(-1, "no text")),
        Ok("Body".to_string()),
    ];
    assert_eq!(render_body(&elements), "Title\nBody");
    let sender = listener(vec![UserNotification {
        id: 5,
        app_name: Ok("News".to_string()),
        creation_time: Ok(0),
        text_elements: Ok(elements),
    }]);
    assert_eq!(
        handle(&sender, &change(ChangeKind::Added, 5)),
        line("News, at 12:00 AM: Title\nBody")
    );
}

#[test]
fn elements_are_joined_in_their_order() {
    assert_eq!(render_body(&texts(&["a", "b", "c"])), "abc");
    assert_eq!(render_body(&texts(&["c", "", "a"])), "ca");
}

#[test]
fn no_elements_give_an_empty_body() {
    assert_eq!(render_body(&Vec::new()), "");
    let sender = listener(vec![notification(6, "Quiet", 60, &[])]);
    assert_eq!(handle(&sender, &change(ChangeKind::Added, 6)), line("Quiet, at 12:01 AM: "));
}

#[test]
fn only_unresolvable_elements_give_only_line_breaks() {
    let elements = vec![Err(failure(1, "a")), Err(failure(2, "b"))];
    assert_eq!(render_body(&elements), "\n\n");
}

#[test]
fn line_is_written_from_its_parts() {
    let clock = ClockTime { is_pm: false, hour: 1, minute: 2 };
    assert_eq!(format_line("App", &clock, "text"), "App, at 01:02 AM: text");
    let clock = ClockTime { is_pm: true, hour: 12, minute: 59 };
    assert_eq!(format_line("", &clock, ""), ", at 12:59 PM: ");
}

#[test]
fn name_and_body_keep_their_characters() {
    let sender = listener(vec![notification(8, "Грамота, at", 46_800, &["héllo: ", "wörld"])]);
    assert_eq!(
        handle(&sender, &change(ChangeKind::Added, 8)),
        line("Грамота, at, at 01:00 PM: héllo: wörld")
    );
}

#[test]
fn removed_is_passed_over_when_resolvable() {
    let sender = listener(vec![notification(1, "Mail", 1_700_000_000, &["x"])]);
    assert_eq!(handle(&sender, &change(ChangeKind::Removed, 1)), skipped(SkipReason::Removed));
}

#[test]
fn removed_is_passed_over_when_unresolvable() {
    assert_eq!(
        handle(&listener(Vec::new()), &change(ChangeKind::Removed, 1)),
        skipped(SkipReason::Removed)
    );
    let args = Some(ChangeEventArgs {
        kind: Ok(ChangeKind::Removed),
        notification_id: Err(failure(-2, "no id")),
    });
    assert_eq!(handle(&listener(Vec::new()), &args), skipped(SkipReason::Removed));
}

#[test]
fn absent_sender_is_passed_over() {
    assert_eq!(
        handle(&None, &change(ChangeKind::Added, 1)),
        skipped(SkipReason::MissingParameters)
    );
}

#[test]
fn absent_args_are_passed_over() {
    let sender = listener(vec![notification(1, "Mail", 1_700_000_000, &["x"])]);
    assert_eq!(handle(&sender, &None), skipped(SkipReason::MissingParameters));
}

#[test]
fn absent_sender_and_args_are_passed_over() {
    assert_eq!(handle(&None, &None), skipped(SkipReason::MissingParameters));
}

#[test]
fn unknown_kind_is_passed_over() {
    let sender = listener(vec![notification(1, "Mail", 1_700_000_000, &["x"])]);
    assert_eq!(handle(&sender, &change(ChangeKind::Unknown, 1)), skipped(SkipReason::UnknownKind));
}

#[test]
fn unreadable_kind_is_passed_over() {
    let sender = listener(vec![notification(1, "Mail", 1_700_000_000, &["x"])]);
    let args =
        Some(ChangeEventArgs { kind: Err(failure(-7, "no kind")), notification_id: Ok(1) });
    assert_eq!(handle(&sender, &args), skipped(SkipReason::UnknownKind));
}

#[test]
fn unresolved_notification_is_passed_over() {
    let sender = listener(vec![notification(1, "Mail", 1_700_000_000, &["x"])]);
    assert_eq!(handle(&sender, &change(ChangeKind::Added, 2)), skipped(SkipReason::Unresolved));
    assert_eq!(
        handle(&listener(Vec::new()), &change(ChangeKind::Added, 2)),
        skipped(SkipReason::Unresolved)
    );
}

#[test]
fn notification_is_found_by_its_id() {
    let sender = listener(vec![
        notification(1, "One", 3_600, &["first"]),
        notification(2, "Two", 7_200, &["second"]),
        notification(3, "Three", 10_800, &["third"]),
    ]);
    assert_eq!(handle(&sender, &change(ChangeKind::Added, 2)), line("Two, at 02:00 AM: second"));
    assert_eq!(handle(&sender, &change(ChangeKind::Added, 3)), line("Three, at 03:00 AM: third"));
    let found = sender.as_ref().unwrap().get_notification(1).unwrap();
    assert_eq!(found.app_name, Ok("One".to_string()));
    assert_eq!(sender.as_ref().unwrap().get_notification(4), None);
}

#[test]
fn first_of_two_with_one_id_is_resolved() {
    let sender = listener(vec![
        notification(7, "First", 0, &["a"]),
        notification(7, "Second", 0, &["b"]),
    ]);
    assert_eq!(handle(&sender, &change(ChangeKind::Added, 7)), line("First, at 12:00 AM: a"));
}

#[test]
fn unreadable_id_is_the_error() {
    let sender = listener(vec![notification(1, "Mail", 1_700_000_000, &["x"])]);
    let args = Some(ChangeEventArgs {
        kind: Ok(ChangeKind::Added),
        notification_id: Err(failure(-2, "no id")),
    });
    assert_eq!(handle(&sender, &args), Err(HandlerError::Host(failure(-2, "no id"))));
}

#[test]
fn unreadable_name_is_the_error() {
    let mut n = notification(1, "Mail", 1_700_000_000, &["x"]);
    n.app_name = Err(failure(-10, "no name"));
    assert_eq!(
        handle(&listener(vec![n]), &change(ChangeKind::Added, 1)),
        Err(HandlerError::Host(failure(-10, "no name")))
    );
}

#[test]
fn unreadable_time_is_the_error() {
    let mut n = notification(1, "Mail", 1_700_000_000, &["x"]);
    n.creation_time = Err(failure(-11, "no time"));
    assert_eq!(render_notification(&n), Err(HandlerError::Host(failure(-11, "no time"))));
}

#[test]
fn unreadable_text_is_the_error() {
    let mut n = notification(1, "Mail", 1_700_000_000, &["x"]);
    n.text_elements = Err(failure(-12, "no binding"));
    assert_eq!(render_notification(&n), Err(HandlerError::Host(failure(-12, "no binding"))));
}

#[test]
fn first_unreadable_field_is_the_error() {
    let n = UserNotification {
        id: 1,
        app_name: Err(failure(-10, "no name")),
        creation_time: Err(failure(-11, "no time")),
        text_elements: Err(failure(-12, "no binding")),
    };
    assert_eq!(render_notification(&n), Err(HandlerError::Host(failure(-10, "no name"))));
    let n = UserNotification {
        id: 1,
        app_name: Ok("Mail".to_string()),
        creation_time: Err(failure(-11, "no time")),
        text_elements: Err(failure(-12, "no binding")),
    };
    assert_eq!(render_notification(&n), Err(HandlerError::Host(failure(-11, "no time"))));
    let n = UserNotification {
        id: 1,
        app_name: Ok("Mail".to_string()),
        creation_time: Ok(i64::MAX),
        text_elements: Err(failure(-12, "no binding")),
    };
    assert_eq!(render_notification(&n), Err(HandlerError::TimeOutOfRange { seconds: i64::MAX }));
}

#[test]
fn time_beyond_the_calendar_is_the_error() {
    let n = notification(1, "Mail", LATEST_SECOND + 1, &["x"]);
    assert_eq!(
        render_notification(&n),
        Err(HandlerError::TimeOutOfRange { seconds: LATEST_SECOND + 1 })
    );
    let n = notification(1, "Mail", EARLIEST_SECOND - 1, &["x"]);
    assert_eq!(
        render_notification(&n),
        Err(HandlerError::TimeOutOfRange { seconds: EARLIEST_SECOND - 1 })
    );
}

#[test]
fn time_at_the_calendar_ends_is_reported() {
    let n = notification(1, "Mail", LATEST_SECOND, &["x"]);
    assert_eq!(render_notification(&n), line("Mail, at 11:59 PM: x"));
    let n = notification(1, "Mail", EARLIEST_SECOND, &["x"]);
    assert_eq!(render_notification(&n), line("Mail, at 12:00 AM: x"));
}

#[test]
fn reported_lines_have_hours_and_minutes_on_the_dial() {
    let mut secs: i64 = 1_700_000_000;
    while secs < 1_700_000_000 + 86_400 {
        let n = notification(1, "N", secs, &["B"]);
        let text = match render_notification(&n) {
            Ok(Report::Notification(text)) => text,
            other => panic!("no line: {:?}", other),
        };
        let bytes = text.as_bytes();
        assert_eq!(text.len(), "N, at HH:MM AM: B".len());
        assert_eq!(&text[..6], "N, at ");
        let hour: u32 = text[6..8].parse().unwrap();
        assert_eq!(bytes[8], b':');
        let minute: u32 = text[9..11].parse().unwrap();
        assert!(1 <= hour && hour <= 12);
        assert!(minute <= 59);
        assert!(&text[11..] == " AM: B" || &text[11..] == " PM: B");
        secs += 61;
    }
}

#[test]
fn diagnostics_have_their_texts() {
    assert_eq!(
        SkipReason::MissingParameters.diagnostic(),
        "Error: one or more of expected handler params were missing"
    );
    assert_eq!(SkipReason::Removed.diagnostic(), "Warning: notification was removed");
    assert_eq!(SkipReason::UnknownKind.diagnostic(), "Error: unknown notification change kind");
    assert_eq!(SkipReason::Unresolved.diagnostic(), "Error: could not resolve notification");
}

#[test]
fn handler_errors_have_message_and_code() {
    let e = HandlerError::Host(failure(-99, "broken"));
    assert_eq!(e.message(), "broken");
    assert_eq!(e.code(), -99);
    let e = HandlerError::TimeOutOfRange { seconds: i64::MIN };
    assert_eq!(e.message(), "Notification creation time is out of range");
    assert_eq!(e.code() as u32, 0x8007_000D);
}

#[test]
fn duplicate_is_equal() {
    let e = failure(-1, "text");
    assert_eq!(e.duplicate(), e);
}

#[test]
fn kind_is_read_from_the_hosts_number() {
    assert_eq!(ChangeKind::from_raw(0), ChangeKind::Added);
    assert_eq!(ChangeKind::from_raw(1), ChangeKind::Removed);
    assert_eq!(ChangeKind::from_raw(2), ChangeKind::Unknown);
    assert_eq!(ChangeKind::from_raw(-1), ChangeKind::Unknown);
    assert_eq!(ChangeKind::from_raw(i32::MAX), ChangeKind::Unknown);
}

#[test]
fn only_an_added_notification_with_its_id_is_resolved() {
    let args = |kind, id| ChangeEventArgs { kind, notification_id: id };
    assert_eq!(args(Ok(ChangeKind::Added), Ok(7)).notification_to_resolve(), Some(7));
    assert_eq!(args(Ok(ChangeKind::Removed), Ok(7)).notification_to_resolve(), None);
    assert_eq!(args(Ok(ChangeKind::Unknown), Ok(7)).notification_to_resolve(), None);
    assert_eq!(args(Err(failure(-1, "k")), Ok(7)).notification_to_resolve(), None);
    assert_eq!(
        args(Ok(ChangeKind::Added), Err(failure(-2, "i"))).notification_to_resolve(),
        None
    );
}

#[test]
fn other_notifications_do_not_change_the_outcome() {
    let alone = listener(vec![notification(2, "Two", 7_200, &["second"])]);
    let among = listener(vec![
        notification(1, "One", 3_600, &["first"]),
        notification(2, "Two", 7_200, &["second"]),
        notification(3, "Three", 10_800, &["third"]),
    ]);
    let added = change(ChangeKind::Added, 2);
    assert_eq!(handle(&alone, &added), handle(&among, &added));
    let removed = change(ChangeKind::Removed, 2);
    assert_eq!(handle(&alone, &removed), handle(&listener(Vec::new()), &removed));
}
