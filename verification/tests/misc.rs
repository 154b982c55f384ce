use calendar_backend::auth::AuthError;
use calendar_backend::config::{Config, Environment, StartupConfig};
use calendar_backend::event::{reconcile_rules, NewRecurringEvent, RecurringEvent, UpdatedRecurringEvent};
use calendar_backend::exception::{ExceptionType, NewRecurringEventException};
use calendar_backend::group::{blank, copy_text, GroupErrors, NewRecurringEventGroup, RecurringEventGroup};
use calendar_backend::instant::Timestamp;
use calendar_backend::llm::{
    build_inline_data_content, build_system_instruction, build_text_content, Candidate, ContentError, LLMResponse,
    PartData,
};
use calendar_backend::outlook::{
    convert_day, DayOfWeek, OutlookCalendarEvent, OutlookCalendarResponse, OutlookDateTimeTimeZone, OutlookDeltaEvent,
    OutlookLocation, RemovedInfo, SyncStep, Weekday,
};
use calendar_backend::rrule::ValidatedRRule;
use calendar_backend::time::{Hour, Minute, Second};

const MONDAY: i64 = 1_704_067_200;

fn at(secs: i64) -> Timestamp {
    Timestamp { secs, nanos: 0 }
}

fn new_group(name: &str, color: i64, start: Option<i64>, end: Option<i64>) -> NewRecurringEventGroup {
    NewRecurringEventGroup {
        name: name.to_string(),
        description: None,
        color,
        group_is_active: None,
        group_recurrence_start: start.map(at),
        group_recurrence_end: end.map(at),
    }
}

fn reading(secs: i64, zone: &str) -> OutlookDateTimeTimeZone {
    OutlookDateTimeTimeZone { date_time: at(secs), time_zone: zone.to_string() }
}

fn some(text: &str) -> Option<String> {
    Some(text.to_string())
}

fn full() -> Environment {
    Environment {
        database_url: some("db"),
        jwt_secret: some("jwt"),
        gemini_key: some("key"),
        gemini_model: some("model"),
        azure_tenant_id: some("tenant"),
        azure_client_id: some("client"),
        azure_client_secret: some("secret"),
        azure_encryption_key: some("enc"),
    }
}

fn empty() -> Environment {
    Environment {
        database_url: None,
        jwt_secret: None,
        gemini_key: None,
        gemini_model: None,
        azure_tenant_id: None,
        azure_client_id: None,
        azure_client_secret: None,
        azure_encryption_key: None,
    }
}

fn command_line(by_cli: Option<bool>, from: Environment) -> StartupConfig {
    StartupConfig {
        by_cli,
        database_url: from.database_url,
        jwt_secret: from.jwt_secret,
        gemini_key: from.gemini_key,
        gemini_model: from.gemini_model,
        azure_tenant_id: from.azure_tenant_id,
        azure_client_id: from.azure_client_id,
        azure_client_secret: from.azure_client_secret,
        azure_encryption_key: from.azure_encryption_key,
    }
}

#[test]
fn hours_and_minutes_are_bounded() {
    assert_eq!(Hour::new(0).unwrap().value(), 0);
    assert_eq!(Hour::new(23).unwrap().value(), 23);
    assert_eq!(Hour::new(24), Err(()));
    assert_eq!(Hour::new(255), Err(()));
    assert_eq!(Minute::new(59).unwrap().value(), 59);
    assert_eq!(Minute::new(60), Err(()));
    assert!(Hour::new(3).unwrap() < Hour::new(4).unwrap());
    assert_eq!(Second(90).0, 90);
}

#[test]
fn exception_types_have_stored_names() {
    assert_eq!(ExceptionType::Cancelled.as_str(), "cancelled");
    assert_eq!(ExceptionType::Modified.as_str(), "modified");
}

#[test]
fn a_new_exception_gets_its_id() {
    let new = NewRecurringEventException {
        recurring_event_id: 4,
        exception_date: at(10),
        exception_type: ExceptionType::Modified,
        modified_title: some("Moved"),
        modified_description: Some(None),
        modified_location: None,
        modified_start_time: Some(at(20)),
        modified_end_time: None,
    };
    let stored = new.with_id(77);
    assert_eq!(stored.id, 77);
    assert_eq!(stored.recurring_event_id, 4);
    assert_eq!(stored.exception_date, at(10));
    assert_eq!(stored.exception_type, ExceptionType::Modified);
    assert_eq!(stored.modified_title.as_deref(), Some("Moved"));
    assert_eq!(stored.modified_description, Some(None));
    assert_eq!(stored.modified_start_time, Some(at(20)));
    assert!(stored.is_for(4, at(10)));
    assert!(!stored.is_for(5, at(10)));
    assert!(!stored.is_for(4, Timestamp { secs: 10, nanos: 1 }));
}

#[test]
fn a_good_group_is_accepted() {
    assert_eq!(new_group("Term", 16_711_680, Some(1), Some(2)).validate_new_group(), Ok(()));
    assert_eq!(new_group(" x ", 1, None, Some(2)).validate_new_group(), Ok(()));
}

#[test]
fn a_group_reports_each_wrong_field() {
    assert_eq!(
        new_group("", 5, None, None).validate_new_group(),
        Err(GroupErrors { name_is_empty: true, color_not_positive: false, start_not_before_end: false })
    );
    assert_eq!(
        new_group(" \t\n\u{a0}\u{3000}", 0, Some(5), Some(5)).validate_new_group(),
        Err(GroupErrors { name_is_empty: true, color_not_positive: true, start_not_before_end: true })
    );
    assert_eq!(
        new_group("a", -3, Some(6), Some(5)).validate_new_group(),
        Err(GroupErrors { name_is_empty: false, color_not_positive: true, start_not_before_end: true })
    );
    assert!(blank("") && blank("  ") && !blank(" a ") && !blank("\u{200b}"));
    for c in (0..=0x3001u32).filter_map(char::from_u32) {
        assert_eq!(blank(&c.to_string()), c.is_whitespace());
    }
}

#[test]
fn a_group_is_copied_field_by_field() {
    let group = RecurringEventGroup {
        id: 1,
        user_id: 2,
        name: "Term".to_string(),
        description: some("Autumn"),
        color: 9,
        group_is_active: Some(false),
        group_recurrence_start: Some(at(3)),
        group_recurrence_end: None,
    };
    let copy = group.duplicate();
    assert_eq!((copy.id, copy.user_id, copy.color), (1, 2, 9));
    assert_eq!(copy.name, "Term");
    assert_eq!(copy.description.as_deref(), Some("Autumn"));
    assert_eq!(copy.group_is_active, Some(false));
    assert_eq!(copy.group_recurrence_start, Some(at(3)));
    assert_eq!(copy_text(&None), None);
}

#[test]
fn auth_errors_have_status_and_words() {
    assert_eq!(AuthError::Auth.status_code(), 401);
    assert_eq!(AuthError::InvalidToken.status_code(), 401);
    assert_eq!(AuthError::MissingOrInvalidAzureRefreshToken.status_code(), 400);
    assert_eq!(AuthError::Auth.message(), "Authentication failed");
    assert_eq!(AuthError::InvalidToken.message(), "Token decoding failed");
    assert_eq!(
        AuthError::MissingOrInvalidAzureRefreshToken.message(),
        "Missing Azure refresh token, or it wasn't a valid string"
    );
}

#[test]
fn the_configuration_comes_from_the_command_line_where_asked() {
    let config: Config = command_line(Some(true), full()).to_config(empty()).unwrap();
    assert_eq!(config.database_url, "db");
    assert_eq!(config.azure_encryption_key, "enc");
    let mut partial = full();
    partial.gemini_model = None;
    partial.azure_client_id = None;
    assert_eq!(
        command_line(Some(true), partial).to_config(full()).unwrap_err(),
        "`gemini_model` missing from CLI args"
    );
    assert_eq!(
        command_line(Some(true), empty()).to_config(full()).unwrap_err(),
        "`database_url` missing from CLI args"
    );
}

#[test]
fn the_configuration_comes_from_the_environment_otherwise() {
    for by_cli in [None, Some(false)] {
        let config = command_line(by_cli, empty()).to_config(full()).unwrap();
        assert_eq!(config.jwt_secret, "jwt");
        assert_eq!(config.gemini_model, "model");
        let mut partial = full();
        partial.azure_client_secret = None;
        assert_eq!(
            command_line(by_cli, full()).to_config(partial).unwrap_err(),
            "`AZURE_CLIENT_SECRET` missing from env vars"
        );
        assert_eq!(
            command_line(by_cli, full()).to_config(empty()).unwrap_err(),
            "`DATABASE_URL` missing from env vars"
        );
    }
}

#[test]
fn days_are_converted() {
    assert_eq!(convert_day(&DayOfWeek::Monday), Weekday::Mon);
    assert_eq!(convert_day(&DayOfWeek::Thursday), Weekday::Thu);
    assert_eq!(convert_day(&DayOfWeek::Sunday), Weekday::Sun);
    assert_eq!(convert_day(&DayOfWeek::Unknown), Weekday::Mon);
}

#[test]
fn readings_are_resolved_by_the_rules_of_their_zone() {
    // 2024-07-01T12:00 in Berlin is 10:00 UTC, 2024-01-15T12:00 is 11:00 UTC
    assert_eq!(reading(1_719_835_200, "W. Europe Standard Time").to_utc(), Some(at(1_719_828_000)));
    assert_eq!(reading(1_705_320_000, "W. Europe Standard Time").to_utc(), Some(at(1_705_316_400)));
    assert_eq!(reading(1_705_320_000, "UTC").to_utc(), Some(at(1_705_320_000)));
    // 12:00 in New York in winter is 17:00 UTC
    assert_eq!(reading(1_705_320_000, "Eastern Standard Time").to_utc(), Some(at(1_705_338_000)));
    let fine = OutlookDateTimeTimeZone { date_time: Timestamp { secs: 1_705_320_000, nanos: 500 }, time_zone: "UTC".to_string() };
    assert_eq!(fine.to_utc(), Some(Timestamp { secs: 1_705_320_000, nanos: 500 }));
}

#[test]
fn readings_that_are_no_single_instant_have_none() {
    // 02:30 on 2024-03-31 does not occur in Berlin, 02:30 on 2024-10-27 occurs twice
    assert_eq!(reading(1_711_852_200, "W. Europe Standard Time").to_utc(), None);
    assert_eq!(reading(1_729_996_200, "W. Europe Standard Time").to_utc(), None);
    assert_eq!(reading(1_705_320_000, "Europe/Berlin").to_utc(), None);
    assert_eq!(reading(1_705_320_000, "").to_utc(), None);
    assert_eq!(reading(i64::MAX, "UTC").to_utc(), None);
}

#[test]
fn an_outlook_event_becomes_a_local_event() {
    let event = OutlookCalendarEvent {
        id: "abc".to_string(),
        subject: some("Review"),
        body_preview: some("Agenda"),
        location: Some(OutlookLocation { display_name: some("HQ") }),
        start: reading(1_719_835_200, "W. Europe Standard Time"),
        end: reading(1_719_838_800, "W. Europe Standard Time"),
    };
    let local = event.to_new_event().unwrap();
    assert_eq!(local.title, "Review");
    assert_eq!(local.description.as_deref(), Some("Agenda"));
    assert_eq!(local.location.as_deref(), Some("HQ"));
    assert_eq!(local.start_time, at(1_719_828_000));
    assert_eq!(local.end_time, at(1_719_831_600));
    let updated = event.to_updated_event(12).unwrap();
    assert_eq!(updated.id, 12);
    assert_eq!(updated.title, "Review");
    assert_eq!(updated.start_time, at(1_719_828_000));
}

#[test]
fn an_outlook_event_without_subject_or_place() {
    let event = OutlookCalendarEvent {
        id: "abc".to_string(),
        subject: None,
        body_preview: None,
        location: Some(OutlookLocation { display_name: None }),
        start: reading(10, "UTC"),
        end: reading(20, "UTC"),
    };
    let local = event.to_new_event().unwrap();
    assert_eq!(local.title, "");
    assert_eq!(local.description, None);
    assert_eq!(local.location, None);
    let broken = OutlookCalendarEvent { end: reading(20, "Nowhere"), ..event };
    assert!(broken.to_new_event().is_none());
    assert!(broken.to_updated_event(1).is_none());
}

fn new_definition(rule: &str, start: i64, end: Option<i64>) -> NewRecurringEvent {
    NewRecurringEvent {
        group_id: None,
        is_active: true,
        title: "Seminar".to_string(),
        description: None,
        location: None,
        event_duration_seconds: Second(60),
        recurrence_start: at(start),
        recurrence_end: end.map(at),
        rrule: ValidatedRRule::validate(rule, at(0)).unwrap(),
    }
}

#[test]
fn a_new_definition_brings_its_rule_in_line() {
    let mut event = new_definition("FREQ=DAILY", MONDAY, Some(MONDAY + 2 * 86_400));
    assert!(event.reconcile_rule().is_ok());
    assert_eq!(event.rrule.start(), at(MONDAY));
    assert!(event.rrule.rule_text().contains("UNTIL=20240103T000000Z"));
    assert_eq!(event.rrule.all_within_period(at(0), at(MONDAY + 30 * 86_400)).len(), 3);
    assert_eq!(event.title, "Seminar");
}

#[test]
fn a_new_definition_with_an_end_before_its_start_is_refused() {
    let mut event = new_definition("FREQ=DAILY", MONDAY, Some(MONDAY - 1));
    let text = event.rrule.rule_text().to_string();
    assert!(event.reconcile_rule().is_err());
    assert_eq!(event.rrule.rule_text(), text);
    let mut batch = vec![
        new_definition("FREQ=DAILY", MONDAY, None),
        new_definition("FREQ=WEEKLY", MONDAY, Some(MONDAY - 1)),
        new_definition("FREQ=DAILY", 5, None),
    ];
    let (place, _) = reconcile_rules(&mut batch).unwrap_err();
    assert_eq!(place, 1);
    assert_eq!(batch[0].rrule.start(), at(MONDAY));
    assert_eq!(batch[2].rrule.start(), at(0));
    let mut good = vec![new_definition("FREQ=DAILY", MONDAY, None), new_definition("FREQ=DAILY", 5, Some(6))];
    assert!(reconcile_rules(&mut good).is_ok());
    assert_eq!(good[1].rrule.start(), at(5));
}

#[test]
fn an_updated_definition_brings_its_rule_in_line() {
    let mut event = UpdatedRecurringEvent {
        id: 3,
        group_id: Some(4),
        is_active: true,
        title: "Seminar".to_string(),
        description: None,
        location: None,
        event_duration_seconds: Second(60),
        recurrence_start: at(MONDAY),
        recurrence_end: Some(at(MONDAY + 86_400)),
        rrule: ValidatedRRule::validate("FREQ=DAILY", at(0)).unwrap(),
    };
    assert!(event.reconcile_rule().is_ok());
    assert_eq!(event.rrule.start(), at(MONDAY));
    assert!(event.rrule.rule_text().contains("UNTIL=20240102T000000Z"));
    event.recurrence_end = Some(at(MONDAY - 1));
    assert!(event.reconcile_rule().is_err());
    assert!(event.rrule.rule_text().contains("UNTIL=20240102T000000Z"));
}

#[test]
fn a_definition_knows_whether_its_bounds_agree() {
    let mut event = RecurringEvent {
        id: 1,
        group_id: None,
        user_id: 2,
        is_active: true,
        title: "Seminar".to_string(),
        description: None,
        location: None,
        event_duration_seconds: Second(60),
        recurrence_start: at(MONDAY),
        recurrence_end: None,
        rrule: ValidatedRRule::validate("FREQ=DAILY", at(MONDAY)).unwrap(),
    };
    assert!(event.bounds_agree());
    event.recurrence_start = Timestamp { secs: MONDAY, nanos: 1 };
    assert!(!event.bounds_agree());
}

#[test]
fn a_page_of_changes_says_what_follows() {
    let page = |next: Option<&str>, delta: Option<&str>| OutlookCalendarResponse {
        next_link: next.map(str::to_string),
        delta_link: delta.map(str::to_string),
        value: vec![OutlookDeltaEvent::Deleted { id: "x".to_string(), removed: RemovedInfo { reason: "deleted".to_string() } }],
    };
    let (changes, step) = page(Some("next"), Some("delta")).next_step(true);
    assert_eq!(changes.len(), 1);
    assert!(matches!(step, SyncStep::NextPage(link) if link == "next"));
    let (_, step) = page(None, Some("delta")).next_step(true);
    assert!(matches!(step, SyncStep::SaveDelta { link, known: true } if link == "delta"));
    let (_, step) = page(None, Some("delta")).next_step(false);
    assert!(matches!(step, SyncStep::SaveDelta { link, known: false } if link == "delta"));
    let (changes, step) = page(None, None).next_step(false);
    assert!(matches!(step, SyncStep::Lost));
    assert!(matches!(&changes[0], OutlookDeltaEvent::Deleted { id, .. } if id == "x"));
}

#[test]
fn an_answer_has_the_text_of_its_first_part() {
    let asked = build_text_content("hello".to_string());
    assert_eq!(asked.len(), 1);
    assert!(asked[0].role.is_none());
    assert!(matches!(&asked[0].parts[0].data, PartData::Text { text } if text == "hello"));
    assert!(asked[0].parts[0].thought.is_none() && asked[0].parts[0].thought_signature.is_none());
    let answer = LLMResponse { candidates: vec![Candidate { content: asked[0].clone() }] };
    assert_eq!(answer.first_text(), Ok("hello"));

    let sent = build_inline_data_content(b"hello world", "image/jpeg", "what is this".to_string());
    assert_eq!(sent[0].parts.len(), 2);
    assert!(matches!(
        &sent[0].parts[0].data,
        PartData::InlineData { inline_data } if inline_data.mime_type == "image/jpeg" && inline_data.data == "aGVsbG8gd29ybGQ="
    ));
    assert!(matches!(&sent[0].parts[1].data, PartData::Text { text } if text == "what is this"));
    let data_first = LLMResponse { candidates: vec![Candidate { content: sent[0].clone() }] };
    assert_eq!(data_first.first_text(), Err(ContentError::NotText));

    assert_eq!(LLMResponse { candidates: vec![] }.first_text(), Err(ContentError::NoContent));
    let mut empty = asked[0].clone();
    empty.parts.clear();
    assert_eq!(LLMResponse { candidates: vec![Candidate { content: empty }] }.first_text(), Err(ContentError::NoContent));

    assert!(build_system_instruction(None).is_none());
    let instruction = build_system_instruction(Some("be brief".to_string())).unwrap();
    assert!(matches!(&instruction.parts[0].data, PartData::Text { text } if text == "be brief"));
    assert!(instruction.role.is_none() && instruction.parts.len() == 1);
}
