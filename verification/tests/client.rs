use openadr::client::{
    check_bearer, check_event_parent, check_report_parent, needs_token, new_event, new_report, query_pairs, report_query_pairs,
    single_match, token_lifetime, ClientError, Filter, PageCursor, PaginationOptions,
};
use openadr::event::{Event, EventContent, EventInterval};
use openadr::ids::{EventId, ProgramId};
use openadr::time::Timestamp;
use openadr::wire_enums::TargetLabel;

fn pairs(q: Vec<(String, String)>) -> Vec<(String, String)> {
    q
}

fn p(a: &str, b: &str) -> (String, String) {
    (a.to_string(), b.to_string())
}

#[test]
fn listing_queries() {
    let program = ProgramId::new("program-1").unwrap();
    let q = query_pairs(
        Some(&program),
        &Filter::By(TargetLabel::VENName, vec!["ven-1".into(), "ven-2".into()]),
        &PaginationOptions { skip: 50, limit: 50 },
    );
    assert_eq!(
        pairs(q),
        vec![
            p("targetType", "VEN_NAME"),
            p("targetValues", "ven-1"),
            p("targetValues", "ven-2"),
            p("programID", "program-1"),
            p("skip", "50"),
            p("limit", "50"),
        ]
    );
    let q = query_pairs(None, &Filter::All, &PaginationOptions { skip: 0, limit: 2 });
    assert_eq!(q, vec![p("skip", "0"), p("limit", "2")]);
}

#[test]
fn paging_stops_at_a_short_page() {
    let first = PageCursor::first(50);
    assert_eq!(first.window(), Some(PaginationOptions { skip: 0, limit: 50 }));
    let second = first.after_page(50).unwrap();
    assert_eq!(second.window(), Some(PaginationOptions { skip: 50, limit: 50 }));
    assert_eq!(second.after_page(49), None);
    assert_eq!(PageCursor { page: usize::MAX, page_size: 2 }.window(), None);
}

#[test]
fn lookup_by_name() {
    assert_eq!(single_match::<u8>(vec![]), Err(ClientError::ObjectNotFound));
    assert_eq!(single_match(vec![7]), Ok(7));
    assert_eq!(single_match(vec![1, 2]), Err(ClientError::DuplicateObject));
}

#[test]
fn parents_of_new_objects() {
    let program = ProgramId::new("program-1").unwrap();
    let other = ProgramId::new("program-2").unwrap();
    let content = new_event(&program);
    assert!(content.intervals.is_empty());
    assert!(check_event_parent(&program, &content).is_ok());
    assert_eq!(check_event_parent(&other, &content), Err(ClientError::InvalidParentObject));

    let event = Event {
        id: EventId::parse("event-1").unwrap(),
        created_date_time: Timestamp::unix_epoch(),
        modification_date_time: Timestamp::unix_epoch(),
        content: EventContent::new(program.clone(), vec![EventInterval::new(0, vec![])]),
    };
    let report = new_report(&event);
    assert_eq!(report.client_name, "");
    assert!(check_report_parent(&event, &report).is_ok());
    let mut wrong = new_report(&event);
    wrong.event_id = EventId::parse("event-2").unwrap();
    assert_eq!(check_report_parent(&event, &wrong), Err(ClientError::InvalidParentObject));

    let q = report_query_pairs(&event, None, &PaginationOptions { skip: 100, limit: 50 });
    assert_eq!(q, vec![p("programID", "program-1"), p("eventID", "event-1"), p("skip", "100"), p("limit", "50")]);
    let q = report_query_pairs(&event, Some("ven-7"), &PaginationOptions { skip: 0, limit: 50 });
    assert_eq!(q.last(), Some(&p("clientName", "ven-7")));
    assert_eq!(q.len(), 5);
}

#[test]
fn token_handling() {
    assert!(check_bearer("Bearer").is_ok());
    assert_eq!(check_bearer("mac"), Err(ClientError::OAuthTokenNotBearer));
    assert!(!needs_token(false, None, 60));
    assert!(needs_token(true, None, 60));
    assert!(!needs_token(true, Some((10, 3600, )), 60));
    assert!(needs_token(true, Some((3540, 3600)), 60));
    // a token shorter than the refresh margin is due at once
    assert!(needs_token(true, Some((0, 30)), 60));
    assert_eq!(token_lifetime(None, 3600), 3600);
    assert_eq!(token_lifetime(Some(10), 3600), 10);
}

#[test]
fn latest_time_matches_the_calendar() {
    let max = chrono::DateTime::<chrono::Utc>::MAX_UTC;
    let t = Timestamp::max_utc();
    assert_eq!((t.secs, t.nanos), (max.timestamp(), max.timestamp_subsec_nanos()));
}
