use openadr::api::user::{StoredUser, UserDetails};
use openadr::time::Timestamp;
use openadr::data_source::check_report_creation;
use openadr::api::{ValidatedForm, ValidatedJson};
use openadr::data_source::{business_scope, ven_targets, TargetFilter};
use openadr::api::auth::{select_credentials, token_answer, AccessTokenRequest, OAuthErrorType};
use openadr::api::event::QueryParams as EventQuery;
use openadr::api::program::QueryParams as ProgramQuery;
use openadr::api::report::QueryParams as ReportQuery;
use openadr::api::resource::has_write_permission;
use openadr::api::ven::may_read_ven;
use openadr::api::{range_failure, FieldFailure, ValidatedQuery, Validate};
use openadr::data_source::memory::{AuthStore, EventStore, InMemoryStorage, ProgramStore, ReportStore};
use openadr::data_source::{AuthInfo, AuthSource, Crud};
use openadr::error::AppError;
use openadr::event::{EventContent, EventInterval};
use openadr::ids::{EventId, ProgramId, ReportId, VenId};
use openadr::jwt::{AuthRole, BusinessIds, BusinessUser, Claims, User, VENUser, VenManagerUser};
use openadr::program::ProgramContent;
use openadr::report::ReportContent;
use openadr::wire_enums::TargetLabel;

fn business() -> Claims {
    Claims::any_business_user()
}

fn program(name: &str) -> ProgramContent {
    ProgramContent::new(name)
}

fn event(program_id: &ProgramId, name: &str) -> EventContent {
    let mut e = EventContent::new(program_id.clone(), vec![EventInterval::new(0, vec![])]);
    e.event_name = Some(name.to_string());
    e
}

#[test]
fn program_create_read_update_delete() {
    let mut store = ProgramStore::new();
    let p1 = store.create(program("program1"), &business()).unwrap();
    assert!(p1.id.as_str().starts_with("program-"));
    assert_eq!(p1.created_date_time, p1.modification_date_time);
    assert_eq!(store.retrieve(&p1.id, &business()).unwrap(), p1);

    let mut changed = program("program1");
    changed.retailer_name = Some("ACME".to_string());
    let updated = store.update(&p1.id, changed, &business()).unwrap();
    assert_eq!(updated.id, p1.id);
    assert_eq!(updated.created_date_time, p1.created_date_time);
    assert_eq!(updated.content.retailer_name.as_deref(), Some("ACME"));
    assert_eq!(store.retrieve(&p1.id, &business()).unwrap(), updated);

    let deleted = store.delete(&p1.id, &business()).unwrap();
    assert_eq!(deleted, updated);
    assert!(matches!(store.retrieve(&p1.id, &business()), Err(AppError::NotFound)));
    assert!(matches!(store.delete(&p1.id, &business()), Err(AppError::NotFound)));
    assert!(matches!(store.update(&p1.id, program("x"), &business()), Err(AppError::NotFound)));
}

#[test]
fn program_create_same_name() {
    let mut store = ProgramStore::new();
    let p1 = store.create(program("program1"), &business()).unwrap();
    match store.create(program("program1"), &business()) {
        Err(AppError::Conflict(message)) => {
            assert_eq!(message, format!("Program with id {} has the same name", p1.id.as_str()))
        }
        other => panic!("expected a conflict, got {other:?}"),
    }
}

#[test]
fn program_update_same_name() {
    let mut store = ProgramStore::new();
    let p1 = store.create(program("program1"), &business()).unwrap();
    let p2 = store.create(program("program2"), &business()).unwrap();
    assert!(matches!(store.update(&p2.id, program("program1"), &business()), Err(AppError::Conflict(_))));
    // keeping its own name is no conflict
    assert!(store.update(&p1.id, program("program1"), &business()).is_ok());
}

#[test]
fn program_retrieve_all_with_filter() {
    let mut store = ProgramStore::new();
    for name in ["program1", "program2", "program3"] {
        store.create(program(name), &business()).unwrap();
    }
    let all = store.retrieve_all(&ProgramQuery::new(), &business()).unwrap();
    assert_eq!(all.iter().map(|p| p.content.program_name.as_str()).collect::<Vec<_>>(), vec!["program1", "program2", "program3"]);

    let mut q = ProgramQuery::new();
    q.skip = 1;
    assert_eq!(store.retrieve_all(&q, &business()).unwrap().len(), 2);

    let mut q = ProgramQuery::new();
    q.limit = 2;
    assert_eq!(store.retrieve_all(&q, &business()).unwrap().len(), 2);

    let mut q = ProgramQuery::new();
    q.skip = -1;
    assert!(matches!(q.validate(), Err(AppError::Validation(_))));
    let mut q = ProgramQuery::new();
    q.limit = 0;
    assert!(ValidatedQuery::check(q).is_err());
    let mut q = ProgramQuery::new();
    q.limit = -1;
    assert!(q.validate().is_err());

    let mut q = ProgramQuery::new();
    q.target_type = Some(TargetLabel::Private("NONSENSE".into()));
    assert!(q.validate().is_err(), "Do return BAD_REQUEST on empty targetValue");

    let mut q = ProgramQuery::new();
    q.target_type = Some(TargetLabel::ProgramName);
    q.target_values = Some(vec!["program1".into(), "program2".into()]);
    assert!(q.validate().is_ok());
    assert_eq!(store.retrieve_all(&q, &business()).unwrap().len(), 2);

    let mut q = ProgramQuery::new();
    q.target_type = Some(TargetLabel::Private("NONSENSE".into()));
    q.target_values = Some(vec!["test".into()]);
    assert!(matches!(store.retrieve_all(&q, &business()), Err(AppError::NotImplemented(_))));
}

#[test]
fn event_create_read_filter_delete() {
    let mut store = EventStore::new();
    let p1 = ProgramId::new("program-1").unwrap();
    let p2 = ProgramId::new("program-2").unwrap();
    let e1 = store.create(event(&p1, "event1"), &business()).unwrap();
    let e2 = store.create(event(&p2, "event2"), &business()).unwrap();
    let e3 = store.create(event(&p2, "event3"), &business()).unwrap();
    assert!(e1.id.as_str().starts_with("event-"));
    assert_eq!(store.retrieve(&e2.id, &business()).unwrap(), e2);

    let mut q = EventQuery::new();
    q.program_id = Some(p2.clone());
    assert_eq!(store.retrieve_all(&q, &business()).unwrap(), vec![e2.clone(), e3.clone()]);

    let mut q = EventQuery::new();
    q.target_type = Some(TargetLabel::EventName);
    q.target_values = Some(vec!["event1".into(), "event3".into()]);
    assert_eq!(store.retrieve_all(&q, &business()).unwrap(), vec![e1.clone(), e3.clone()]);

    let mut q = EventQuery::new();
    q.target_type = Some(TargetLabel::ProgramName);
    q.target_values = Some(vec!["program-1".into()]);
    assert!(matches!(store.retrieve_all(&q, &business()), Err(AppError::NotImplemented(_))));

    let mut q = EventQuery::new();
    q.skip = 1;
    q.limit = 1;
    assert_eq!(store.retrieve_all(&q, &business()).unwrap(), vec![e2.clone()]);

    store.delete(&e2.id, &business()).unwrap();
    assert!(matches!(store.retrieve(&e2.id, &business()), Err(AppError::NotFound)));
    assert_eq!(store.retrieve_all(&EventQuery::new(), &business()).unwrap(), vec![e1, e3]);
}

#[test]
fn report_filter_by_client() {
    let mut store = ReportStore::new();
    let content = |client: &str| ReportContent {
        object_type: None,
        program_id: ProgramId::new("p1").unwrap(),
        event_id: EventId::parse("e1").unwrap(),
        client_name: client.to_string(),
        report_name: None,
        payload_descriptors: None,
        resources: vec![],
    };
    let r1 = store.create(content("ven-1"), &business()).unwrap();
    store.create(content("ven-2"), &business()).unwrap();
    let mut q = ReportQuery::new();
    q.client_name = Some("ven-1".to_string());
    assert_eq!(store.retrieve_all(&q, &business()).unwrap(), vec![r1.clone()]);
    let mut q = ReportQuery::new();
    q.limit = 51;
    assert!(q.validate().is_err());
    assert!(matches!(store.retrieve(&ReportId::parse("unknown").unwrap(), &business()), Err(AppError::NotFound)));
}

#[test]
fn auth_source_checks_credentials() {
    let mut auth = AuthStore::new();
    auth.add(AuthInfo { client_id: "admin".into(), client_secret: "secret".into(), roles: vec![AuthRole::UserManager] });
    assert_eq!(auth.get_user("admin", "secret").unwrap().roles, vec![AuthRole::UserManager]);
    assert!(auth.get_user("admin", "wrong").is_none());
    let storage = InMemoryStorage::new();
    assert!(storage.auth.get_user("admin", "secret").is_none());
}

#[test]
fn claims_roles() {
    let ven1 = VenId::new("ven-1").unwrap();
    let claims = Claims::new(vec![
        AuthRole::VEN(ven1.clone()),
        AuthRole::Business("business-1".into()),
        AuthRole::VEN(VenId::new("ven-2").unwrap()),
    ]);
    assert_eq!(claims.ven_ids(), vec![ven1.clone(), VenId::new("ven-2").unwrap()]);
    assert_eq!(claims.ven_ids_string(), vec!["ven-1".to_string(), "ven-2".to_string()]);
    assert!(matches!(claims.business_ids(), BusinessIds::Specific(ids) if ids == vec!["business-1".to_string()]));
    assert!(claims.is_ven() && claims.is_business() && !claims.is_user_manager() && !claims.is_ven_manager());
    assert!(matches!(business().business_ids(), BusinessIds::Any));
    assert!(AuthRole::AnyBusiness.is_business() && !AuthRole::VenManager.is_business());
    // a client is a VEN exactly when it has VEN ids
    for c in [claims, business(), Claims::new(vec![])] {
        assert_eq!(c.is_ven(), !c.ven_ids().is_empty());
    }
}

#[test]
fn extractors_check_roles() {
    assert!(matches!(User::authenticate(None), Err(AppError::Auth(_))));
    assert!(matches!(User::authenticate(Some(None)), Err(AppError::Forbidden("Invalid authentication token provided"))));
    let user = User::authenticate(Some(Some(business()))).unwrap();
    assert!(BusinessUser::from_user(user).is_ok());
    let ven = User(Claims::new(vec![AuthRole::VEN(VenId::new("ven-1").unwrap())]));
    assert!(matches!(BusinessUser::from_user(ven), Err(AppError::Forbidden("User does not have the required role"))));
    assert!(VENUser::from_user(User(business())).is_err());
    assert!(matches!(VenManagerUser::from_user(User(business())), Err(AppError::Auth(_))));
}

#[test]
fn resource_and_ven_access() {
    let ven1 = VenId::new("ven-1").unwrap();
    let ven2 = VenId::new("ven-2").unwrap();
    let as_ven1 = Claims::new(vec![AuthRole::VEN(ven1.clone())]);
    assert!(has_write_permission(&as_ven1, &ven1).is_ok());
    assert!(matches!(has_write_permission(&as_ven1, &ven2), Err(AppError::Forbidden(_))));
    assert!(has_write_permission(&Claims::new(vec![AuthRole::VenManager]), &ven2).is_ok());
    assert!(may_read_ven(&as_ven1, &ven1).is_ok());
    assert!(matches!(may_read_ven(&as_ven1, &ven2), Err(AppError::Forbidden("User does not have access to this VEN"))));
    assert!(matches!(may_read_ven(&business(), &ven2), Err(AppError::Forbidden("User is not a VEN or VEN Manager"))));
}

#[test]
fn token_request_credentials() {
    let request = |grant: &str, id: Option<&str>, secret: Option<&str>| AccessTokenRequest {
        grant_type: grant.to_string(),
        client_id: id.map(String::from),
        client_secret: secret.map(String::from),
    };
    let kind = |r: Result<(String, String), openadr::api::auth::ResponseOAuthError>| r.err().map(|e| e.0.error);

    assert_eq!(kind(select_credentials(&request("password", Some("a"), Some("b")), None)), Some(OAuthErrorType::UnsupportedGrantType));
    assert_eq!(
        kind(select_credentials(&request("client_credentials", Some("a"), None), Some(("x".into(), "y".into())))),
        Some(OAuthErrorType::InvalidRequest)
    );
    assert_eq!(kind(select_credentials(&request("client_credentials", None, None), None)), Some(OAuthErrorType::InvalidClient));
    assert_eq!(
        select_credentials(&request("client_credentials", Some("a"), None), None).ok(),
        Some(("a".to_string(), String::new()))
    );
    assert_eq!(
        select_credentials(&request("client_credentials", None, Some("s")), None).ok(),
        Some((String::new(), "s".to_string()))
    );
    assert_eq!(
        select_credentials(&request("client_credentials", None, None), Some(("x".into(), "y".into()))).ok(),
        Some(("x".to_string(), "y".to_string()))
    );

    let err = token_answer(false, None).err().unwrap();
    assert_eq!(err.0.error, OAuthErrorType::InvalidClient);
    assert_eq!(err.status(), 401);
    assert_eq!(err.challenge(), Some("Basic realm=\"VTN\""));
    let err = token_answer(true, None).err().unwrap();
    assert_eq!(err.status(), 500);
    let ok = token_answer(true, Some("token".into())).ok().unwrap();
    assert_eq!((ok.access_token.as_str(), ok.token_type, ok.expires_in), ("token", "bearer", 2592000));

    let description = |r: Result<(String, String), openadr::api::auth::ResponseOAuthError>| r.err().and_then(|e| e.0.error_description);
    assert_eq!(
        description(select_credentials(&request("password", Some("a"), Some("b")), None)).as_deref(),
        Some("Only client_credentials grant type is supported")
    );
    assert_eq!(
        description(select_credentials(&request("client_credentials", Some("a"), None), Some(("x".into(), "y".into())))).as_deref(),
        Some("Both header and body authentication provided")
    );
    assert_eq!(
        description(select_credentials(&request("client_credentials", None, None), None)).as_deref(),
        Some("No valid authentication data provided, client_id and client_secret required")
    );
    assert_eq!(
        token_answer(false, None).err().unwrap().0.error_description.as_deref(),
        Some("Invalid client_id or client_secret")
    );
    assert_eq!(
        token_answer(true, None).err().unwrap().0.error_description.as_deref(),
        Some("Could not issue a new token")
    );
}

#[test]
fn errors_become_problems() {
    let p = AppError::NotFound.problem_with_reference("ref-1".into());
    assert_eq!(p.status, 404);
    assert_eq!(p.title.as_deref(), Some("404 Not Found"));
    assert_eq!(p.detail, None);
    assert_eq!(p.instance.as_deref(), Some("ref-1"));
    assert_eq!(p.problem_type.0, "about:blank");

    let p = AppError::Sql("connection lost".into()).into_problem();
    assert_eq!(p.status, 500);
    assert_eq!(p.detail.as_deref(), Some("A database error occurred"));
    assert!(p.instance.is_some());

    let p = AppError::Forbidden("nope").problem_with_reference("r".into());
    assert_eq!((p.status, p.title.as_deref(), p.detail.as_deref()), (403, Some("403 Forbidden"), Some("nope")));

    let p = AppError::from(openadr::identifier::IdentifierError::InvalidCharacter).problem_with_reference("r".into());
    assert_eq!(p.status, 400);
    assert_eq!(p.detail.as_deref(), Some("identifier contains characters besides [a-zA-Z0-9_-]"));

    let p = AppError::UnsupportedMediaType("json expected".into()).problem_with_reference("r".into());
    assert_eq!(p.status, 415);
    assert_eq!(p.title.as_deref(), Some("415 Unsupported Media Type"));
}

#[test]
fn rejected_bodies_become_errors() {
    let e = AppError::from_json_rejection(true, "Expected request with `Content-Type: application/json`".into());
    assert_eq!(e.problem_with_reference("r".into()).status, 415);
    let e = AppError::from_json_rejection(false, "missing field `programName`".into());
    let p = e.problem_with_reference("r".into());
    assert_eq!((p.status, p.detail.as_deref()), (400, Some("missing field `programName`")));
    let p = AppError::from_form_rejection(true, "form expected".into()).problem_with_reference("r".into());
    assert_eq!((p.status, p.detail.as_deref()), (415, Some("form expected")));
    let p = AppError::from_form_rejection(false, "missing grant_type".into()).problem_with_reference("r".into());
    assert_eq!((p.status, p.detail.as_deref()), (400, Some("missing grant_type")));
}

#[test]
fn database_filters() {
    assert_eq!(business_scope(&business()), None);
    let claims = Claims::new(vec![AuthRole::Business("b-1".into()), AuthRole::VEN(VenId::new("ven-1").unwrap())]);
    assert_eq!(business_scope(&claims), Some(vec!["b-1".to_string()]));
    assert_eq!(ven_targets(&claims), vec![("VEN_NAME", ["ven-1".to_string()])]);

    let mut q = ProgramQuery::new();
    q.target_type = Some(TargetLabel::VENName);
    q.target_values = Some(vec!["ven-2".into()]);
    let f = TargetFilter::from_query(&q);
    assert_eq!(f.ven_names, Some(vec!["ven-2".to_string()]));
    assert!(f.program_names.is_none() && f.target_type.is_none());

    let mut q = ProgramQuery::new();
    q.target_type = Some(TargetLabel::Group);
    q.target_values = Some(vec!["group-1".into()]);
    let f = TargetFilter::from_query(&q);
    assert_eq!(f.target_type.as_deref(), Some("GROUP"));
    assert_eq!(f.target_values, Some(vec!["group-1".to_string()]));
    assert_eq!((f.skip, f.limit), (0, 50));
}

#[test]
fn validated_bodies() {
    let form = ValidatedForm::check(AccessTokenRequest { grant_type: "client_credentials".into(), client_id: None, client_secret: None })
        .ok()
        .unwrap();
    assert_eq!(form.into_inner().grant_type, "client_credentials");
    let mut content = program("p");
    content.program_descriptions = Some(vec![openadr::program::ProgramDescription { url: "no url".into() }]);
    assert!(matches!(ValidatedJson::check(content), Err(AppError::Validation(_))));
    let report_query = ReportQuery::new();
    assert!(ValidatedQuery::check(report_query).is_ok());
}

#[test]
fn report_creation_rules() {
    let report = ReportContent {
        object_type: None,
        program_id: ProgramId::new("program-1").unwrap(),
        event_id: EventId::parse("event-1").unwrap(),
        client_name: "ven-1".to_string(),
        report_name: None,
        payload_descriptors: None,
        resources: vec![],
    };
    let ven1 = Claims::new(vec![AuthRole::VEN(VenId::new("ven-1").unwrap())]);
    assert!(check_report_creation(&vec![], &ven1, Some("program-1"), &report).is_ok());
    assert!(check_report_creation(&vec!["ven-1".into()], &ven1, Some("program-1"), &report).is_ok());
    assert!(matches!(check_report_creation(&vec!["ven-2".into()], &ven1, Some("program-1"), &report), Err(AppError::NotFound)));
    assert!(matches!(check_report_creation(&vec![], &ven1, None, &report), Err(AppError::NotFound)));
    assert!(matches!(
        check_report_creation(&vec![], &ven1, Some("program-2"), &report),
        Err(AppError::BadRequest("event_id and program_id have to point to the same program"))
    ));
}

#[test]
fn validation_errors_are_rendered_per_field() {
    let failure = |field: &'static str, code: &'static str| FieldFailure { field, code, params: vec![] };
    let e = openadr::api::validation_error(&vec![failure("limit", "range")]);
    match e {
        AppError::Validation(m) => assert_eq!(m, "limit: Validation error: range [{}]"),
        other => panic!("unexpected {other:?}"),
    }
    let e = openadr::api::validation_error(&vec![failure("limit", "range"), failure("skip", "range"), failure("limit", "other")]);
    match e {
        AppError::Validation(m) => {
            let mut lines: Vec<&str> = m.lines().collect();
            lines.sort();
            assert_eq!(
                lines,
                vec!["limit: Validation error: range [{}], Validation error: other [{}]", "skip: Validation error: range [{}]"]
            );
        }
        other => panic!("unexpected {other:?}"),
    }
}

#[test]
fn paging_errors_show_bounds_and_value() {
    let mut q = ProgramQuery::new();
    q.skip = -1;
    match q.validate() {
        Err(AppError::Validation(m)) => assert!(
            m == r#"skip: Validation error: range [{"min": Number(0), "value": Number(-1)}]"#
                || m == r#"skip: Validation error: range [{"value": Number(-1), "min": Number(0)}]"#,
            "{m}"
        ),
        other => panic!("unexpected {other:?}"),
    }
    let failure = range_failure("limit", Some(1), Some(50), 51);
    match openadr::api::validation_error(&vec![failure]) {
        AppError::Validation(m) => {
            assert!(m.starts_with("limit: Validation error: range [{"));
            for part in [r#""min": Number(1)"#, r#""max": Number(50)"#, r#""value": Number(51)"#] {
                assert!(m.contains(part), "{m}");
            }
        }
        other => panic!("unexpected {other:?}"),
    }
    let mut q = ProgramQuery::new();
    q.target_type = Some(TargetLabel::ProgramName);
    match q.validate() {
        Err(AppError::Validation(m)) => assert_eq!(
            m,
            "__all__: Validation error: targetType and targetValues query parameter must either both be set or not set at the same time. [{}]"
        ),
        other => panic!("unexpected {other:?}"),
    }
}

#[test]
fn stored_users_get_their_roles() {
    let stored = |ven_ids: Vec<&str>| StoredUser {
        id: "user-1".into(),
        reference: "ref".into(),
        description: None,
        client_ids: None,
        created: Timestamp { secs: 1, nanos: 0 },
        modified: Timestamp { secs: 2, nanos: 0 },
        business_ids: Some(vec!["b-1".into()]),
        ven_ids: Some(ven_ids.into_iter().map(String::from).collect()),
        is_any_business_user: true,
        is_user_manager: true,
        is_ven_manager: false,
    };
    let details = UserDetails::from_stored(stored(vec!["ven-1"])).unwrap();
    assert_eq!(
        details.roles,
        vec![
            AuthRole::Business("b-1".into()),
            AuthRole::VEN(VenId::new("ven-1").unwrap()),
            AuthRole::UserManager,
            AuthRole::AnyBusiness,
        ]
    );
    assert!(details.client_ids.is_empty());
    assert_eq!((details.id.as_str(), details.created.secs, details.modified.secs), ("user-1", 1, 2));
    assert!(matches!(
        UserDetails::from_stored(stored(vec!["ven-1", "bad id", "null"])),
        Err(AppError::Identifier(openadr::identifier::IdentifierError::InvalidCharacter))
    ));
}
