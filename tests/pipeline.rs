use qa_service::error::{APILayerError, ServiceError, Signal};
use qa_service::error::return_error;
use qa_service::pagination::{extract_pagination, parse_u32, Pagination};
use qa_service::policy::{both_clean, classify_reply};
use qa_service::routes;
use qa_service::store::Store;
use qa_service::types::{
    Account, AccountId, AddAnswer, NewAnswer, NewQuestion, Question, QuestionId, Session,
};

const KEY: &[u8] = b"RANDOM WORDS WINTER MACINTOSH PC";

fn s(text: &str) -> String {
    text.to_string()
}

fn session(id: i32) -> Session {
    Session { exp: i64::MAX, account_id: AccountId(id), nbf: 0 }
}

fn new_question(title: &str, content: &str) -> NewQuestion {
    NewQuestion { title: s(title), content: s(content), tags: vec![s("faq")] }
}

#[test]
fn pagination_parameters() {
    assert_eq!(extract_pagination(None, None), Ok(Pagination { limit: None, offset: 0 }));
    assert_eq!(
        extract_pagination(Some(s("12")), Some(s("+3"))),
        Ok(Pagination { limit: Some(12), offset: 3 })
    );
    assert_eq!(extract_pagination(Some(s("-1")), None), Err(ServiceError::InvalidPagination));
    assert_eq!(extract_pagination(None, Some(s("abc"))), Err(ServiceError::InvalidPagination));
    assert_eq!(extract_pagination(Some(s("")), None), Err(ServiceError::InvalidPagination));
    assert_eq!(
        extract_pagination(Some(s("4294967296")), None),
        Err(ServiceError::InvalidPagination)
    );
    assert_eq!(parse_u32("4294967295"), Some(u32::MAX));
    assert_eq!(parse_u32("007"), Some(7));
    assert_eq!(parse_u32("+7"), Some(7));
    assert_eq!(parse_u32("+"), None);
    assert_eq!(parse_u32("++7"), None);
    assert_eq!(parse_u32("-7"), None);
    assert_eq!(parse_u32("1 "), None);
}

#[test]
fn question_ids_from_text() {
    assert_eq!(QuestionId::from_str("12"), Ok(QuestionId(12)));
    assert_eq!(QuestionId::from_str("+12"), Ok(QuestionId(12)));
    assert_eq!(QuestionId::from_str(""), Err(ServiceError::MissingParameters));
    assert_eq!(QuestionId::from_str("x1"), Err(ServiceError::ParseError));
    assert_eq!(QuestionId::from_str("2147483648"), Err(ServiceError::ParseError));
    let form = AddAnswer { content: s("yes"), question_id: s("4") };
    assert_eq!(form.parse(), Ok(NewAnswer { content: s("yes"), question_id: QuestionId(4) }));
    let bad = AddAnswer { content: s("yes"), question_id: s("four") };
    assert_eq!(bad.parse(), Err(ServiceError::ParseError));
}

#[test]
fn question_new_keeps_fields() {
    let q = Question::new(QuestionId(1), s("First Question"), s("Content of question"), vec![s("faq")]);
    assert_eq!(q.id, QuestionId(1));
    assert_eq!(q.title, "First Question");
    assert_eq!(q.tags, vec![s("faq")]);
}

#[test]
fn listing_through_the_pipeline() {
    let mut store = Store::new();
    for t in ["a", "b", "c"] {
        routes::add_question(&mut store, &session(1), new_question(t, "x"), Ok(s(t)), Ok(s("x")))
            .unwrap();
    }
    let all = routes::get_questions(&store, None, None).unwrap();
    assert_eq!(all.len(), 3);
    let two = routes::get_questions(&store, Some(s("2")), Some(s("1"))).unwrap();
    assert_eq!(two.iter().map(|q| q.title.as_str()).collect::<Vec<_>>(), vec!["b", "c"]);
    assert!(routes::get_questions(&store, None, Some(s("3"))).unwrap().is_empty());
    assert_eq!(
        routes::get_questions(&store, Some(s("-5")), None),
        Err(ServiceError::InvalidPagination)
    );
}

#[test]
fn checked_text_is_what_gets_stored() {
    let mut store = Store::new();
    let q = routes::add_question(
        &mut store,
        &session(1),
        new_question("shit title", "fine"),
        Ok(s("**** title")),
        Ok(s("fine")),
    )
    .unwrap();
    assert_eq!(q.title, "**** title");
    let refused = APILayerError { status: 400, message: s("bad") };
    assert_eq!(
        routes::add_question(
            &mut store,
            &session(1),
            new_question("t", "c"),
            Err(ServiceError::PolicyRejected(refused.clone())),
            Err(ServiceError::PolicyUnavailable),
        ),
        Err(ServiceError::PolicyRejected(refused))
    );
    assert_eq!(store.get_questions(None, 0).unwrap().len(), 1);
}

#[test]
fn update_scenario_owner_and_stranger() {
    let mut store = Store::new();
    let a = session(1);
    let b = session(2);
    let q1 = routes::add_question(&mut store, &a, new_question("Q1", "first draft"), Ok(s("Q1")), Ok(s("first draft")))
        .unwrap();
    let mut patch = q1.clone();
    patch.content = s("patched");
    assert_eq!(routes::authorize_change(&store, q1.id.0, &b), Err(ServiceError::Forbidden));
    assert_eq!(
        routes::update_question(&mut store, q1.id.0, &b, patch.clone(), Ok(s("Q1")), Ok(s("patched"))),
        Err(ServiceError::Forbidden)
    );
    assert_eq!(routes::authorize_change(&store, q1.id.0, &a), Ok(()));
    let updated =
        routes::update_question(&mut store, q1.id.0, &a, patch, Ok(s("Q1")), Ok(s("patched"))).unwrap();
    assert_eq!(updated.content, "patched");
    assert_eq!(store.get_questions(None, 0).unwrap()[0].content, "patched");
    assert_eq!(
        routes::update_question(&mut store, 77, &a, updated.clone(), Ok(s("Q1")), Ok(s("x"))),
        Err(ServiceError::NotFound)
    );
    assert_eq!(
        routes::update_question(
            &mut store,
            q1.id.0,
            &a,
            updated,
            Ok(s("Q1")),
            Err(ServiceError::PolicyUnavailable)
        ),
        Err(ServiceError::PolicyUnavailable)
    );
}

#[test]
fn delete_through_the_pipeline() {
    let mut store = Store::new();
    let a = session(1);
    routes::add_question(&mut store, &a, new_question("t", "c"), Ok(s("t")), Ok(s("c"))).unwrap();
    assert_eq!(routes::delete_question(&mut store, 1, &session(2)), Err(ServiceError::Forbidden));
    assert_eq!(routes::delete_question(&mut store, 1, &a), Ok(s("Question 1 deleted")));
    assert_eq!(routes::delete_question(&mut store, 1, &a), Err(ServiceError::NotFound));
}

#[test]
fn answer_needs_its_question_before_any_check() {
    let mut store = Store::new();
    let a = session(1);
    let missing = NewAnswer { content: s("hi"), question_id: QuestionId(9) };
    assert_eq!(
        routes::add_answer(&mut store, &a, missing, Err(ServiceError::PolicyUnavailable)),
        Err(ServiceError::QuestionNotFound)
    );
    routes::add_question(&mut store, &a, new_question("t", "c"), Ok(s("t")), Ok(s("c"))).unwrap();
    let ok = NewAnswer { content: s("hi"), question_id: QuestionId(1) };
    let answer = routes::add_answer(&mut store, &session(2), ok, Ok(s("hi"))).unwrap();
    assert_eq!(answer.content, "hi");
    assert_eq!(answer.question_id, QuestionId(1));
}

#[test]
fn registration_and_login_scenario() {
    let mut store = Store::new();
    let account = |email: &str, pw: &str| Account { id: None, email: s(email), password: s(pw) };
    assert_eq!(routes::register(&mut store, account("a@x.com", "pw1")), Ok(s("Account added")));
    assert_ne!(store.get_account(s("a@x.com")).unwrap().password, "pw1");
    assert_eq!(
        routes::register(&mut store, account("a@x.com", "pw2")),
        Err(ServiceError::DuplicateEmail)
    );
    let hashed = qa_service::auth::hash_password(b"pw3").unwrap();
    assert_eq!(
        routes::register_hashed(&mut store, s("a@x.com"), hashed.clone()),
        Err(ServiceError::DuplicateEmail)
    );
    assert_eq!(routes::register_hashed(&mut store, s("c@x.com"), hashed), Ok(s("Account added")));
    assert_eq!(store.get_account(s("c@x.com")).unwrap().id, Some(AccountId(2)));
    let token = routes::login(&store, account("a@x.com", "pw1"), KEY).unwrap();
    let session = qa_service::auth::verify_token(&token, KEY).unwrap();
    assert_eq!(session.account_id, AccountId(1));
    assert_eq!(
        routes::login(&store, account("a@x.com", "wrong"), KEY),
        Err(ServiceError::WrongCredentials)
    );
}

#[test]
fn wrong_password_and_unknown_email_fail_alike() {
    let mut store = Store::new();
    routes::register(&mut store, Account { id: None, email: s("a@x.com"), password: s("pw1") })
        .unwrap();
    let wrong = routes::authenticate(&store, s("a@x.com"), s("nope"));
    let unknown = routes::authenticate(&store, s("b@x.com"), s("pw1"));
    assert_eq!(wrong, Err(ServiceError::WrongCredentials));
    assert_eq!(wrong, unknown);
    assert_eq!(wrong.unwrap_err().into_response(), unknown.unwrap_err().into_response());
    assert_eq!(routes::authenticate(&store, s("a@x.com"), s("pw1")), Ok(AccountId(1)));
    assert_eq!(routes::credentials_outcome(None, Ok(false)), Err(ServiceError::WrongCredentials));
    assert_eq!(
        routes::credentials_outcome(Some(AccountId(2)), Ok(false)),
        Err(ServiceError::WrongCredentials)
    );
    assert_eq!(routes::credentials_outcome(Some(AccountId(2)), Ok(true)), Ok(AccountId(2)));
    assert_eq!(
        routes::credentials_outcome(Some(AccountId(2)), Err(ServiceError::ArgonLibraryError)),
        Err(ServiceError::ArgonLibraryError)
    );
}

#[test]
fn classifier_replies() {
    assert_eq!(
        classify_reply(400, s("bad words"), None),
        Err(ServiceError::PolicyRejected(APILayerError { status: 400, message: s("bad words") }))
    );
    assert_eq!(
        classify_reply(503, s("down"), Some(s("x"))),
        Err(ServiceError::PolicyServiceError(APILayerError { status: 503, message: s("down") }))
    );
    assert_eq!(classify_reply(200, s("{}"), Some(s("clean ****"))), Ok(s("clean ****")));
    assert_eq!(
        classify_reply(200, s("{}"), None),
        Err(ServiceError::PolicyServiceError(APILayerError { status: 200, message: s("{}") }))
    );
    assert_eq!(both_clean(Ok(s("a")), Ok(s("b"))), Ok((s("a"), s("b"))));
    assert_eq!(
        both_clean(Err(ServiceError::PolicyUnavailable), Err(ServiceError::ParseError)),
        Err(ServiceError::PolicyUnavailable)
    );
    assert_eq!(
        both_clean(Ok(s("a")), Err(ServiceError::ParseError)),
        Err(ServiceError::ParseError)
    );
}

#[test]
fn failures_map_to_stable_signals() {
    let api = APILayerError { status: 401, message: s("no key") };
    let cases = [
        (ServiceError::ParseError, 400, "Cannot parse parameter"),
        (ServiceError::MissingParameters, 400, "Missing parameter"),
        (ServiceError::InvalidPagination, 400, "Invalid pagination parameters"),
        (ServiceError::MalformedPayload, 400, "Malformed request payload"),
        (ServiceError::Unauthorized, 401, "Missing or invalid authentication token"),
        (ServiceError::Forbidden, 401, "No permission to change underlying resource"),
        (ServiceError::NotFound, 404, "Resource not found"),
        (ServiceError::QuestionNotFound, 404, "Question not found"),
        (ServiceError::DuplicateEmail, 409, "Account already exists"),
        (ServiceError::WrongCredentials, 401, "Wrong E-Mail/Password combination"),
        (
            ServiceError::PolicyRejected(api.clone()),
            422,
            "External Client error: Status: 401, Message: no key",
        ),
        (ServiceError::PolicyServiceError(api.clone()), 500, "Internal Server Error"),
        (ServiceError::PolicyUnavailable, 500, "Internal Server Error"),
        (ServiceError::ArgonLibraryError, 500, "Internal Server Error"),
        (ServiceError::TokenIssueError, 500, "Internal Server Error"),
        (ServiceError::DatabaseQueryError, 500, "Internal Server Error"),
    ];
    for (e, status, message) in cases {
        assert_eq!(e.into_response(), (status, s(message)), "{:?}", e);
    }
    assert_eq!(
        ServiceError::PolicyServiceError(api.clone()).describe(),
        "External Server error: Status: 401, Message: no key"
    );
    assert_eq!(api.describe(), "Status: 401, Message: no key");
    assert_eq!(ServiceError::WrongCredentials.describe(), "Wrong password");
    assert_eq!(
        ServiceError::Forbidden.describe(),
        "No permission to change the underlying resource"
    );
    assert_eq!(ServiceError::Unauthorized.describe(), "Cannot decrypt error");
    assert_eq!(ServiceError::MissingParameters.describe(), "Missing parameter");
    assert_eq!(ServiceError::Forbidden.signal(), Signal::AuthenticationFailure);
    assert_eq!(Signal::Conflict.status(), 409);
    assert_eq!(return_error(), (404, s("Route not found")));
}
