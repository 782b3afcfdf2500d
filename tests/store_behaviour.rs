use qa_service::error::ServiceError;
use qa_service::store::Store;
use qa_service::types::{AccountId, QuestionId};

fn s(text: &str) -> String {
    text.to_string()
}

fn store_with_three() -> Store {
    let mut store = Store::new();
    for (t, c) in [("First", "one"), ("Second", "two"), ("Third", "three")] {
        store.add_question(s(t), s(c), vec![s("faq")], AccountId(1)).unwrap();
    }
    store
}

#[test]
fn listing_without_limit_returns_everything_in_order() {
    let store = store_with_three();
    let all = store.get_questions(None, 0).unwrap();
    let titles: Vec<&str> = all.iter().map(|q| q.title.as_str()).collect();
    assert_eq!(titles, vec!["First", "Second", "Third"]);
    assert_eq!(all[0].id, QuestionId(1));
    assert_eq!(all[2].id, QuestionId(3));
}

#[test]
fn listing_window_applies_limit_and_offset() {
    let store = store_with_three();
    let window = store.get_questions(Some(1), 1).unwrap();
    assert_eq!(window.len(), 1);
    assert_eq!(window[0].title, "Second");
    let rest = store.get_questions(Some(10), 1).unwrap();
    assert_eq!(rest.len(), 2);
    let none = store.get_questions(Some(0), 0).unwrap();
    assert!(none.is_empty());
}

#[test]
fn listing_past_the_end_is_empty() {
    let store = store_with_three();
    assert!(store.get_questions(None, 3).unwrap().is_empty());
    assert!(store.get_questions(Some(2), 100).unwrap().is_empty());
    assert!(Store::new().get_questions(None, 0).unwrap().is_empty());
}

#[test]
fn add_question_requires_title_and_content() {
    let mut store = Store::new();
    assert_eq!(
        store.add_question(s(""), s("c"), vec![], AccountId(1)),
        Err(ServiceError::MissingParameters)
    );
    assert_eq!(
        store.add_question(s("t"), s(""), vec![], AccountId(1)),
        Err(ServiceError::MissingParameters)
    );
    assert!(store.get_questions(None, 0).unwrap().is_empty());
}

#[test]
fn update_only_by_owner_and_missing_first() {
    let mut store = store_with_three();
    let patch = store.get_questions(Some(1), 0).unwrap()[0].clone();
    let mut patch = patch;
    patch.title = s("New title");
    assert_eq!(
        store.update_question(patch.clone(), 99, AccountId(2)),
        Err(ServiceError::NotFound)
    );
    assert_eq!(
        store.update_question(patch.clone(), 1, AccountId(2)),
        Err(ServiceError::Forbidden)
    );
    assert_eq!(store.is_question_owner(1, &AccountId(1)), Ok(true));
    assert_eq!(store.is_question_owner(1, &AccountId(2)), Ok(false));
    assert_eq!(store.is_question_owner(99, &AccountId(1)), Ok(false));
    let updated = store.update_question(patch, 1, AccountId(1)).unwrap();
    assert_eq!(updated.id, QuestionId(1));
    assert_eq!(updated.title, "New title");
    assert_eq!(store.get_questions(Some(1), 0).unwrap()[0].title, "New title");
}

#[test]
fn deleting_twice_reports_not_found() {
    let mut store = store_with_three();
    assert_eq!(store.delete_question(2, AccountId(5)), Err(ServiceError::Forbidden));
    assert_eq!(store.delete_question(2, AccountId(1)), Ok(true));
    assert_eq!(store.delete_question(2, AccountId(1)), Err(ServiceError::NotFound));
    let titles: Vec<String> =
        store.get_questions(None, 0).unwrap().into_iter().map(|q| q.title).collect();
    assert_eq!(titles, vec![s("First"), s("Third")]);
}

#[test]
fn answer_to_missing_question_is_refused() {
    let mut store = store_with_three();
    assert_eq!(
        store.add_answer(QuestionId(42), s("an answer"), AccountId(1)),
        Err(ServiceError::QuestionNotFound)
    );
    let first = store.add_answer(QuestionId(1), s("an answer"), AccountId(1)).unwrap();
    assert_eq!(first.id.0, 1);
    assert_eq!(first.question_id, QuestionId(1));
    assert_eq!(
        store.add_answer(QuestionId(1), s(""), AccountId(1)),
        Err(ServiceError::MissingParameters)
    );
    let second = store.add_answer(QuestionId(3), s("another"), AccountId(2)).unwrap();
    assert_eq!(second.id.0, 2);
}

#[test]
fn accounts_have_unique_emails() {
    let mut store = Store::new();
    assert_eq!(store.add_account(s("a@x.com"), s("hash1")), Ok(true));
    assert_eq!(store.add_account(s("a@x.com"), s("hash2")), Err(ServiceError::DuplicateEmail));
    assert_eq!(store.add_account(s("b@x.com"), s("hash3")), Ok(true));
    let a = store.get_account(s("a@x.com")).unwrap();
    assert_eq!(a.id, Some(AccountId(1)));
    assert_eq!(a.password, "hash1");
    assert_eq!(store.get_account(s("b@x.com")).unwrap().id, Some(AccountId(2)));
    assert_eq!(store.get_account(s("c@x.com")), Err(ServiceError::NotFound));
}

#[test]
fn single_question_by_id() {
    let store = store_with_three();
    let q = store.get_question(2).unwrap();
    assert_eq!(q.title, "Second");
    assert_eq!(q.tags, vec![s("faq")]);
    assert_eq!(store.get_question(4), Err(ServiceError::NotFound));
    assert!(store.get_question_exists(3));
    assert!(!store.get_question_exists(0));
}
